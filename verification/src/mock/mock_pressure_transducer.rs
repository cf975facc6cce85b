use vstd::prelude::*;
use crate::ascii::{
    decimal_bytes, fixed_point_bytes, lemma_decimal_length_bound, lemma_fixed_point_width,
    lemma_zero_padded_len, pow10, push_fixed_point, push_zero_padded, zero_padded,
};
use crate::constants::BYTES_RESPONSE_PRESSURE;
use crate::mock::mock_constants::PLANT_PRESSURE;

verus! {

/// The response of the pressure transducer at `address` that measures
/// `pressure` thousandths of a PSI: "@<address> <pressure> PSI G\r\n" with
/// the address in three decimal digits and the pressure with three
/// decimals, zero-padded to seven bytes.
pub open spec fn pressure_response(address: u8, pressure: i32) -> Seq<u8> {
    seq![0x40u8] + zero_padded(decimal_bytes(address as nat), 3) + seq![0x20u8]
        + fixed_point_bytes(pressure as int, 3, 7) + seq![
        0x20u8,
        0x50u8,
        0x53u8,
        0x49u8,
        0x20u8,
        0x47u8,
        0x0Du8,
        0x0Au8,
    ]
}

/// A simulated pressure transducer.
pub struct MockPressureTransducer {
    /// Address of the pressure transducer.
    pub address: u8,
    /// Absolute pressure in thousandths of a PSI (0-100 PSI).
    pub pressure: i32,
}

impl MockPressureTransducer {
    /// A simulated pressure transducer at `address` that measures the
    /// plant's pressure.
    pub fn new(address: u8) -> (transducer: MockPressureTransducer)
        ensures
            transducer.address == address,
            transducer.pressure == PLANT_PRESSURE,
    {
        MockPressureTransducer { address, pressure: PLANT_PRESSURE }
    }

    /// The transducer's response with its measured pressure.
    pub fn request(&self) -> (frame: Vec<u8>)
        ensures
            frame@ == pressure_response(self.address, self.pressure),
    {
        let mut frame: Vec<u8> = Vec::new();
        frame.push(0x40);
        push_zero_padded(&mut frame, self.address as u64, 3);
        frame.push(0x20);
        push_fixed_point(&mut frame, self.pressure as i64, 3, 7);
        frame.push(0x20);
        frame.push(0x50);
        frame.push(0x53);
        frame.push(0x49);
        frame.push(0x20);
        frame.push(0x47);
        frame.push(0x0D);
        frame.push(0x0A);
        assert(frame@ =~= pressure_response(self.address, self.pressure));
        frame
    }
}

/// A pressure transducer's response is `BYTES_RESPONSE_PRESSURE` bytes long
/// for every pressure from -99.999 to 999.999 PSI.
pub proof fn lemma_pressure_response_length(address: u8, pressure: i32)
    requires
        -99999 <= pressure <= 999999,
    ensures
        pressure_response(address, pressure).len() == BYTES_RESPONSE_PRESSURE,
{
    reveal_with_fuel(pow10, 7);
    lemma_decimal_length_bound(address as nat, 3);
    lemma_zero_padded_len(decimal_bytes(address as nat), 3);
    lemma_fixed_point_width(pressure as int, 3, 7);
}

} // verus!
