use vstd::prelude::*;
use crate::ascii::{
    decimal_bytes, fixed_point_bytes, lemma_decimal_length_bound, lemma_fixed_point_width,
    lemma_zero_padded_len, pow10, push_fixed_point, push_zero_padded, zero_padded,
};
use crate::constants::{BYTES_RESPONSE_TEMPERATURE, NUM_TEMPERATURE_CHANNEL};
use crate::mock::mock_constants::PLANT_TEMPERATURE;

verus! {

/// The field of the channel with 0-based index `idx` that measures
/// `temperature` ten-thousandths of a degree Celsius: "C<channel>=<value>"
/// with the 1-based channel in two decimal digits and the temperature with
/// four decimals, zero-padded to nine bytes.
pub open spec fn temperature_field(idx: int, temperature: i64) -> Seq<u8> {
    seq![0x43u8] + zero_padded(decimal_bytes((idx + 1) as nat), 2) + seq![0x3Du8]
        + fixed_point_bytes(temperature as int, 4, 9)
}

/// The fields of the channels measuring `temperatures`, in order, separated
/// by commas.
pub open spec fn temperature_fields(temperatures: Seq<i64>) -> Seq<u8>
    decreases temperatures.len(),
{
    if temperatures.len() == 0 {
        Seq::empty()
    } else if temperatures.len() == 1 {
        temperature_field(0, temperatures[0])
    } else {
        temperature_fields(temperatures.drop_last()) + seq![0x2Cu8] + temperature_field(
            temperatures.len() - 1,
            temperatures.last(),
        )
    }
}

/// The response of a temperature hub whose channels measure
/// `temperatures`: their fields, then a line feed.
pub open spec fn temperature_response(temperatures: Seq<i64>) -> Seq<u8> {
    temperature_fields(temperatures) + seq![0x0Au8]
}

/// A simulated temperature hub.
#[derive(Clone, Copy)]
pub struct MockTemperatureHub {
    /// Temperatures in ten-thousandths of a degree Celsius.
    temperatures: [i64; NUM_TEMPERATURE_CHANNEL],
}

impl MockTemperatureHub {
    /// The temperatures of the hub's channels.
    pub closed spec fn spec_temperatures(&self) -> Seq<i64> {
        self.temperatures@
    }

    /// A simulated temperature hub whose channels all measure the plant's
    /// temperature.
    pub fn new() -> (hub: MockTemperatureHub)
        ensures
            hub.spec_temperatures() == Seq::new(
                NUM_TEMPERATURE_CHANNEL as nat,
                |i: int| PLANT_TEMPERATURE,
            ),
    {
        let hub = MockTemperatureHub { temperatures: [PLANT_TEMPERATURE; NUM_TEMPERATURE_CHANNEL] };
        assert(hub.temperatures@ =~= Seq::new(
            NUM_TEMPERATURE_CHANNEL as nat,
            |i: int| PLANT_TEMPERATURE,
        ));
        hub
    }

    /// Set the temperatures of the hub's channels (ten-thousandths of a
    /// degree Celsius).
    pub fn set_temperatures(&mut self, temperatures: &[i64; NUM_TEMPERATURE_CHANNEL])
        ensures
            final(self).spec_temperatures() == temperatures@,
    {
        self.temperatures = *temperatures;
    }

    /// The temperatures of the hub's channels (ten-thousandths of a degree
    /// Celsius).
    pub fn get_temperatures(&self) -> (temperatures: [i64; NUM_TEMPERATURE_CHANNEL])
        ensures
            temperatures@ == self.spec_temperatures(),
    {
        self.temperatures
    }

    /// The hub's response with its measured temperatures:
    /// "C01=<value>,C02=<value>,...,C08=<value>\n".
    pub fn request(&self) -> (frame: Vec<u8>)
        ensures
            frame@ == temperature_response(self.spec_temperatures()),
    {
        let temperatures = self.temperatures;
        let mut frame: Vec<u8> = Vec::new();
        let mut idx: usize = 0;
        while idx < NUM_TEMPERATURE_CHANNEL
            invariant
                idx <= NUM_TEMPERATURE_CHANNEL,
                temperatures@ == self.spec_temperatures(),
                temperatures@.len() == NUM_TEMPERATURE_CHANNEL,
                frame@ == temperature_fields(temperatures@.subrange(0, idx as int)),
            decreases NUM_TEMPERATURE_CHANNEL - idx,
        {
            let ghost before = frame@;
            if idx > 0 {
                frame.push(0x2C);
            }
            frame.push(0x43);
            push_zero_padded(&mut frame, (idx + 1) as u64, 2);
            frame.push(0x3D);
            push_fixed_point(&mut frame, temperatures[idx], 4, 9);
            proof {
                let prefix = temperatures@.subrange(0, idx + 1);
                assert(prefix.drop_last() =~= temperatures@.subrange(0, idx as int));
                assert(prefix.last() == temperatures@[idx as int]);
                if idx == 0 {
                    assert(temperatures@.subrange(0, 0) =~= Seq::<i64>::empty());
                    assert(frame@ =~= temperature_fields(prefix));
                } else {
                    assert(frame@ =~= temperature_fields(prefix));
                }
            }
            idx = idx + 1;
        }
        assert(temperatures@.subrange(0, NUM_TEMPERATURE_CHANNEL as int) =~= temperatures@);
        frame.push(0x0A);
        frame
    }
}

/// Whether `temperature` (ten-thousandths of a degree Celsius) fills its
/// field exactly: from -999.9999 to 9999.9999 degrees Celsius.
pub open spec fn fits_temperature_field(temperature: i64) -> bool {
    -9999999 <= temperature <= 99999999
}

/// The field of a channel below 99 with a temperature that fits is 13
/// bytes long.
proof fn lemma_temperature_field_length(idx: int, temperature: i64)
    requires
        0 <= idx < 99,
        fits_temperature_field(temperature),
    ensures
        temperature_field(idx, temperature).len() == 13,
{
    reveal_with_fuel(pow10, 9);
    lemma_decimal_length_bound((idx + 1) as nat, 2);
    lemma_zero_padded_len(decimal_bytes((idx + 1) as nat), 2);
    lemma_fixed_point_width(temperature as int, 4, 9);
}

/// The fields of `n >= 1` channels with temperatures that fit are
/// `14 * n - 1` bytes long.
proof fn lemma_temperature_fields_length(temperatures: Seq<i64>)
    requires
        1 <= temperatures.len() < 99,
        forall|i: int| 0 <= i < temperatures.len() ==> fits_temperature_field(#[trigger] temperatures[i]),
    ensures
        temperature_fields(temperatures).len() == 14 * temperatures.len() - 1,
    decreases temperatures.len(),
{
    lemma_temperature_field_length(temperatures.len() - 1, temperatures.last());
    if temperatures.len() > 1 {
        lemma_temperature_fields_length(temperatures.drop_last());
    }
}

/// A temperature hub's response is `BYTES_RESPONSE_TEMPERATURE` bytes long
/// when each of its channels measures from -999.9999 to 9999.9999 degrees
/// Celsius.
pub proof fn lemma_temperature_response_length(temperatures: Seq<i64>)
    requires
        temperatures.len() == NUM_TEMPERATURE_CHANNEL,
        forall|i: int| 0 <= i < temperatures.len() ==> fits_temperature_field(#[trigger] temperatures[i]),
    ensures
        temperature_response(temperatures).len() == BYTES_RESPONSE_TEMPERATURE,
{
    lemma_temperature_fields_length(temperatures);
}

} // verus!
