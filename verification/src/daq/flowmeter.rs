use vstd::prelude::*;
use crate::constants::NUM_REGISTER_FLOWMETER;
use crate::frame::{is_register_response, lemma_long_bytes, lemma_u32_values_are_longs, long_at};
use crate::utility::get_values_from_u8_array;

verus! {

/// Measured flow rate and totalizer values of a flowmeter.
///
/// The measurements are the IEEE 754 single-precision bit patterns that the
/// flowmeter sends; `f32::from_bits` gives their values.
#[derive(Debug, Clone, Copy, PartialEq, Eq, Structural)]
pub struct Flowmeter {
    /// Address of the flowmeter.
    pub address: u8,
    /// Signal strength (no unit).
    pub signal_strength: u32,
    /// Flow rate in liter/minute.
    pub flow_rate: u32,
    /// Positive totalizer minus negative totalizer, in liter.
    pub net_totalizer: u32,
    /// Fluid volume moved in the forward direction, in liter.
    pub positive_totalizer: u32,
    /// Fluid volume moved backward through the meter, in liter.
    pub negative_totalizer: u32,
}

/// The flowmeter that a well-formed response of the flowmeter's registers
/// describes: five 32-bit values, high word first.
pub open spec fn flowmeter_of_response(frame: Seq<u8>) -> Flowmeter {
    Flowmeter {
        address: frame[0],
        signal_strength: long_at(frame, 0),
        flow_rate: long_at(frame, 2),
        net_totalizer: long_at(frame, 4),
        positive_totalizer: long_at(frame, 6),
        negative_totalizer: long_at(frame, 8),
    }
}

impl Flowmeter {
    /// A flowmeter with the given address and all measured values zero.
    pub fn new(address: u8) -> (flowmeter: Flowmeter)
        ensures
            flowmeter == (Flowmeter {
                address,
                signal_strength: 0,
                flow_rate: 0,
                net_totalizer: 0,
                positive_totalizer: 0,
                negative_totalizer: 0,
            }),
    {
        Flowmeter {
            address,
            signal_strength: 0,
            flow_rate: 0,
            net_totalizer: 0,
            positive_totalizer: 0,
            negative_totalizer: 0,
        }
    }

    /// Create a `Flowmeter` from a Modbus response to a read of the
    /// flowmeter's registers.
    ///
    /// Returns `None` when the frame's length or byte count does not match
    /// the flowmeter's registers. The checksum is not checked here.
    pub fn from_frame(frame: &[u8]) -> (flowmeter: Option<Flowmeter>)
        ensures
            flowmeter == (if is_register_response(frame@, NUM_REGISTER_FLOWMETER as nat) {
                Some(flowmeter_of_response(frame@))
            } else {
                None
            }),
    {
        let data_bytes: usize = 2 * (NUM_REGISTER_FLOWMETER as usize);
        let frame_length: usize = 5 + data_bytes;
        if (frame.len() != frame_length) || (frame[2] as usize != data_bytes) {
            return None;
        }
        let address = frame[0];
        let values = match get_values_from_u8_array::<u32, 5>(&frame[3..(3 + data_bytes)]) {
            Some(values) => values,
            None => {
                return None;
            },
        };
        proof {
            assert forall|i: int| 0 <= i < 5 implies values[i] == long_at(frame@, 2 * i) by {
                lemma_u32_values_are_longs(frame@, 3, 3 + data_bytes as int, i);
            }
        }
        Some(
            Flowmeter {
                address,
                signal_strength: values[0],
                flow_rate: values[1],
                net_totalizer: values[2],
                positive_totalizer: values[3],
                negative_totalizer: values[4],
            },
        )
    }
}

/// A flowmeter response holds five 32-bit values, each big-endian in four
/// bytes (high register first), in this order: signal strength (bytes 3 to
/// 6), flow rate (7 to 10), net totalizer (11 to 14), positive totalizer (15
/// to 18) and negative totalizer (19 to 22).
pub proof fn lemma_flowmeter_response_fields(frame: Seq<u8>)
    requires
        is_register_response(frame, NUM_REGISTER_FLOWMETER as nat),
    ensures
        flowmeter_of_response(frame).address == frame[0],
        flowmeter_of_response(frame).signal_strength == frame[3] as int * 16777216 + frame[4] as int * 65536
            + frame[5] as int * 256 + frame[6] as int,
        flowmeter_of_response(frame).flow_rate == frame[7] as int * 16777216 + frame[8] as int * 65536
            + frame[9] as int * 256 + frame[10] as int,
        flowmeter_of_response(frame).net_totalizer == frame[11] as int * 16777216 + frame[12] as int * 65536
            + frame[13] as int * 256 + frame[14] as int,
        flowmeter_of_response(frame).positive_totalizer == frame[15] as int * 16777216 + frame[16] as int * 65536
            + frame[17] as int * 256 + frame[18] as int,
        flowmeter_of_response(frame).negative_totalizer == frame[19] as int * 16777216 + frame[20] as int * 65536
            + frame[21] as int * 256 + frame[22] as int,
{
    lemma_long_bytes(frame, 0);
    lemma_long_bytes(frame, 2);
    lemma_long_bytes(frame, 4);
    lemma_long_bytes(frame, 6);
    lemma_long_bytes(frame, 8);
}

} // verus!
