use vstd::prelude::*;
use crate::constants::NUM_REGISTER_CHILLER;
use crate::frame::{is_register_response, lemma_register_bytes, lemma_u16_values_are_registers, register_at};
use crate::utility::get_values_from_u8_array;

verus! {

/// Measured temperatures and status values of a chiller.
#[derive(Debug, Clone, Copy, PartialEq, Eq, Structural)]
pub struct Chiller {
    /// Address of the chiller.
    pub address: u8,
    /// Temperature setpoint (0-250). The unit is degrees Fahrenheit.
    pub temperature_setpoint: u16,
    /// Temperature high alarm (0-50, deviation value). The unit is degrees
    /// Fahrenheit.
    pub temperature_high_alarm: u16,
    /// Temperature low alarm (0-50, deviation value). The unit is degrees
    /// Fahrenheit.
    pub temperature_low_alarm: u16,
    /// To process temperature (0-255). The unit is degrees Fahrenheit.
    pub to_process_temperature: u16,
    /// From process temperature (0-255). The unit is degrees Fahrenheit.
    pub from_process_temperature: u16,
    /// Process status bits.
    pub process_status: u16,
    /// Machine status 1 bits.
    pub machine_status_1: u16,
    /// Machine status 2 bits.
    pub machine_status_2: u16,
    /// Machine status 3 bits.
    pub machine_status_3: u16,
    /// Heartbeat bits.
    pub heartbeat: u16,
    /// Zone 1 temperature (evaporator inlet). The unit is degrees Fahrenheit.
    pub zone_1_temperature_evaporator_in: u8,
    /// Zone 1 temperature (evaporator outlet). The unit is degrees Fahrenheit.
    pub zone_1_temperature_evaporator_out: u8,
    /// Zone 2 temperature (evaporator inlet). The unit is degrees Fahrenheit.
    pub zone_2_temperature_evaporator_in: u8,
    /// Zone 2 temperature (evaporator outlet). The unit is degrees Fahrenheit.
    pub zone_2_temperature_evaporator_out: u8,
    /// Zone 1 status bits.
    pub zone_1_status: u16,
    /// Zone 2 status bits.
    pub zone_2_status: u16,
}

/// The chiller that a well-formed response of the chiller's registers
/// describes.
pub open spec fn chiller_of_response(frame: Seq<u8>) -> Chiller {
    Chiller {
        address: frame[0],
        temperature_setpoint: register_at(frame, 0),
        temperature_high_alarm: register_at(frame, 2),
        temperature_low_alarm: register_at(frame, 3),
        to_process_temperature: register_at(frame, 5),
        from_process_temperature: register_at(frame, 6),
        process_status: register_at(frame, 8),
        machine_status_1: register_at(frame, 9),
        machine_status_2: register_at(frame, 10),
        machine_status_3: register_at(frame, 11),
        heartbeat: register_at(frame, 14),
        zone_1_temperature_evaporator_in: frame[35],
        zone_1_temperature_evaporator_out: frame[36],
        zone_2_temperature_evaporator_in: frame[37],
        zone_2_temperature_evaporator_out: frame[38],
        zone_1_status: register_at(frame, 22),
        zone_2_status: register_at(frame, 23),
    }
}

impl Chiller {
    /// The chiller with the given address and all measured values zero.
    pub open spec fn spec_new(address: u8) -> Chiller {
        Chiller {
            address,
            temperature_setpoint: 0,
            temperature_high_alarm: 0,
            temperature_low_alarm: 0,
            to_process_temperature: 0,
            from_process_temperature: 0,
            process_status: 0,
            machine_status_1: 0,
            machine_status_2: 0,
            machine_status_3: 0,
            heartbeat: 0,
            zone_1_temperature_evaporator_in: 0,
            zone_1_temperature_evaporator_out: 0,
            zone_2_temperature_evaporator_in: 0,
            zone_2_temperature_evaporator_out: 0,
            zone_1_status: 0,
            zone_2_status: 0,
        }
    }

    /// A chiller with the given address and all measured values zero.
    pub fn new(address: u8) -> (chiller: Chiller)
        ensures
            chiller == Chiller::spec_new(address),
    {
        Chiller {
            address,
            temperature_setpoint: 0,
            temperature_high_alarm: 0,
            temperature_low_alarm: 0,
            to_process_temperature: 0,
            from_process_temperature: 0,
            process_status: 0,
            machine_status_1: 0,
            machine_status_2: 0,
            machine_status_3: 0,
            heartbeat: 0,
            zone_1_temperature_evaporator_in: 0,
            zone_1_temperature_evaporator_out: 0,
            zone_2_temperature_evaporator_in: 0,
            zone_2_temperature_evaporator_out: 0,
            zone_1_status: 0,
            zone_2_status: 0,
        }
    }

    /// Create a `Chiller` from a Modbus response to a read of the chiller's
    /// registers.
    ///
    /// Returns `None` when the frame's length or byte count does not match
    /// the chiller's registers. The checksum is not checked here.
    pub fn from_frame(frame: &[u8]) -> (chiller: Option<Chiller>)
        ensures
            chiller == (if is_register_response(frame@, NUM_REGISTER_CHILLER as nat) {
                Some(chiller_of_response(frame@))
            } else {
                None
            }),
    {
        let data_bytes: usize = 2 * (NUM_REGISTER_CHILLER as usize);
        let frame_length: usize = 5 + data_bytes;
        if (frame.len() != frame_length) || (frame[2] as usize != data_bytes) {
            return None;
        }
        let address = frame[0];
        let values = match get_values_from_u8_array::<u16, 24>(&frame[3..(3 + data_bytes)]) {
            Some(values) => values,
            None => {
                return None;
            },
        };
        proof {
            assert forall|i: int| 0 <= i < 24 implies values[i] == register_at(frame@, i) by {
                lemma_u16_values_are_registers(frame@, 3, 3 + data_bytes as int, i);
            }
        }
        let (temperature_in_1, temperature_out_1) = Self::get_evaporator_temperatures(values[16]);
        let (temperature_in_2, temperature_out_2) = Self::get_evaporator_temperatures(values[17]);
        let chiller = Chiller {
            address,
            temperature_setpoint: values[0],
            temperature_high_alarm: values[2],
            temperature_low_alarm: values[3],
            to_process_temperature: values[5],
            from_process_temperature: values[6],
            process_status: values[8],
            machine_status_1: values[9],
            machine_status_2: values[10],
            machine_status_3: values[11],
            heartbeat: values[14],
            zone_1_temperature_evaporator_in: temperature_in_1,
            zone_1_temperature_evaporator_out: temperature_out_1,
            zone_2_temperature_evaporator_in: temperature_in_2,
            zone_2_temperature_evaporator_out: temperature_out_2,
            zone_1_status: values[22],
            zone_2_status: values[23],
        };
        Some(chiller)
    }

    /// Split the combined register of the evaporator temperatures into the
    /// inlet temperature (high byte) and the outlet temperature (low byte).
    pub fn get_evaporator_temperatures(temperatures: u16) -> (split: (u8, u8))
        ensures
            split.0 == temperatures / 256,
            split.1 == temperatures % 256,
    {
        let evaporator_in = (temperatures >> 8) as u8;
        let evaporator_out = (temperatures & 0xFF) as u8;
        assert((temperatures >> 8) == temperatures / 256) by (bit_vector);
        assert((temperatures & 0xFF) == temperatures % 256) by (bit_vector);
        (evaporator_in, evaporator_out)
    }
}

/// A chiller response is read register by register, each register
/// big-endian in the two bytes from `3 + 2 * n` for register `n`: the
/// setpoint is register 0, the high and low alarms registers 2 and 3, the
/// to-process and from-process temperatures registers 5 and 6, the process
/// and machine status words registers 8 to 11, the heartbeat register 14,
/// the evaporator temperatures of zones 1 and 2 the high (inlet) and low
/// (outlet) bytes of registers 16 and 17, and the zone status words
/// registers 22 and 23.
pub proof fn lemma_chiller_response_fields(frame: Seq<u8>)
    requires
        is_register_response(frame, NUM_REGISTER_CHILLER as nat),
    ensures
        chiller_of_response(frame).address == frame[0],
        chiller_of_response(frame).temperature_setpoint == frame[3] as int * 256 + frame[4] as int,
        chiller_of_response(frame).temperature_high_alarm == frame[7] as int * 256 + frame[8] as int,
        chiller_of_response(frame).temperature_low_alarm == frame[9] as int * 256 + frame[10] as int,
        chiller_of_response(frame).to_process_temperature == frame[13] as int * 256 + frame[14] as int,
        chiller_of_response(frame).from_process_temperature == frame[15] as int * 256 + frame[16] as int,
        chiller_of_response(frame).process_status == frame[19] as int * 256 + frame[20] as int,
        chiller_of_response(frame).machine_status_1 == frame[21] as int * 256 + frame[22] as int,
        chiller_of_response(frame).machine_status_2 == frame[23] as int * 256 + frame[24] as int,
        chiller_of_response(frame).machine_status_3 == frame[25] as int * 256 + frame[26] as int,
        chiller_of_response(frame).heartbeat == frame[31] as int * 256 + frame[32] as int,
        chiller_of_response(frame).zone_1_status == frame[47] as int * 256 + frame[48] as int,
        chiller_of_response(frame).zone_2_status == frame[49] as int * 256 + frame[50] as int,
        chiller_of_response(frame).zone_1_temperature_evaporator_in == frame[35],
        chiller_of_response(frame).zone_1_temperature_evaporator_out == frame[36],
        chiller_of_response(frame).zone_2_temperature_evaporator_in == frame[37],
        chiller_of_response(frame).zone_2_temperature_evaporator_out == frame[38],
{
    lemma_register_bytes(frame, 0);
    lemma_register_bytes(frame, 2);
    lemma_register_bytes(frame, 3);
    lemma_register_bytes(frame, 5);
    lemma_register_bytes(frame, 6);
    lemma_register_bytes(frame, 8);
    lemma_register_bytes(frame, 9);
    lemma_register_bytes(frame, 10);
    lemma_register_bytes(frame, 11);
    lemma_register_bytes(frame, 14);
    lemma_register_bytes(frame, 22);
    lemma_register_bytes(frame, 23);
}

} // verus!
