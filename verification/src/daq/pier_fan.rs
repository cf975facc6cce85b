use vstd::prelude::*;
use crate::constants::{
    NUM_REGISTER_PIER_FAN_ACTUAL_SPEED, NUM_REGISTER_PIER_FAN_REFERENCE_VALUE_OF_DC_LINK_VOLTAGE,
};
use crate::frame::{is_register_response, lemma_register_bytes, lemma_u16_values_are_registers, register_at};
use crate::utility::get_values_from_u8_array;

verus! {

/// Factor from the register value of the pier fan's reference DC-link
/// voltage to millivolts.
pub const FACTOR_PIER_FAN_DC_LINK_REFERENCE_VOLTAGE: u32 = 20;

/// Factor from the register value of the pier fan's reference DC-link
/// current to milliamperes.
pub const FACTOR_PIER_FAN_DC_LINK_REFERENCE_CURRENT: u32 = 2;

/// Operational values of a pier fan, as the fan's registers hold them.
///
/// The speeds, the DC-link values, the modulation level and the power are
/// fractions of reference values; the application scales them with the
/// fan's maximum speed and reference DC-link voltage and current.
#[derive(Debug, Clone, Copy, PartialEq, Eq, Structural)]
pub struct PierFan {
    /// Address of the pier fan.
    pub address: u8,
    /// Actual speed register: the speed as a fraction of
    /// `MAX_VALUE_PIER_FAN_ACTUAL_SPEED` of the maximum speed.
    pub actual_speed: u16,
    /// Motor status bits, see `MotorStatusPierFan`.
    pub motor_status: u16,
    /// Warning bits, see `WarningPierFan`.
    pub warning: u16,
    /// DC-link voltage register: the voltage as a fraction of
    /// `MAX_VALUE_PIER_FAN_DC_LINK_VOLTAGE_CURRENT` of the reference voltage.
    pub dc_link_voltage: u16,
    /// DC-link current register: the current as a fraction of
    /// `MAX_VALUE_PIER_FAN_DC_LINK_VOLTAGE_CURRENT` of the reference current.
    pub dc_link_current: u16,
    /// Module temperature in degrees Celsius.
    pub module_temperature: u16,
    /// Motor temperature in degrees Celsius (a signed register).
    pub motor_temperature: i16,
    /// Electronics temperature in degrees Celsius.
    pub electronics_temperature: u16,
    /// 0: anti-clockwise, 1: clockwise.
    pub current_direction_of_rotation: u16,
    /// Modulation level register: the level as a fraction of `u16::MAX` of
    /// 100 percent.
    pub current_modulation_level: u16,
    /// Set value register: the set speed as a fraction of
    /// `MAX_VALUE_PIER_FAN_ACTUAL_SPEED` of the maximum speed (closed-loop
    /// speed control; zero means standstill).
    pub current_set_value: u16,
    /// 0: enable off (motor stop), 1: enable on (motor start allowed).
    pub enable_input_status: u16,
    /// The parameter set in use. 0: parameter set 1, 1: parameter set 2.
    pub current_parameter_set: u16,
    /// 0: positive (set value - actual value), 1: negative (actual value -
    /// set value).
    pub current_controller_function: u16,
    /// Power register: the power as a fraction of `u16::MAX` of the product of
    /// the reference voltage and current.
    pub current_power: u16,
}

/// The pier fan that a well-formed response of its registers describes.
pub open spec fn pier_fan_of_response(frame: Seq<u8>) -> PierFan {
    PierFan {
        address: frame[0],
        actual_speed: register_at(frame, 0),
        motor_status: register_at(frame, 1),
        warning: register_at(frame, 2),
        dc_link_voltage: register_at(frame, 3),
        dc_link_current: register_at(frame, 4),
        module_temperature: register_at(frame, 5),
        motor_temperature: register_at(frame, 6) as i16,
        electronics_temperature: register_at(frame, 7),
        current_direction_of_rotation: register_at(frame, 8),
        current_modulation_level: register_at(frame, 9),
        current_set_value: register_at(frame, 10),
        enable_input_status: register_at(frame, 12),
        current_parameter_set: register_at(frame, 13),
        current_controller_function: register_at(frame, 14),
        current_power: register_at(frame, 17),
    }
}

impl PierFan {
    /// A pier fan with the given address and all operational values zero.
    pub fn new(address: u8) -> (pier_fan: PierFan)
        ensures
            pier_fan == (PierFan {
                address,
                actual_speed: 0,
                motor_status: 0,
                warning: 0,
                dc_link_voltage: 0,
                dc_link_current: 0,
                module_temperature: 0,
                motor_temperature: 0,
                electronics_temperature: 0,
                current_direction_of_rotation: 0,
                current_modulation_level: 0,
                current_set_value: 0,
                enable_input_status: 0,
                current_parameter_set: 0,
                current_controller_function: 0,
                current_power: 0,
            }),
    {
        PierFan {
            address,
            actual_speed: 0,
            motor_status: 0,
            warning: 0,
            dc_link_voltage: 0,
            dc_link_current: 0,
            module_temperature: 0,
            motor_temperature: 0,
            electronics_temperature: 0,
            current_direction_of_rotation: 0,
            current_modulation_level: 0,
            current_set_value: 0,
            enable_input_status: 0,
            current_parameter_set: 0,
            current_controller_function: 0,
            current_power: 0,
        }
    }

    /// Create a `PierFan` from a Modbus response to a read of the fan's
    /// actual-speed registers.
    ///
    /// Returns `None` when the frame's length or byte count does not match
    /// those registers. The checksum is not checked here.
    pub fn from_frame(frame: &[u8]) -> (pier_fan: Option<PierFan>)
        ensures
            pier_fan == (if is_register_response(frame@, NUM_REGISTER_PIER_FAN_ACTUAL_SPEED as nat) {
                Some(pier_fan_of_response(frame@))
            } else {
                None
            }),
    {
        let data_bytes: usize = 2 * (NUM_REGISTER_PIER_FAN_ACTUAL_SPEED as usize);
        let frame_length: usize = 5 + data_bytes;
        if (frame.len() != frame_length) || (frame[2] as usize != data_bytes) {
            return None;
        }
        let address = frame[0];
        let values = match get_values_from_u8_array::<u16, 18>(&frame[3..3 + data_bytes]) {
            Some(values) => values,
            None => {
                return None;
            },
        };
        proof {
            assert forall|i: int| 0 <= i < 18 implies values[i] == register_at(frame@, i) by {
                lemma_u16_values_are_registers(frame@, 3, 3 + data_bytes as int, i);
            }
        }
        Some(
            PierFan {
                address,
                actual_speed: values[0],
                motor_status: values[1],
                warning: values[2],
                dc_link_voltage: values[3],
                dc_link_current: values[4],
                module_temperature: values[5],
                motor_temperature: values[6] as i16,
                electronics_temperature: values[7],
                current_direction_of_rotation: values[8],
                current_modulation_level: values[9],
                current_set_value: values[10],
                enable_input_status: values[12],
                current_parameter_set: values[13],
                current_controller_function: values[14],
                current_power: values[17],
            },
        )
    }

    /// Read the maximum speed of the pier fan in rpm from a response to a
    /// read of its maximum-speed register.
    ///
    /// Returns `None` when the frame is not a response of one register.
    pub fn get_max_speed_from_frame(frame: &[u8]) -> (max_speed: Option<u16>)
        ensures
            max_speed == (if is_register_response(frame@, 1) {
                Some(register_at(frame@, 0))
            } else {
                None
            }),
    {
        if (frame.len() != 7) || (frame[2] != 2) {
            return None;
        }
        proof {
            lemma_u16_values_are_registers(frame@, 3, 5, 0);
        }
        match get_values_from_u8_array::<u16, 1>(&frame[3..5]) {
            Some(values) => Some(values[0]),
            None => None,
        }
    }

    /// Read the reference DC-link voltage in millivolts and the reference
    /// DC-link current in milliamperes of the pier fan from a response to a
    /// read of its two reference registers.
    ///
    /// Returns `None` when the frame is not a response of two registers.
    pub fn get_ref_dc_link_voltage_current_from_frame(frame: &[u8]) -> (reference: Option<(u32, u32)>)
        ensures
            reference == (if is_register_response(
                frame@,
                NUM_REGISTER_PIER_FAN_REFERENCE_VALUE_OF_DC_LINK_VOLTAGE as nat,
            ) {
                Some(
                    (
                        (register_at(frame@, 0) * FACTOR_PIER_FAN_DC_LINK_REFERENCE_VOLTAGE) as u32,
                        (register_at(frame@, 1) * FACTOR_PIER_FAN_DC_LINK_REFERENCE_CURRENT) as u32,
                    ),
                )
            } else {
                None
            }),
    {
        if (frame.len() != 9) || (frame[2] != 4) {
            return None;
        }
        proof {
            lemma_u16_values_are_registers(frame@, 3, 7, 0);
            lemma_u16_values_are_registers(frame@, 3, 7, 1);
        }
        match get_values_from_u8_array::<u16, 2>(&frame[3..7]) {
            Some(values) => Some(
                (
                    (values[0] as u32) * FACTOR_PIER_FAN_DC_LINK_REFERENCE_VOLTAGE,
                    (values[1] as u32) * FACTOR_PIER_FAN_DC_LINK_REFERENCE_CURRENT,
                ),
            ),
            None => None,
        }
    }
}

/// A pier fan response is read register by register, each register
/// big-endian in the two bytes from `3 + 2 * n` for register `n`: actual
/// speed (0), motor status (1), warning (2), DC-link voltage (3) and current
/// (4), module (5), motor (6, signed) and electronics (7) temperatures,
/// direction of rotation (8), modulation level (9), set value (10), enable
/// input (12), parameter set (13), controller function (14) and power (17).
pub proof fn lemma_pier_fan_response_fields(frame: Seq<u8>)
    requires
        is_register_response(frame, NUM_REGISTER_PIER_FAN_ACTUAL_SPEED as nat),
    ensures
        pier_fan_of_response(frame).address == frame[0],
        pier_fan_of_response(frame).actual_speed == frame[3] as int * 256 + frame[4] as int,
        pier_fan_of_response(frame).motor_status == frame[5] as int * 256 + frame[6] as int,
        pier_fan_of_response(frame).warning == frame[7] as int * 256 + frame[8] as int,
        pier_fan_of_response(frame).dc_link_voltage == frame[9] as int * 256 + frame[10] as int,
        pier_fan_of_response(frame).dc_link_current == frame[11] as int * 256 + frame[12] as int,
        pier_fan_of_response(frame).module_temperature == frame[13] as int * 256 + frame[14] as int,
        pier_fan_of_response(frame).electronics_temperature == frame[17] as int * 256 + frame[18] as int,
        pier_fan_of_response(frame).current_direction_of_rotation == frame[19] as int * 256 + frame[20] as int,
        pier_fan_of_response(frame).current_modulation_level == frame[21] as int * 256 + frame[22] as int,
        pier_fan_of_response(frame).current_set_value == frame[23] as int * 256 + frame[24] as int,
        pier_fan_of_response(frame).enable_input_status == frame[27] as int * 256 + frame[28] as int,
        pier_fan_of_response(frame).current_parameter_set == frame[29] as int * 256 + frame[30] as int,
        pier_fan_of_response(frame).current_controller_function == frame[31] as int * 256 + frame[32] as int,
        pier_fan_of_response(frame).current_power == frame[37] as int * 256 + frame[38] as int,
        pier_fan_of_response(frame).motor_temperature as int == frame[15] as int * 256 + frame[16] as int
            - (if frame[15] >= 128 { 65536int } else { 0int }),
{
    lemma_register_bytes(frame, 0);
    lemma_register_bytes(frame, 1);
    lemma_register_bytes(frame, 2);
    lemma_register_bytes(frame, 3);
    lemma_register_bytes(frame, 4);
    lemma_register_bytes(frame, 5);
    lemma_register_bytes(frame, 7);
    lemma_register_bytes(frame, 8);
    lemma_register_bytes(frame, 9);
    lemma_register_bytes(frame, 10);
    lemma_register_bytes(frame, 12);
    lemma_register_bytes(frame, 13);
    lemma_register_bytes(frame, 14);
    lemma_register_bytes(frame, 17);
    lemma_register_bytes(frame, 6);
    let r = register_at(frame, 6);
    assert((r as i16) as int == r as int - (if r >= 32768 { 65536int } else { 0int })) by (bit_vector);
}

} // verus!
