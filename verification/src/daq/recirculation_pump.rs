use vstd::prelude::*;
use crate::constants::{
    NUM_REGISTER_RECIRCULATION_PUMP_CIM_CONFIGURATION, NUM_REGISTER_RECIRCULATION_PUMP_CONTROL,
    NUM_REGISTER_RECIRCULATION_PUMP_DATA, NUM_REGISTER_RECIRCULATION_PUMP_STATUS,
};
use crate::enums::{
    AlarmWarningRecirculationPump, ControlModeRecirculationPump, OperationModeRecirculationPump,
};
use crate::frame::{
    is_register_response, lemma_long_bytes, lemma_register_bytes, lemma_u16_values_are_registers,
    lemma_u32_values_are_longs, long_at, register_at,
};
use crate::text::{nibbles_text, push_nibbles};
use crate::utility::get_values_from_u8_array;

verus! {

/// Configuration of the recirculation pump's communication interface
/// module (CIM).
#[derive(Debug, PartialEq)]
pub struct RecirculationPumpCimConfiguration {
    /// The minimum reply delay from the slave in ms (0-10000).
    pub slave_minimum_reply_delay: u16,
    /// Modbus address used when the address switch is outside 1 to 247.
    pub software_defined_modbus_address: u16,
    /// Software-defined transmission speed. 0: 1200, 1: 2400, 2: 4800,
    /// 3: 9600, 4: 19200, 5: 38400 bit/s.
    pub software_defined_bit_rate: u16,
    /// Whether control bits are lowered automatically when accepted.
    /// 0: disabled, 1: enabled (default).
    pub auto_ack_control_bits: u16,
    /// Software-defined parity. 0: none (default), 1: even, 2: odd.
    pub software_defined_parity: u16,
    /// Software-defined stop bits. 0: none, 1: one (default), 2: two.
    pub software_defined_stop_bit: u16,
    /// Fieldbus communication watchdog. 0: disabled (default), 1: enabled
    /// with a timeout of 5 s.
    pub watchdog: u16,
    /// 0: GENIbus diode LED2 has normal function, 1: LED2 is off.
    pub genibus_diode_off: u16,
    /// CRC error counter of the GENIbus connection.
    pub genibus_crc_error_cnt: u16,
    /// Data error counter of the GENIbus connection.
    pub genibus_data_error_cnt: u16,
    /// Grundfos-specific version number.
    pub version_number: u16,
    /// Current Modbus slave address of the device (1-247).
    pub actual_modbus_address: u16,
    /// Telegrams sent to the booster system on the GENIbus connection.
    pub genibus_tx_count: u32,
    /// Telegrams received from the booster system on the GENIbus connection.
    pub genibus_rx_count: u32,
    /// Grundfos product family.
    pub unit_family: u16,
    /// Grundfos product type.
    pub unit_type: u16,
    /// Grundfos product version.
    pub unit_version: u16,
    /// Product software version (aa.bb.cc.dd).
    pub product_software_version: String,
    /// Product software date (dd/mm/yyyy).
    pub product_software_date: String,
}

/// Control registers of the recirculation pump.
#[derive(Debug, Clone, Copy, PartialEq, Eq, Structural)]
pub struct RecirculationPumpControl {
    /// Control bits, see `ControlStatusRecirculationPump`.
    pub status: u16,
    /// The control mode.
    pub control_mode: ControlModeRecirculationPump,
    /// The operating mode. `OnOffReq` must be on for it to have any effect.
    pub operation_mode: OperationModeRecirculationPump,
    /// Setpoint of the booster in hundredths of a percent.
    pub setpoint: u16,
    /// Forced control of pump 1. 0: auto-control, 2: forced stop.
    pub control_pump_1: u16,
}

/// Status registers of the recirculation pump.
#[derive(Debug, Clone, Copy, PartialEq, Eq, Structural)]
pub struct RecirculationPumpStatus {
    /// Status bits, see `StatusRecirculationPump`.
    pub status: u16,
    /// Actual process feedback in hundredths of a percent.
    pub process_feedback: u16,
    /// The actual control mode.
    pub control_mode: ControlModeRecirculationPump,
    /// The actual operating mode.
    pub operation_mode: OperationModeRecirculationPump,
    /// The Grundfos-specific alarm code.
    pub alarm_code: AlarmWarningRecirculationPump,
    /// The Grundfos-specific warning code.
    pub warning_code: AlarmWarningRecirculationPump,
    /// Pumps present, one bit per `PumpIdRecirculationPump`.
    pub pumps_present: u8,
    /// Pumps running, one bit per `PumpIdRecirculationPump`.
    pub pumps_running: u8,
    /// Pumps with an alarm, one bit per `PumpIdRecirculationPump`.
    pub pumps_fault: u8,
    /// Pumps without communication, one bit per `PumpIdRecirculationPump`.
    pub pumps_comm_fault: u8,
    /// Active system functions, see `SystemActiveFunctionRecirculationPump`.
    pub system_active_functions: u16,
}

/// Measured data of the recirculation pump.
#[derive(Debug, Clone, Copy, PartialEq, Eq, Structural)]
pub struct RecirculationPumpData {
    /// Performance relative to maximum performance in hundredths of a
    /// percent.
    pub relative_performance: u16,
    /// Actual setpoint in hundredths of a percent.
    pub actual_setpoint: u16,
    /// Actual motor current in tenths of an ampere.
    pub motor_current: u16,
    /// Total power consumption of the system in watts.
    pub power: u32,
    /// Total operating time of the system in hours.
    pub operation_time: u32,
    /// Total energy consumption of the system in kWh.
    pub energy: u32,
    /// Setpoint before modifications in hundredths of a percent.
    pub user_setpoint: u16,
}

/// A recirculation pump with the parts of its registers that were read.
#[derive(Debug, PartialEq)]
pub struct RecirculationPump {
    /// Address of the recirculation pump.
    pub address: u8,
    /// CIM configuration.
    pub cim_configuration: Option<RecirculationPumpCimConfiguration>,
    /// Control configuration.
    pub control: Option<RecirculationPumpControl>,
    /// Status information.
    pub status: Option<RecirculationPumpStatus>,
    /// Data measurements.
    pub data: Option<RecirculationPumpData>,
}

/// The product software version text of a CIM configuration response:
/// the BCD digits of bytes 69 to 72 as "aa.bb.cc.dd".
pub open spec fn software_version_text(frame: Seq<u8>) -> Seq<char> {
    nibbles_text(frame[69]) + seq!['.'] + nibbles_text(frame[70]) + seq!['.'] + nibbles_text(
        frame[71],
    ) + seq!['.'] + nibbles_text(frame[72])
}

/// The product software date text of a CIM configuration response: the BCD
/// digits of bytes 73 to 76 as "dd/mm/yyyy".
pub open spec fn software_date_text(frame: Seq<u8>) -> Seq<char> {
    nibbles_text(frame[73]) + seq!['/'] + nibbles_text(frame[74]) + seq!['/'] + nibbles_text(
        frame[75],
    ) + nibbles_text(frame[76])
}

/// Whether `configuration` is the CIM configuration that a well-formed
/// response of the CIM registers describes.
pub open spec fn is_cim_configuration_of_response(
    configuration: RecirculationPumpCimConfiguration,
    frame: Seq<u8>,
) -> bool {
    &&& configuration.slave_minimum_reply_delay == register_at(frame, 0)
    &&& configuration.software_defined_modbus_address == register_at(frame, 2)
    &&& configuration.software_defined_bit_rate == register_at(frame, 3)
    &&& configuration.auto_ack_control_bits == register_at(frame, 4)
    &&& configuration.software_defined_parity == register_at(frame, 8)
    &&& configuration.software_defined_stop_bit == register_at(frame, 9)
    &&& configuration.watchdog == register_at(frame, 11)
    &&& configuration.genibus_diode_off == register_at(frame, 12)
    &&& configuration.genibus_crc_error_cnt == register_at(frame, 20)
    &&& configuration.genibus_data_error_cnt == register_at(frame, 21)
    &&& configuration.version_number == register_at(frame, 22)
    &&& configuration.actual_modbus_address == register_at(frame, 23)
    &&& configuration.unit_family == register_at(frame, 29)
    &&& configuration.unit_type == register_at(frame, 30)
    &&& configuration.unit_version == register_at(frame, 31)
    &&& configuration.genibus_tx_count == long_at(frame, 24)
    &&& configuration.genibus_rx_count == long_at(frame, 26)
    &&& configuration.product_software_version@ == software_version_text(frame)
    &&& configuration.product_software_date@ == software_date_text(frame)
}

/// The control registers that a well-formed response describes, or `None`
/// when a mode code names no mode.
pub open spec fn control_of_response(frame: Seq<u8>) -> Option<RecirculationPumpControl> {
    let control_mode = ControlModeRecirculationPump::spec_from_repr(register_at(frame, 1) as u8);
    let operation_mode = OperationModeRecirculationPump::spec_from_repr(
        register_at(frame, 2) as u8,
    );
    if control_mode is Some && operation_mode is Some {
        Some(
            RecirculationPumpControl {
                status: register_at(frame, 0),
                control_mode: control_mode.unwrap(),
                operation_mode: operation_mode.unwrap(),
                setpoint: register_at(frame, 3),
                control_pump_1: register_at(frame, 4),
            },
        )
    } else {
        None
    }
}

/// The status registers that a well-formed response describes, or `None`
/// when a mode, alarm or warning code names nothing.
pub open spec fn status_of_response(frame: Seq<u8>) -> Option<RecirculationPumpStatus> {
    let control_mode = ControlModeRecirculationPump::spec_from_repr(register_at(frame, 2) as u8);
    let operation_mode = OperationModeRecirculationPump::spec_from_repr(
        register_at(frame, 3) as u8,
    );
    let alarm_code = AlarmWarningRecirculationPump::spec_from_repr(register_at(frame, 4) as u8);
    let warning_code = AlarmWarningRecirculationPump::spec_from_repr(register_at(frame, 5) as u8);
    if control_mode is Some && operation_mode is Some && alarm_code is Some && warning_code is Some {
        Some(
            RecirculationPumpStatus {
                status: register_at(frame, 0),
                process_feedback: register_at(frame, 1),
                control_mode: control_mode.unwrap(),
                operation_mode: operation_mode.unwrap(),
                alarm_code: alarm_code.unwrap(),
                warning_code: warning_code.unwrap(),
                pumps_present: register_at(frame, 7) as u8,
                pumps_running: register_at(frame, 8) as u8,
                pumps_fault: register_at(frame, 9) as u8,
                pumps_comm_fault: register_at(frame, 10) as u8,
                system_active_functions: register_at(frame, 11),
            },
        )
    } else {
        None
    }
}

/// The data registers that a well-formed response describes. The register
/// with number `n` starts at byte `3 + 2 * (n - 301)`.
pub open spec fn data_of_response(frame: Seq<u8>) -> RecirculationPumpData {
    RecirculationPumpData {
        relative_performance: register_at(frame, 2),
        actual_setpoint: register_at(frame, 7),
        motor_current: register_at(frame, 8),
        power: long_at(frame, 11),
        operation_time: long_at(frame, 26),
        energy: long_at(frame, 31),
        user_setpoint: register_at(frame, 42),
    }
}

/// The address that a pump's CIM configuration gives: its actual Modbus
/// address, or 0 when the configuration could not be read.
pub open spec fn address_of_configuration(
    configuration: Option<RecirculationPumpCimConfiguration>,
) -> u8 {
    match configuration {
        Some(configuration) => configuration.actual_modbus_address as u8,
        None => 0,
    }
}

/// Whether `pump` is the recirculation pump that the responses of its four
/// register blocks describe: a part is `None` exactly when its response is
/// malformed (or names an unknown code), and the address is the CIM
/// configuration's actual Modbus address, or 0.
pub open spec fn is_pump_of_responses(
    pump: RecirculationPump,
    frame_cim_configuration: Seq<u8>,
    frame_control: Seq<u8>,
    frame_status: Seq<u8>,
    frame_data: Seq<u8>,
) -> bool {
    &&& pump.cim_configuration is Some <==> is_register_response(
        frame_cim_configuration,
        NUM_REGISTER_RECIRCULATION_PUMP_CIM_CONFIGURATION as nat,
    )
    &&& pump.cim_configuration matches Some(configuration) ==> is_cim_configuration_of_response(
        configuration,
        frame_cim_configuration,
    )
    &&& pump.address == address_of_configuration(pump.cim_configuration)
    &&& pump.control == (if is_register_response(
        frame_control,
        NUM_REGISTER_RECIRCULATION_PUMP_CONTROL as nat,
    ) {
        control_of_response(frame_control)
    } else {
        None
    })
    &&& pump.status == (if is_register_response(
        frame_status,
        NUM_REGISTER_RECIRCULATION_PUMP_STATUS as nat,
    ) {
        status_of_response(frame_status)
    } else {
        None
    })
    &&& pump.data == (if is_register_response(frame_data, NUM_REGISTER_RECIRCULATION_PUMP_DATA as nat) {
        Some(data_of_response(frame_data))
    } else {
        None
    })
}

impl RecirculationPump {
    /// A recirculation pump with the given address and no part read.
    pub fn new(address: u8) -> (pump: RecirculationPump)
        ensures
            pump.address == address,
            pump.cim_configuration is None,
            pump.control is None,
            pump.status is None,
            pump.data is None,
    {
        RecirculationPump { address, cim_configuration: None, control: None, status: None, data: None }
    }

    /// Create a `RecirculationPump` from the Modbus responses of its four
    /// register blocks. A part whose response is malformed is `None`; the
    /// address is the CIM configuration's actual Modbus address, or 0.
    pub fn from_frame(
        frame_cim_configuration: &[u8],
        frame_control: &[u8],
        frame_status: &[u8],
        frame_data: &[u8],
    ) -> (pump: RecirculationPump)
        ensures
            is_pump_of_responses(
                pump,
                frame_cim_configuration@,
                frame_control@,
                frame_status@,
                frame_data@,
            ),
    {
        let cim_configuration = Self::from_frame_cim_configuration(frame_cim_configuration);
        let address = match &cim_configuration {
            Some(configuration) => configuration.actual_modbus_address as u8,
            None => 0,
        };
        RecirculationPump {
            address,
            cim_configuration,
            control: Self::from_frame_control(frame_control),
            status: Self::from_frame_status(frame_status),
            data: Self::from_frame_data(frame_data),
        }
    }

    /// Create a `RecirculationPumpCimConfiguration` from a Modbus response
    /// to a read of the CIM configuration registers, or `None` when the
    /// frame's length or byte count does not match those registers.
    pub fn from_frame_cim_configuration(frame: &[u8]) -> (configuration: Option<
        RecirculationPumpCimConfiguration,
    >)
        ensures
            configuration is Some <==> is_register_response(
                frame@,
                NUM_REGISTER_RECIRCULATION_PUMP_CIM_CONFIGURATION as nat,
            ),
            configuration matches Some(configuration) ==> is_cim_configuration_of_response(
                configuration,
                frame@,
            ),
    {
        let data_bytes: usize = 2 * (NUM_REGISTER_RECIRCULATION_PUMP_CIM_CONFIGURATION as usize);
        let frame_length: usize = 5 + data_bytes;
        if (frame.len() != frame_length) || (frame[2] as usize != data_bytes) {
            return None;
        }
        let group_1 = match get_values_from_u8_array::<u16, 13>(&frame[3..29]) {
            Some(values) => values,
            None => {
                return None;
            },
        };
        let group_2 = match get_values_from_u8_array::<u16, 4>(&frame[43..51]) {
            Some(values) => values,
            None => {
                return None;
            },
        };
        let group_3 = match get_values_from_u8_array::<u32, 2>(&frame[51..59]) {
            Some(values) => values,
            None => {
                return None;
            },
        };
        let group_4 = match get_values_from_u8_array::<u16, 3>(&frame[61..67]) {
            Some(values) => values,
            None => {
                return None;
            },
        };
        proof {
            assert forall|i: int| 0 <= i < 13 implies group_1[i] == register_at(frame@, i) by {
                lemma_u16_values_are_registers(frame@, 3, 29, i);
            }
            assert forall|i: int| 0 <= i < 4 implies group_2[i] == register_at(frame@, 20 + i) by {
                lemma_u16_values_are_registers(frame@, 43, 51, i);
            }
            assert forall|i: int| 0 <= i < 2 implies group_3[i] == long_at(frame@, 24 + 2 * i) by {
                lemma_u32_values_are_longs(frame@, 51, 59, i);
            }
            assert forall|i: int| 0 <= i < 3 implies group_4[i] == register_at(frame@, 29 + i) by {
                lemma_u16_values_are_registers(frame@, 61, 67, i);
            }
        }
        let mut product_software_version = String::new();
        push_nibbles(&mut product_software_version, frame[69]);
        proof {
            reveal_strlit(".");
            reveal_strlit("/");
        }
        product_software_version.append(".");
        push_nibbles(&mut product_software_version, frame[70]);
        product_software_version.append(".");
        push_nibbles(&mut product_software_version, frame[71]);
        product_software_version.append(".");
        push_nibbles(&mut product_software_version, frame[72]);
        let mut product_software_date = String::new();
        push_nibbles(&mut product_software_date, frame[73]);
        product_software_date.append("/");
        push_nibbles(&mut product_software_date, frame[74]);
        product_software_date.append("/");
        push_nibbles(&mut product_software_date, frame[75]);
        push_nibbles(&mut product_software_date, frame[76]);
        assert(product_software_version@ =~= software_version_text(frame@));
        assert(product_software_date@ =~= software_date_text(frame@));
        Some(
            RecirculationPumpCimConfiguration {
                slave_minimum_reply_delay: group_1[0],
                software_defined_modbus_address: group_1[2],
                software_defined_bit_rate: group_1[3],
                auto_ack_control_bits: group_1[4],
                software_defined_parity: group_1[8],
                software_defined_stop_bit: group_1[9],
                watchdog: group_1[11],
                genibus_diode_off: group_1[12],
                genibus_crc_error_cnt: group_2[0],
                genibus_data_error_cnt: group_2[1],
                version_number: group_2[2],
                actual_modbus_address: group_2[3],
                genibus_tx_count: group_3[0],
                genibus_rx_count: group_3[1],
                unit_family: group_4[0],
                unit_type: group_4[1],
                unit_version: group_4[2],
                product_software_version,
                product_software_date,
            },
        )
    }

    /// Create a `RecirculationPumpControl` from a Modbus response to a read
    /// of the control registers, or `None` when the frame's length or byte
    /// count does not match those registers or a mode code names no mode.
    pub fn from_frame_control(frame: &[u8]) -> (control: Option<RecirculationPumpControl>)
        ensures
            control == (if is_register_response(
                frame@,
                NUM_REGISTER_RECIRCULATION_PUMP_CONTROL as nat,
            ) {
                control_of_response(frame@)
            } else {
                None
            }),
    {
        let data_bytes: usize = 2 * (NUM_REGISTER_RECIRCULATION_PUMP_CONTROL as usize);
        let frame_length: usize = 5 + data_bytes;
        if (frame.len() != frame_length) || (frame[2] as usize != data_bytes) {
            return None;
        }
        let values = match get_values_from_u8_array::<u16, 5>(&frame[3..(3 + data_bytes)]) {
            Some(values) => values,
            None => {
                return None;
            },
        };
        proof {
            assert forall|i: int| 0 <= i < 5 implies values[i] == register_at(frame@, i) by {
                lemma_u16_values_are_registers(frame@, 3, 3 + data_bytes as int, i);
            }
        }
        let control_mode = match ControlModeRecirculationPump::from_repr(values[1] as u8) {
            Some(mode) => mode,
            None => {
                return None;
            },
        };
        let operation_mode = match OperationModeRecirculationPump::from_repr(values[2] as u8) {
            Some(mode) => mode,
            None => {
                return None;
            },
        };
        Some(
            RecirculationPumpControl {
                status: values[0],
                control_mode,
                operation_mode,
                setpoint: values[3],
                control_pump_1: values[4],
            },
        )
    }

    /// Create a `RecirculationPumpStatus` from a Modbus response to a read
    /// of the status registers, or `None` when the frame's length or byte
    /// count does not match those registers or a code names nothing.
    pub fn from_frame_status(frame: &[u8]) -> (status: Option<RecirculationPumpStatus>)
        ensures
            status == (if is_register_response(
                frame@,
                NUM_REGISTER_RECIRCULATION_PUMP_STATUS as nat,
            ) {
                status_of_response(frame@)
            } else {
                None
            }),
    {
        let data_bytes: usize = 2 * (NUM_REGISTER_RECIRCULATION_PUMP_STATUS as usize);
        let frame_length: usize = 5 + data_bytes;
        if (frame.len() != frame_length) || (frame[2] as usize != data_bytes) {
            return None;
        }
        let values = match get_values_from_u8_array::<u16, 12>(&frame[3..(3 + data_bytes)]) {
            Some(values) => values,
            None => {
                return None;
            },
        };
        proof {
            assert forall|i: int| 0 <= i < 12 implies values[i] == register_at(frame@, i) by {
                lemma_u16_values_are_registers(frame@, 3, 3 + data_bytes as int, i);
            }
        }
        let control_mode = match ControlModeRecirculationPump::from_repr(values[2] as u8) {
            Some(mode) => mode,
            None => {
                return None;
            },
        };
        let operation_mode = match OperationModeRecirculationPump::from_repr(values[3] as u8) {
            Some(mode) => mode,
            None => {
                return None;
            },
        };
        let alarm_code = match AlarmWarningRecirculationPump::from_repr(values[4] as u8) {
            Some(code) => code,
            None => {
                return None;
            },
        };
        let warning_code = match AlarmWarningRecirculationPump::from_repr(values[5] as u8) {
            Some(code) => code,
            None => {
                return None;
            },
        };
        Some(
            RecirculationPumpStatus {
                status: values[0],
                process_feedback: values[1],
                control_mode,
                operation_mode,
                alarm_code,
                warning_code,
                pumps_present: values[7] as u8,
                pumps_running: values[8] as u8,
                pumps_fault: values[9] as u8,
                pumps_comm_fault: values[10] as u8,
                system_active_functions: values[11],
            },
        )
    }

    /// The 16-bit big-endian register at `frame[start..start + 2]`.
    fn register_from_frame(frame: &[u8], start: usize) -> (value: u16)
        requires
            start % 2 == 1,
            start + 2 <= frame@.len(),
        ensures
            value == register_at(frame@, (start - 3) / 2),
    {
        proof {
            lemma_u16_values_are_registers(frame@, start as int, start + 2, 0);
        }
        let _length = frame.len();
        match get_values_from_u8_array::<u16, 1>(&frame[start..start + 2]) {
            Some(values) => values[0],
            None => 0,
        }
    }

    /// The 32-bit big-endian value of the two registers at
    /// `frame[start..start + 4]`.
    fn long_from_frame(frame: &[u8], start: usize) -> (value: u32)
        requires
            start % 2 == 1,
            start + 4 <= frame@.len(),
        ensures
            value == long_at(frame@, (start - 3) / 2),
    {
        proof {
            lemma_u32_values_are_longs(frame@, start as int, start + 4, 0);
        }
        let _length = frame.len();
        match get_values_from_u8_array::<u32, 1>(&frame[start..start + 4]) {
            Some(values) => values[0],
            None => 0,
        }
    }

    /// Create a `RecirculationPumpData` from a Modbus response to a read of
    /// the data registers, or `None` when the frame's length or byte count
    /// does not match those registers.
    pub fn from_frame_data(frame: &[u8]) -> (data: Option<RecirculationPumpData>)
        ensures
            data == (if is_register_response(
                frame@,
                NUM_REGISTER_RECIRCULATION_PUMP_DATA as nat,
            ) {
                Some(data_of_response(frame@))
            } else {
                None
            }),
    {
        let data_bytes: usize = 2 * (NUM_REGISTER_RECIRCULATION_PUMP_DATA as usize);
        let frame_length: usize = 5 + data_bytes;
        if (frame.len() != frame_length) || (frame[2] as usize != data_bytes) {
            return None;
        }
        // RelativePerformance, address: 00303
        let relative_performance = Self::register_from_frame(frame, 7);
        // ActualSetpoint, address: 00308
        let actual_setpoint = Self::register_from_frame(frame, 17);
        // MotorCurrent, address: 00309
        let motor_current = Self::register_from_frame(frame, 19);
        // PowerHI and PowerLO, addresses: 00312 and 00313
        let power = Self::long_from_frame(frame, 25);
        // OperationTimeHI and OperationTimeLO, addresses: 00327 and 00328
        let operation_time = Self::long_from_frame(frame, 55);
        // EnergyHI and EnergyLO, addresses: 00332 and 00333
        let energy = Self::long_from_frame(frame, 65);
        // UserSetpoint, address: 00343
        let user_setpoint = Self::register_from_frame(frame, 87);
        Some(
            RecirculationPumpData {
                relative_performance,
                actual_setpoint,
                motor_current,
                power,
                operation_time,
                energy,
                user_setpoint,
            },
        )
    }
}

/// A control response is read register by register, each register
/// big-endian in the two bytes from `3 + 2 * n` for register `n`: status
/// (0), control mode (low byte of 1), operation mode (low byte of 2),
/// setpoint (3) and control of pump 1 (4). It describes the control exactly
/// when both mode codes name a mode.
pub proof fn lemma_control_response_fields(frame: Seq<u8>)
    requires
        is_register_response(frame, NUM_REGISTER_RECIRCULATION_PUMP_CONTROL as nat),
    ensures
        control_of_response(frame) is Some <==> ControlModeRecirculationPump::spec_from_repr(frame[6])
            is Some && OperationModeRecirculationPump::spec_from_repr(frame[8]) is Some,
        control_of_response(frame) matches Some(control) ==> {
            &&& control.status == frame[3] as int * 256 + frame[4] as int
            &&& Some(control.control_mode) == ControlModeRecirculationPump::spec_from_repr(frame[6])
            &&& Some(control.operation_mode) == OperationModeRecirculationPump::spec_from_repr(
                frame[8],
            )
            &&& control.setpoint == frame[9] as int * 256 + frame[10] as int
            &&& control.control_pump_1 == frame[11] as int * 256 + frame[12] as int
        },
{
    lemma_register_bytes(frame, 0);
    lemma_register_bytes(frame, 1);
    lemma_register_bytes(frame, 2);
    lemma_register_bytes(frame, 3);
    lemma_register_bytes(frame, 4);
}

/// A status response is read register by register, each register
/// big-endian in the two bytes from `3 + 2 * n` for register `n`: status
/// (0), process feedback (1), control mode, operation mode, alarm code and
/// warning code (low bytes of 2 to 5), the numbers of pumps present,
/// running, with a fault and with a communication fault (low bytes of 7 to
/// 10) and the active system functions (11). It describes the status
/// exactly when all four codes name something.
pub proof fn lemma_status_response_fields(frame: Seq<u8>)
    requires
        is_register_response(frame, NUM_REGISTER_RECIRCULATION_PUMP_STATUS as nat),
    ensures
        status_of_response(frame) is Some <==> {
            &&& ControlModeRecirculationPump::spec_from_repr(frame[8]) is Some
            &&& OperationModeRecirculationPump::spec_from_repr(frame[10]) is Some
            &&& AlarmWarningRecirculationPump::spec_from_repr(frame[12]) is Some
            &&& AlarmWarningRecirculationPump::spec_from_repr(frame[14]) is Some
        },
        status_of_response(frame) matches Some(status) ==> {
            &&& status.status == frame[3] as int * 256 + frame[4] as int
            &&& status.process_feedback == frame[5] as int * 256 + frame[6] as int
            &&& Some(status.control_mode) == ControlModeRecirculationPump::spec_from_repr(frame[8])
            &&& Some(status.operation_mode) == OperationModeRecirculationPump::spec_from_repr(
                frame[10],
            )
            &&& Some(status.alarm_code) == AlarmWarningRecirculationPump::spec_from_repr(frame[12])
            &&& Some(status.warning_code) == AlarmWarningRecirculationPump::spec_from_repr(frame[14])
            &&& status.pumps_present == frame[18]
            &&& status.pumps_running == frame[20]
            &&& status.pumps_fault == frame[22]
            &&& status.pumps_comm_fault == frame[24]
            &&& status.system_active_functions == frame[25] as int * 256 + frame[26] as int
        },
{
    lemma_register_bytes(frame, 0);
    lemma_register_bytes(frame, 1);
    lemma_register_bytes(frame, 2);
    lemma_register_bytes(frame, 3);
    lemma_register_bytes(frame, 4);
    lemma_register_bytes(frame, 5);
    lemma_register_bytes(frame, 7);
    lemma_register_bytes(frame, 8);
    lemma_register_bytes(frame, 9);
    lemma_register_bytes(frame, 10);
    lemma_register_bytes(frame, 11);
}

/// A data response is read by register number, the register with number
/// `n` big-endian in the two bytes from `3 + 2 * (n - 301)`: relative
/// performance (303), actual setpoint (308), motor current (309), power
/// (312 and 313), operation time (327 and 328), energy (332 and 333) and
/// user setpoint (343), the 32-bit values high register first.
pub proof fn lemma_data_response_fields(frame: Seq<u8>)
    requires
        is_register_response(frame, NUM_REGISTER_RECIRCULATION_PUMP_DATA as nat),
    ensures
        data_of_response(frame).relative_performance == frame[7] as int * 256 + frame[8] as int,
        data_of_response(frame).actual_setpoint == frame[17] as int * 256 + frame[18] as int,
        data_of_response(frame).motor_current == frame[19] as int * 256 + frame[20] as int,
        data_of_response(frame).power == frame[25] as int * 16777216 + frame[26] as int * 65536
                + frame[27] as int * 256 + frame[28] as int,
        data_of_response(frame).operation_time == frame[55] as int * 16777216 + frame[56] as int * 65536
                + frame[57] as int * 256 + frame[58] as int,
        data_of_response(frame).energy == frame[65] as int * 16777216 + frame[66] as int * 65536
                + frame[67] as int * 256 + frame[68] as int,
        data_of_response(frame).user_setpoint == frame[87] as int * 256 + frame[88] as int,
{
    lemma_register_bytes(frame, 2);
    lemma_register_bytes(frame, 7);
    lemma_register_bytes(frame, 8);
    lemma_long_bytes(frame, 11);
    lemma_long_bytes(frame, 26);
    lemma_long_bytes(frame, 31);
    lemma_register_bytes(frame, 42);
}

} // verus!
