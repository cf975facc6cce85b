use vstd::prelude::*;
use regex::Regex;
use crate::constants::{
    BYTES_HOLDING_REGISTER, BYTES_RESPONSE_PRESSURE, BYTES_RESPONSE_TEMPERATURE, NUM_TEMPERATURE_CHANNEL, CODE_READ_HOLDING_REGISTERS, CODE_WRITE_SINGLE_REGISTER,
    NUM_REGISTER_CHILLER, NUM_REGISTER_FLOWMETER, NUM_REGISTER_PIER_FAN_ACTUAL_SPEED,
    NUM_REGISTER_PIER_FAN_REFERENCE_VALUE_OF_DC_LINK_VOLTAGE, NUM_REGISTER_POWER_GRID_MONITOR,
    NUM_REGISTER_RECIRCULATION_PUMP_CIM_CONFIGURATION, NUM_REGISTER_RECIRCULATION_PUMP_CONTROL,
    NUM_REGISTER_RECIRCULATION_PUMP_DATA, NUM_REGISTER_RECIRCULATION_PUMP_STATUS,
    REGISTER_ADDRESS_CHILLER_TEMPERATURE_SETPOINT, REGISTER_ADDRESS_FLOWMETER,
    REGISTER_ADDRESS_PIER_FAN_ACTUAL_SPEED, REGISTER_ADDRESS_PIER_FAN_MAXIMUM_SPEED,
    REGISTER_ADDRESS_PIER_FAN_REFERENCE_VALUE_OF_DC_LINK_VOLTAGE, REGISTER_ADDRESS_PIER_FAN_RESET,
    REGISTER_ADDRESS_POWER_GRID_MONITOR, REGISTER_ADDRESS_RECIRCULATION_PUMP_CIM_CONFIGURATION,
    REGISTER_ADDRESS_RECIRCULATION_PUMP_CONTROL, REGISTER_ADDRESS_RECIRCULATION_PUMP_DATA,
    REGISTER_ADDRESS_RECIRCULATION_PUMP_STATUS,
};
use crate::daq::chiller::{chiller_of_response, Chiller};
use crate::daq::flowmeter::{flowmeter_of_response, Flowmeter};
use crate::daq::pier_fan::{
    pier_fan_of_response, PierFan, FACTOR_PIER_FAN_DC_LINK_REFERENCE_CURRENT,
    FACTOR_PIER_FAN_DC_LINK_REFERENCE_VOLTAGE,
};
use crate::daq::power_grid_monitor::{power_grid_monitor_of_response, PowerGridMonitor};
use crate::daq::recirculation_pump::{is_pump_of_responses, RecirculationPump};
use crate::frame::{is_register_response, register_at};
use crate::parse::{parse_u8, text_of_bytes, u8_of_text, utf8_text};
use crate::utility::{
    calculate_modbus_crc_and_update_frame, frame_crc_valid, high_byte, lemma_sealed_frame_is_valid,
    low_byte, sealed_frame, verify_modbus_crc,
};

verus! {

/// The pattern of a pressure transducer's response; its groups are the
/// address and the pressure.
pub const PATTERN_PRESSURE: &'static str = r"@(\d+)\s(\d+\.\d+)\s";

/// The pattern of one channel of a temperature hub's response; its group is
/// the temperature.
pub const PATTERN_TEMPERATURE: &'static str = r"C\d+=(\d+\.\d+)";

/// The capture groups (group 0 is the whole match; `None` for a group that
/// did not take part) of the first match of the regular expression
/// `pattern` in `text`, as the `regex` crate finds it; `None` when the
/// pattern is not a valid expression or does not match.
pub uninterp spec fn regex_first_captures(pattern: Seq<char>, text: Seq<char>) -> Option<
    Seq<Option<Seq<char>>>,
>;

/// The capture groups of each successive non-overlapping match of the
/// regular expression `pattern` in `text`, as the `regex` crate finds them;
/// empty when the pattern is not a valid expression.
pub uninterp spec fn regex_all_captures(pattern: Seq<char>, text: Seq<char>) -> Seq<
    Seq<Option<Seq<char>>>,
>;

/// The texts of capture groups.
pub open spec fn groups_view(groups: Seq<Option<String>>) -> Seq<Option<Seq<char>>> {
    groups.map_values(
        |group: Option<String>|
            match group {
                Some(text) => Some(text@),
                None => None,
            },
    )
}

/// Calls `regex::Regex::new` with `pattern` and then `Regex::captures` on
/// `text`, and hands out the text of each capture group. The contract names
/// the result `regex_first_captures(pattern, text)`: it claims only that the
/// groups depend on the pattern and the text alone.
#[verifier::external_body]
fn captures_of(pattern: &str, text: &str) -> (groups: Option<Vec<Option<String>>>)
    ensures
        match groups {
            Some(groups) => regex_first_captures(pattern@, text@) == Some(groups_view(groups@)),
            None => regex_first_captures(pattern@, text@) is None,
        },
{
    let captures = Regex::new(pattern).ok()?.captures(text)?;
    Some(captures.iter().map(|group| group.map(|found| found.as_str().to_string())).collect())
}

/// Calls `regex::Regex::new` with `pattern` and then `Regex::captures_iter`
/// on `text`, and hands out the text of each capture group of each match.
/// The contract names the result `regex_all_captures(pattern, text)`: it
/// claims only that the matches depend on the pattern and the text alone.
#[verifier::external_body]
fn all_captures_of(pattern: &str, text: &str) -> (matches: Vec<Vec<Option<String>>>)
    ensures
        matches@.map_values(|groups: Vec<Option<String>>| groups_view(groups@))
            == regex_all_captures(pattern@, text@),
{
    match Regex::new(pattern) {
        Ok(regex) => regex.captures_iter(text).map(
            |captures| captures.iter().map(|group| group.map(|found| found.as_str().to_string())).collect(),
        ).collect(),
        Err(_) => Vec::new(),
    }
}

/// The address and the pressure text that the capture groups of a pressure
/// response give: group 1 read as a decimal `u8` and the text of group 2;
/// `None` when there are no captures, either group is missing, or the
/// address does not read as a `u8`.
pub open spec fn pressure_of_captures(captures: Option<Seq<Option<Seq<char>>>>) -> Option<
    (u8, Seq<char>),
> {
    match captures {
        Some(groups) => if groups.len() > 2 && groups[1] is Some && groups[2] is Some {
            match u8_of_text(groups[1]->0) {
                Some(address) => Some((address, groups[2]->0)),
                None => None,
            }
        } else {
            None
        },
        None => None,
    }
}

/// The address and the pressure text of the pressure transducer's response
/// `frame`: `None` when the frame does not have the response's length, is
/// not UTF-8 text, or does not match `PATTERN_PRESSURE` (see
/// `pressure_of_captures`).
pub open spec fn pressure_reading(frame: Seq<u8>) -> Option<(u8, Seq<char>)> {
    if frame.len() != BYTES_RESPONSE_PRESSURE {
        None
    } else {
        match text_of_bytes(frame) {
            Some(text) => pressure_of_captures(regex_first_captures(PATTERN_PRESSURE@, text)),
            None => None,
        }
    }
}

/// The temperature texts that the matches of a temperature response give:
/// group 1 of each of the first `NUM_TEMPERATURE_CHANNEL` matches; `None`
/// when one of them lacks it.
pub open spec fn temperatures_of_captures(matches: Seq<Seq<Option<Seq<char>>>>) -> Option<
    Seq<Seq<char>>,
> {
    let taken = first_channels(matches);
    if all_have_group_1(taken) {
        Some(Seq::new(taken.len(), |i: int| taken[i][1]->0))
    } else {
        None
    }
}

/// The first `NUM_TEMPERATURE_CHANNEL` of `matches`, or all of them when
/// there are fewer.
pub open spec fn first_channels(matches: Seq<Seq<Option<Seq<char>>>>) -> Seq<Seq<Option<Seq<char>>>> {
    if matches.len() > NUM_TEMPERATURE_CHANNEL {
        matches.take(NUM_TEMPERATURE_CHANNEL as int)
    } else {
        matches
    }
}

/// Whether every one of `matches` has a capture group 1.
pub open spec fn all_have_group_1(matches: Seq<Seq<Option<Seq<char>>>>) -> bool {
    forall|i: int| 0 <= i < matches.len() ==> (#[trigger] matches[i]).len() > 1 && matches[i][1] is Some
}

/// The temperature texts of the temperature hub's response `frame`: `None`
/// when the frame does not have the response's length or is not UTF-8
/// text, else those of the matches of `PATTERN_TEMPERATURE` (see
/// `temperatures_of_captures`).
pub open spec fn temperature_reading(frame: Seq<u8>) -> Option<Seq<Seq<char>>> {
    if frame.len() != BYTES_RESPONSE_TEMPERATURE {
        None
    } else {
        match text_of_bytes(frame) {
            Some(text) => temperatures_of_captures(regex_all_captures(PATTERN_TEMPERATURE@, text)),
            None => None,
        }
    }
}

/// The texts of `texts`.
pub open spec fn texts_view(texts: Seq<String>) -> Seq<Seq<char>> {
    texts.map_values(|text: String| text@)
}

/// The 8-byte Modbus command with the given address, function code,
/// register address and 16-bit argument (both big-endian), sealed with its
/// checksum.
pub open spec fn command_frame(address: u8, code: u8, register_address: u16, argument: u16) -> Seq<
    u8,
> {
    sealed_frame(
        seq![
            address,
            code,
            high_byte(register_address),
            low_byte(register_address),
            high_byte(argument),
            low_byte(argument),
            0u8,
            0u8,
        ],
    )
}

/// The command that reads `num_register` holding registers from
/// `register_address` of the device at `address`.
pub open spec fn read_registers_command(address: u8, register_address: u16, num_register: u16) -> Seq<u8> {
    command_frame(address, CODE_READ_HOLDING_REGISTERS, register_address, num_register)
}

/// The command that writes `value` to the register `register_address` of
/// the device at `address`.
pub open spec fn write_register_command(address: u8, register_address: u16, value: u16) -> Seq<u8> {
    command_frame(address, CODE_WRITE_SINGLE_REGISTER, register_address, value)
}

/// The ASCII byte of the decimal digit `d`, for `d < 10`.
pub open spec fn ascii_digit(d: int) -> u8 {
    (0x30 + d) as u8
}

/// The command that reads the pressure transducer at `address`:
/// "#<address>P\r\n" with the address in three decimal digits.
pub open spec fn pressure_command(address: u8) -> Seq<u8> {
    seq![
        0x23u8,
        ascii_digit((address / 100) as int),
        ascii_digit(((address / 10) % 10) as int),
        ascii_digit((address % 10) as int),
        0x50u8,
        0x0Du8,
        0x0Au8,
    ]
}

/// Builds the command frames for the plant's devices and reads their
/// responses, checking the Modbus checksum.
pub struct ModbusCommunicator {}

impl Default for ModbusCommunicator {
    fn default() -> (communicator: ModbusCommunicator)
        ensures
            communicator == (ModbusCommunicator {}),
    {
        ModbusCommunicator::new()
    }
}

impl ModbusCommunicator {
    /// Create a new Modbus communicator.
    pub fn new() -> (communicator: ModbusCommunicator)
        ensures
            communicator == (ModbusCommunicator {}),
    {
        ModbusCommunicator {}
    }

    /// Create a frame to read the flowmeter at `address`.
    pub fn create_frame_read_flowmeter(&self, address: u8) -> (frame: [u8; BYTES_HOLDING_REGISTER])
        ensures
            frame@ == read_registers_command(address, REGISTER_ADDRESS_FLOWMETER, NUM_REGISTER_FLOWMETER),
    {
        self.create_frame_read_holding_registers(address, REGISTER_ADDRESS_FLOWMETER, NUM_REGISTER_FLOWMETER)
    }

    /// Create a frame to read the power grid monitor at `address`.
    pub fn create_frame_read_power_grid_monitor(&self, address: u8) -> (frame: [u8; BYTES_HOLDING_REGISTER])
        ensures
            frame@ == read_registers_command(address, REGISTER_ADDRESS_POWER_GRID_MONITOR, NUM_REGISTER_POWER_GRID_MONITOR),
    {
        self.create_frame_read_holding_registers(address, REGISTER_ADDRESS_POWER_GRID_MONITOR, NUM_REGISTER_POWER_GRID_MONITOR)
    }

    /// Create a frame to read the pier fan maximum speed at `address`.
    pub fn create_frame_read_pier_fan_max_speed(&self, address: u8) -> (frame: [u8; BYTES_HOLDING_REGISTER])
        ensures
            frame@ == read_registers_command(address, REGISTER_ADDRESS_PIER_FAN_MAXIMUM_SPEED, 1),
    {
        self.create_frame_read_holding_registers(address, REGISTER_ADDRESS_PIER_FAN_MAXIMUM_SPEED, 1)
    }

    /// Create a frame to read the pier fan reference DC link voltage and current at `address`.
    pub fn create_frame_read_pier_fan_ref_dc_link_voltage_and_current(&self, address: u8) -> (frame: [u8; BYTES_HOLDING_REGISTER])
        ensures
            frame@ == read_registers_command(address, REGISTER_ADDRESS_PIER_FAN_REFERENCE_VALUE_OF_DC_LINK_VOLTAGE, NUM_REGISTER_PIER_FAN_REFERENCE_VALUE_OF_DC_LINK_VOLTAGE),
    {
        self.create_frame_read_holding_registers(address, REGISTER_ADDRESS_PIER_FAN_REFERENCE_VALUE_OF_DC_LINK_VOLTAGE, NUM_REGISTER_PIER_FAN_REFERENCE_VALUE_OF_DC_LINK_VOLTAGE)
    }

    /// Create a frame to read the pier fan at `address`.
    pub fn create_frame_read_pier_fan(&self, address: u8) -> (frame: [u8; BYTES_HOLDING_REGISTER])
        ensures
            frame@ == read_registers_command(address, REGISTER_ADDRESS_PIER_FAN_ACTUAL_SPEED, NUM_REGISTER_PIER_FAN_ACTUAL_SPEED),
    {
        self.create_frame_read_holding_registers(address, REGISTER_ADDRESS_PIER_FAN_ACTUAL_SPEED, NUM_REGISTER_PIER_FAN_ACTUAL_SPEED)
    }

    /// Create a frame to read the chiller at `address`.
    pub fn create_frame_read_chiller(&self, address: u8) -> (frame: [u8; BYTES_HOLDING_REGISTER])
        ensures
            frame@ == read_registers_command(address, REGISTER_ADDRESS_CHILLER_TEMPERATURE_SETPOINT, NUM_REGISTER_CHILLER),
    {
        self.create_frame_read_holding_registers(address, REGISTER_ADDRESS_CHILLER_TEMPERATURE_SETPOINT, NUM_REGISTER_CHILLER)
    }

    /// Create the frames to read the recirculation pump at `address`: the CIM
    /// configuration, control, status, and data, in this order.
    pub fn create_frame_read_recirculation_pump(&self, address: u8) -> (frames: [[u8; BYTES_HOLDING_REGISTER]; 4])
        ensures
            frames[0]@ == read_registers_command(
                address,
                REGISTER_ADDRESS_RECIRCULATION_PUMP_CIM_CONFIGURATION,
                NUM_REGISTER_RECIRCULATION_PUMP_CIM_CONFIGURATION,
            ),
            frames[1]@ == read_registers_command(
                address,
                REGISTER_ADDRESS_RECIRCULATION_PUMP_CONTROL,
                NUM_REGISTER_RECIRCULATION_PUMP_CONTROL,
            ),
            frames[2]@ == read_registers_command(
                address,
                REGISTER_ADDRESS_RECIRCULATION_PUMP_STATUS,
                NUM_REGISTER_RECIRCULATION_PUMP_STATUS,
            ),
            frames[3]@ == read_registers_command(
                address,
                REGISTER_ADDRESS_RECIRCULATION_PUMP_DATA,
                NUM_REGISTER_RECIRCULATION_PUMP_DATA,
            ),
    {
        [
            self.create_frame_read_holding_registers(
                address,
                REGISTER_ADDRESS_RECIRCULATION_PUMP_CIM_CONFIGURATION,
                NUM_REGISTER_RECIRCULATION_PUMP_CIM_CONFIGURATION,
            ),
            self.create_frame_read_holding_registers(
                address,
                REGISTER_ADDRESS_RECIRCULATION_PUMP_CONTROL,
                NUM_REGISTER_RECIRCULATION_PUMP_CONTROL,
            ),
            self.create_frame_read_holding_registers(
                address,
                REGISTER_ADDRESS_RECIRCULATION_PUMP_STATUS,
                NUM_REGISTER_RECIRCULATION_PUMP_STATUS,
            ),
            self.create_frame_read_holding_registers(
                address,
                REGISTER_ADDRESS_RECIRCULATION_PUMP_DATA,
                NUM_REGISTER_RECIRCULATION_PUMP_DATA,
            ),
        ]
    }

    /// Build the 8-byte command with the given function code, register
    /// address and argument, sealed with its checksum.
    fn create_command_frame(address: u8, code: u8, register_address: u16, argument: u16) -> (frame: [u8; BYTES_HOLDING_REGISTER])
        ensures
            frame@ == command_frame(address, code, register_address, argument),
    {
        let mut frame = [0u8; BYTES_HOLDING_REGISTER];
        frame[0] = address;
        frame[1] = code;
        frame[2] = (register_address / 256) as u8;
        frame[3] = (register_address % 256) as u8;
        frame[4] = (argument / 256) as u8;
        frame[5] = (argument % 256) as u8;
        let ghost unsealed = frame@;
        assert(unsealed =~= seq![
            address,
            code,
            high_byte(register_address),
            low_byte(register_address),
            high_byte(argument),
            low_byte(argument),
            0u8,
            0u8,
        ]);
        calculate_modbus_crc_and_update_frame(&mut frame);
        frame
    }

    /// Create a frame to read `num_register` holding registers starting at
    /// `register_address` from the device at `address`.
    fn create_frame_read_holding_registers(&self, address: u8, register_address: u16, num_register: u16) -> (frame: [u8; BYTES_HOLDING_REGISTER])
        ensures
            frame@ == read_registers_command(address, register_address, num_register),
    {
        Self::create_command_frame(address, CODE_READ_HOLDING_REGISTERS, register_address, num_register)
    }

    /// Create a frame to write `value` to the holding register
    /// `register_address` of the device at `address`.
    fn create_frame_write_single_register(&self, address: u8, register_address: u16, value: u16) -> (frame: [u8; BYTES_HOLDING_REGISTER])
        ensures
            frame@ == write_register_command(address, register_address, value),
    {
        Self::create_command_frame(address, CODE_WRITE_SINGLE_REGISTER, register_address, value)
    }

    /// Create a frame to reset the pier fan at `address`.
    pub fn create_frame_pier_fan_reset(&self, address: u8) -> (frame: [u8; BYTES_HOLDING_REGISTER])
        ensures
            frame@ == write_register_command(address, REGISTER_ADDRESS_PIER_FAN_RESET, 1),
    {
        self.create_frame_write_single_register(address, REGISTER_ADDRESS_PIER_FAN_RESET, 1)
    }

    /// Create a frame to set the temperature setpoint (degrees Fahrenheit)
    /// of the chiller at `address`.
    pub fn create_frame_chiller_set_temperature(&self, address: u8, temperature: u16) -> (frame: [u8; BYTES_HOLDING_REGISTER])
        ensures
            frame@ == write_register_command(
                address,
                REGISTER_ADDRESS_CHILLER_TEMPERATURE_SETPOINT,
                temperature,
            ),
    {
        self.create_frame_write_single_register(
            address,
            REGISTER_ADDRESS_CHILLER_TEMPERATURE_SETPOINT,
            temperature,
        )
    }

    /// Read the flowmeter from a received frame: `None` when the checksum
    /// or the frame's shape is wrong.
    pub fn read_flowmeter_from_frame(&self, frame: &[u8]) -> (flowmeter: Option<Flowmeter>)
        ensures
            flowmeter == (if frame_crc_valid(frame@) && is_register_response(
                frame@,
                NUM_REGISTER_FLOWMETER as nat,
            ) {
                Some(flowmeter_of_response(frame@))
            } else {
                None
            }),
    {
        if !verify_modbus_crc(frame) {
            return None;
        }
        Flowmeter::from_frame(frame)
    }

    /// Read the power grid monitor from a received frame: `None` when the
    /// checksum or the frame's shape is wrong.
    pub fn read_power_grid_monitor_from_frame(&self, frame: &[u8]) -> (monitor: Option<PowerGridMonitor>)
        ensures
            monitor == (if frame_crc_valid(frame@) && is_register_response(
                frame@,
                NUM_REGISTER_POWER_GRID_MONITOR as nat,
            ) {
                Some(power_grid_monitor_of_response(frame@))
            } else {
                None
            }),
    {
        if !verify_modbus_crc(frame) {
            return None;
        }
        PowerGridMonitor::from_frame(frame)
    }

    /// Read the maximum speed of the pier fan in rpm from a received frame:
    /// `None` when the checksum or the frame's shape is wrong.
    pub fn read_pier_fan_max_speed_from_frame(&self, frame: &[u8]) -> (max_speed: Option<u16>)
        ensures
            max_speed == (if frame_crc_valid(frame@) && is_register_response(frame@, 1) {
                Some(register_at(frame@, 0))
            } else {
                None
            }),
    {
        if !verify_modbus_crc(frame) {
            return None;
        }
        PierFan::get_max_speed_from_frame(frame)
    }

    /// Read the reference DC link voltage in millivolts and current in
    /// milliamperes of the pier fan from a received frame: `None` when the
    /// checksum or the frame's shape is wrong.
    pub fn read_pier_fan_dc_link_voltage_and_current_from_frame(&self, frame: &[u8]) -> (reference: Option<(u32, u32)>)
        ensures
            reference == (if frame_crc_valid(frame@) && is_register_response(
                frame@,
                NUM_REGISTER_PIER_FAN_REFERENCE_VALUE_OF_DC_LINK_VOLTAGE as nat,
            ) {
                Some(
                    (
                        (register_at(frame@, 0) * FACTOR_PIER_FAN_DC_LINK_REFERENCE_VOLTAGE) as u32,
                        (register_at(frame@, 1) * FACTOR_PIER_FAN_DC_LINK_REFERENCE_CURRENT) as u32,
                    ),
                )
            } else {
                None
            }),
    {
        if !verify_modbus_crc(frame) {
            return None;
        }
        PierFan::get_ref_dc_link_voltage_current_from_frame(frame)
    }

    /// Read the pier fan's registers from a received frame: `None` when the
    /// checksum or the frame's shape is wrong.
    pub fn read_pier_fan_from_frame(&self, frame: &[u8]) -> (pier_fan: Option<PierFan>)
        ensures
            pier_fan == (if frame_crc_valid(frame@) && is_register_response(
                frame@,
                NUM_REGISTER_PIER_FAN_ACTUAL_SPEED as nat,
            ) {
                Some(pier_fan_of_response(frame@))
            } else {
                None
            }),
    {
        if !verify_modbus_crc(frame) {
            return None;
        }
        PierFan::from_frame(frame)
    }

    /// Read the recirculation pump from the received frames of its four
    /// register blocks: `None` when a checksum is wrong.
    pub fn read_recirculation_pump_from_frame(
        &self,
        frame_cim_configuration: &[u8],
        frame_control: &[u8],
        frame_status: &[u8],
        frame_data: &[u8],
    ) -> (pump: Option<RecirculationPump>)
        ensures
            pump is Some <==> frame_crc_valid(frame_cim_configuration@) && frame_crc_valid(
                frame_control@,
            ) && frame_crc_valid(frame_status@) && frame_crc_valid(frame_data@),
            pump matches Some(pump) ==> is_pump_of_responses(
                pump,
                frame_cim_configuration@,
                frame_control@,
                frame_status@,
                frame_data@,
            ),
    {
        if (!verify_modbus_crc(frame_cim_configuration)) || (!verify_modbus_crc(frame_control))
            || (!verify_modbus_crc(frame_status)) || (!verify_modbus_crc(frame_data)) {
            return None;
        }
        Some(
            RecirculationPump::from_frame(
                frame_cim_configuration,
                frame_control,
                frame_status,
                frame_data,
            ),
        )
    }

    /// Read the chiller from a received frame: `None` when the checksum or
    /// the frame's shape is wrong.
    pub fn read_chiller_from_frame(&self, frame: &[u8]) -> (chiller: Option<Chiller>)
        ensures
            chiller == (if frame_crc_valid(frame@) && is_register_response(
                frame@,
                NUM_REGISTER_CHILLER as nat,
            ) {
                Some(chiller_of_response(frame@))
            } else {
                None
            }),
    {
        if !verify_modbus_crc(frame) {
            return None;
        }
        Chiller::from_frame(frame)
    }

    /// Create a frame to read the pressure transducer at `address`:
    /// "#<address>P\r\n" with the address in three decimal digits.
    pub fn create_frame_read_pressure(&self, address: u8) -> (frame: Vec<u8>)
        ensures
            frame@ == pressure_command(address),
    {
        let mut frame: Vec<u8> = Vec::new();
        frame.push(0x23);
        frame.push(0x30 + address / 100);
        frame.push(0x30 + (address / 10) % 10);
        frame.push(0x30 + address % 10);
        frame.push(0x50);
        frame.push(0x0D);
        frame.push(0x0A);
        assert(frame@ =~= pressure_command(address));
        frame
    }
    /// The address and the pressure text that the capture groups of a
    /// pressure response give (see `pressure_of_captures`).
    pub fn pressure_from_captures(&self, captures: Option<Vec<Option<String>>>) -> (reading: Option<
        (u8, String),
    >)
        ensures
            match reading {
                Some((address, pressure)) => pressure_of_captures(
                    match captures {
                        Some(groups) => Some(groups_view(groups@)),
                        None => None,
                    },
                ) == Some((address, pressure@)),
                None => pressure_of_captures(
                    match captures {
                        Some(groups) => Some(groups_view(groups@)),
                        None => None,
                    },
                ) is None,
            },
    {
        let groups = match captures {
            Some(groups) => groups,
            None => {
                return None;
            },
        };
        let ghost view = groups_view(groups@);
        let address = match self.parse_capture(&groups, 1) {
            Some(address) => address,
            None => {
                return None;
            },
        };
        if groups.len() <= 2 {
            return None;
        }
        let pressure = match &groups[2] {
            Some(pressure) => pressure.clone(),
            None => {
                return None;
            },
        };
        Some((address, pressure))
    }

    /// The `u8` that capture group `index` writes in decimal, or `None` when
    /// the group is missing or does not read as a `u8`.
    fn parse_capture(&self, groups: &Vec<Option<String>>, index: usize) -> (value: Option<u8>)
        ensures
            value == if index < groups@.len() && groups@[index as int] is Some {
                u8_of_text(groups@[index as int]->0@)
            } else {
                None
            },
    {
        if index >= groups.len() {
            return None;
        }
        match &groups[index] {
            Some(text) => parse_u8(text.as_str()),
            None => None,
        }
    }

    /// Read the address and the pressure text of a pressure transducer's
    /// response (see `pressure_reading`); the pressure is in PSI.
    pub fn read_pressure_from_frame(&self, frame: &[u8]) -> (reading: Option<(u8, String)>)
        ensures
            match reading {
                Some((address, pressure)) => pressure_reading(frame@) == Some((address, pressure@)),
                None => pressure_reading(frame@) is None,
            },
    {
        if frame.len() != BYTES_RESPONSE_PRESSURE {
            return None;
        }
        let response = match utf8_text(frame) {
            Some(response) => response,
            None => {
                return None;
            },
        };
        let captures = captures_of(PATTERN_PRESSURE, response);
        self.pressure_from_captures(captures)
    }

    /// The temperature texts that the matches of a temperature response
    /// give (see `temperatures_of_captures`).
    pub fn temperatures_from_captures(&self, matches: Vec<Vec<Option<String>>>) -> (temperatures:
        Option<Vec<String>>)
        ensures
            match temperatures {
                Some(temperatures) => temperatures_of_captures(
                    matches@.map_values(|groups: Vec<Option<String>>| groups_view(groups@)),
                ) == Some(texts_view(temperatures@)),
                None => temperatures_of_captures(
                    matches@.map_values(|groups: Vec<Option<String>>| groups_view(groups@)),
                ) is None,
            },
    {
        let ghost all = matches@.map_values(|groups: Vec<Option<String>>| groups_view(groups@));
        let count: usize = if matches.len() > NUM_TEMPERATURE_CHANNEL {
            NUM_TEMPERATURE_CHANNEL
        } else {
            matches.len()
        };
        let ghost taken = first_channels(all);
        let mut temperatures: Vec<String> = Vec::new();
        let mut idx: usize = 0;
        while idx < count
            invariant
                idx <= count <= matches@.len(),
                count == taken.len(),
                all == matches@.map_values(|groups: Vec<Option<String>>| groups_view(groups@)),
                taken == first_channels(all),
                temperatures@.len() == idx,
                forall|i: int|
                    0 <= i < idx ==> (#[trigger] taken[i]).len() > 1 && taken[i][1] is Some
                        && taken[i][1]->0 == temperatures@[i]@,
            decreases count - idx,
        {
            assert(taken[idx as int] == groups_view(matches@[idx as int]@));
            let groups = &matches[idx];
            if groups.len() <= 1 {
                assert(!(taken[idx as int].len() > 1));
                return None;
            }
            match &groups[1] {
                Some(text) => {
                    temperatures.push(text.clone());
                },
                None => {
                    assert(taken[idx as int][1] is None);
                    return None;
                },
            }
            idx = idx + 1;
        }
        assert(texts_view(temperatures@) =~= Seq::new(taken.len(), |i: int| taken[i][1]->0));
        Some(temperatures)
    }

    /// Read the temperature texts of a temperature hub's response (see
    /// `temperature_reading`); the temperatures are in degrees Celsius.
    pub fn read_temperature_from_frame(&self, frame: &[u8]) -> (temperatures: Option<Vec<String>>)
        ensures
            match temperatures {
                Some(temperatures) => temperature_reading(frame@) == Some(texts_view(temperatures@)),
                None => temperature_reading(frame@) is None,
            },
    {
        if frame.len() != BYTES_RESPONSE_TEMPERATURE {
            return None;
        }
        let response = match utf8_text(frame) {
            Some(response) => response,
            None => {
                return None;
            },
        };
        let matches = all_captures_of(PATTERN_TEMPERATURE, response);
        self.temperatures_from_captures(matches)
    }
}

/// Every command frame carries the checksum of its contents.
pub proof fn lemma_command_frame_is_valid(
    address: u8,
    code: u8,
    register_address: u16,
    argument: u16,
)
    ensures
        frame_crc_valid(command_frame(address, code, register_address, argument)),
{
    lemma_sealed_frame_is_valid(
        seq![
            address,
            code,
            high_byte(register_address),
            low_byte(register_address),
            high_byte(argument),
            low_byte(argument),
            0u8,
            0u8,
        ],
    );
}

} // verus!
