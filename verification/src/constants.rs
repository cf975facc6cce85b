use vstd::prelude::*;

verus! {

/// Function code to read the contents of a contiguous block of 16-bit
/// configuration or analog output registers from a remote slave device.
///
/// The format of the command is:
/// <address> <function_code> <register_address> <number> <CRC verify code>
/// register_address, number, and CRC verify code have 2 bytes each.
///
/// The format of response to read the holding registers is:
/// <address> <function_code> <data_bytes> <data> <CRC verify code>
pub const CODE_READ_HOLDING_REGISTERS: u8 = 0x03;

/// Function code to write a single 16-bit configuration or analog output
/// register to a remote slave device.
///
/// The format of the command is:
/// <address> <function_code> <register_address> <value> <CRC verify code>
/// register_address, value, and CRC verify code have 2 bytes each.
///
/// The response from the slave device echoes the command back if the write is
/// successful.
pub const CODE_WRITE_SINGLE_REGISTER: u8 = 0x06;

/// Number of bytes of a command that reads holding registers or writes a
/// single register.
pub const BYTES_HOLDING_REGISTER: usize = 8;

pub const NUM_TEMPERATURE_HUB: usize = 3;

pub const NUM_TEMPERATURE_CHANNEL: usize = 8;

pub const NUM_BUS_PRESSURE_TRANSDUCER: usize = 3;

pub const OFFSET_READ_HOLDING_REGISTERS_FLOWMETER: u16 = 40001;

/// Register address of the flowmeter relative to the offset of holding
/// registers (40700 - 40001). 40700 (Signal Strength) is used for big-endian
/// word order master devices.
pub const REGISTER_ADDRESS_FLOWMETER: u16 = 699;

/// Number of the registers to read from the flowmeter.
pub const NUM_REGISTER_FLOWMETER: u16 = 10;

pub const OFFSET_READ_HOLDING_REGISTERS_POWER_GRID_MONITOR: u16 = 1;

/// Register address of the power grid monitor relative to the offset of
/// holding registers (3000 - 1). 3000 (Current A) is used for big-endian word
/// order master devices.
pub const REGISTER_ADDRESS_POWER_GRID_MONITOR: u16 = 2999;

/// Number of the registers to read from the power grid monitor.
pub const NUM_REGISTER_POWER_GRID_MONITOR: u16 = 112;

/// Register addresses of the pier fan. Note that the offset of reading
/// holding registers is 0 here.
pub const REGISTER_ADDRESS_PIER_FAN_RESET: u16 = 0xD000;

pub const REGISTER_ADDRESS_PIER_FAN_MAXIMUM_SPEED: u16 = 0xD119;

pub const REGISTER_ADDRESS_PIER_FAN_REFERENCE_VALUE_OF_DC_LINK_VOLTAGE: u16 = 0xD1A0;

/// Input register of the pier fan's actual speed (only read access).
pub const REGISTER_ADDRESS_PIER_FAN_ACTUAL_SPEED: u16 = 0xD010;

/// Number of the registers to read for the pier fan's reference DC link
/// voltage and current.
pub const NUM_REGISTER_PIER_FAN_REFERENCE_VALUE_OF_DC_LINK_VOLTAGE: u16 = 2;

/// Number of the registers to read from the pier fan.
pub const NUM_REGISTER_PIER_FAN_ACTUAL_SPEED: u16 = 18;

pub const MAX_VALUE_PIER_FAN_ACTUAL_SPEED: u16 = 64000;

/// The user manual specifies 256 (rather than 255) as the full scale of the
/// pier fan's DC link voltage and current registers.
pub const MAX_VALUE_PIER_FAN_DC_LINK_VOLTAGE_CURRENT: u16 = 256;

/// Register address of the chiller's temperature setpoint, the first of the
/// chiller's registers.
pub const REGISTER_ADDRESS_CHILLER_TEMPERATURE_SETPOINT: u16 = 0;

/// Number of the registers to read from the chiller.
pub const NUM_REGISTER_CHILLER: u16 = 24;

/// Register addresses of the recirculation pump (CIM module). The register
/// numbers 00001, 00101, 00201 and 00301 of the manual are addressed from 0.
pub const REGISTER_ADDRESS_RECIRCULATION_PUMP_CIM_CONFIGURATION: u16 = 0;

pub const REGISTER_ADDRESS_RECIRCULATION_PUMP_CONTROL: u16 = 100;

pub const REGISTER_ADDRESS_RECIRCULATION_PUMP_STATUS: u16 = 200;

pub const REGISTER_ADDRESS_RECIRCULATION_PUMP_DATA: u16 = 300;

/// Numbers of the registers to read from the recirculation pump.
pub const NUM_REGISTER_RECIRCULATION_PUMP_CIM_CONFIGURATION: u16 = 37;

pub const NUM_REGISTER_RECIRCULATION_PUMP_CONTROL: u16 = 5;

pub const NUM_REGISTER_RECIRCULATION_PUMP_STATUS: u16 = 12;

pub const NUM_REGISTER_RECIRCULATION_PUMP_DATA: u16 = 43;

/// The number of bytes in the response of temperature hub.
pub const BYTES_RESPONSE_TEMPERATURE: usize = 112;

/// The number of bytes in the response of pressure transducer.
pub const BYTES_RESPONSE_PRESSURE: usize = 20;

} // verus!
