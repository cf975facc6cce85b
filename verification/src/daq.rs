//! Decoding of the devices' responses and the Modbus communication.

pub mod chiller;
pub mod data_acquisition;
pub mod flowmeter;
pub mod power_grid_monitor;
pub mod pier_fan;
pub mod recirculation_pump;
pub mod modbus_communicator;
