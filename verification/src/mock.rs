//! Simulated devices of the plant: each answers a read of its registers with
//! the Modbus response that the real device sends.

pub mod mock_chiller;
pub mod mock_constants;
pub mod mock_flowmeter_group;
pub mod mock_pier_fan;
pub mod mock_plant;
pub mod mock_power_grid_monitor;
pub mod mock_pressure_transducer;
pub mod mock_pressure_transducer_group;
pub mod mock_recirculation_pump;
pub mod mock_temperature_hub;
pub mod plant_round_trip;
