use vstd::prelude::*;
use crate::enums::{ControlModeRecirculationPump, OperationModeRecirculationPump};

verus! {

/// Temperature of the plant in ten-thousandths of a degree Celsius (0.51
/// degrees Celsius).
pub const PLANT_TEMPERATURE: i64 = 5100;

/// Pressure of the plant in thousandths of a PSI (14.7 PSI).
pub const PLANT_PRESSURE: i32 = 14700;

/// IEEE 754 double-precision bit pattern of the voltage 0.89111 V that the
/// tank level sensors read.
pub const PLANT_TANK_LEVEL_VOLTAGE: u64 = 0x3FEC_83F9_1E64_6F15;

/// Number of channels of the analog input and output modules.
pub const PLANT_NUM_CHANNEL_ANALOG_INPUT_OUTPUT: usize = 16;

/// IEEE 754 single-precision bit pattern of the flowmeter signal strength
/// 2.4 (no unit).
pub const PLANT_FLOWMETER_SIGNAL_STRENGTH: u32 = 0x4019_999A;

/// Bit pattern of the flow rate 1.2345678 liter/minute.
pub const PLANT_FLOWMETER_FLOW_RATE: u32 = 0x3F9E_0651;

/// Bit pattern of the positive totalizer 3.5 liter.
pub const PLANT_FLOWMETER_POSITIVE_TOTALIZER: u32 = 0x4060_0000;

/// Bit pattern of the negative totalizer 1.1 liter.
pub const PLANT_FLOWMETER_NEGATIVE_TOTALIZER: u32 = 0x3F8C_CCCD;

/// Bit pattern of the net totalizer 3.5 - 1.1 liter, as `f32` computes it.
pub const PLANT_FLOWMETER_NET_TOTALIZER: u32 = 0x4019_999A;

/// Bit pattern of the average current 1.23 A.
pub const PLANT_POWER_GRID_MONITOR_CURRENT_AVG: u32 = 0x3F9D_70A4;

/// Bit pattern of the average line-to-line voltage 234.53 V.
pub const PLANT_POWER_GRID_MONITOR_VOLTAGE_LL_AVG: u32 = 0x436A_87AE;

/// Bit pattern of the average line-to-neutral voltage 120.21 V.
pub const PLANT_POWER_GRID_MONITOR_VOLTAGE_LN_AVG: u32 = 0x42F0_6B85;

/// Bit pattern of the total active power 456.73 kW.
pub const PLANT_POWER_GRID_MONITOR_ACTIVE_POWER_TOTAL: u32 = 0x43E4_5D71;

/// Bit pattern of the total reactive power 89.13 kVAR.
pub const PLANT_POWER_GRID_MONITOR_REACTIVE_POWER_TOTAL: u32 = 0x42B2_428F;

/// Bit pattern of the total apparent power 500.24 kVA.
pub const PLANT_POWER_GRID_MONITOR_APPARENT_POWER_TOTAL: u32 = 0x43FA_1EB8;

/// Bit pattern of the total power factor 0.95.
pub const PLANT_POWER_GRID_MONITOR_POWER_FACTOR_TOTAL: u32 = 0x3F73_3333;

/// Bit pattern of the frequency 100 Hz.
pub const PLANT_POWER_GRID_MONITOR_FREQUENCY: u32 = 0x42C8_0000;

/// Maximum speed of the pier fan in rpm.
pub const PLANT_PIER_FAN_MAX_SPEED: u16 = 6000;

/// Reference DC link voltage of the pier fan in mV.
pub const PLANT_PIER_FAN_REF_DC_LINK_VOLTAGE: u32 = 15000;

/// Reference DC link current of the pier fan in mA.
pub const PLANT_PIER_FAN_REF_DC_LINK_CURRENT: u32 = 5000;

/// Register of the actual speed 5600 rpm (of the maximum speed).
pub const PLANT_PIER_FAN_ACTUAL_SPEED: u16 = 59733;

/// Register of the DC link voltage 14.97 V (of the reference voltage).
pub const PLANT_PIER_FAN_DC_LINK_VOLTAGE: u16 = 255;

/// Register of the DC link current 4.89 A (of the reference current).
pub const PLANT_PIER_FAN_DC_LINK_CURRENT: u16 = 250;

/// Module temperature in degrees Celsius.
pub const PLANT_PIER_FAN_MODULE_TEMPERATURE: u16 = 12;

/// Motor temperature in degrees Celsius.
pub const PLANT_PIER_FAN_MOTOR_TEMPERATURE: i16 = 15;

/// Electronics temperature in degrees Celsius.
pub const PLANT_PIER_FAN_ELECTRONICS_TEMPERATURE: u16 = 13;

pub const PLANT_PIER_FAN_CURRENT_DIRECTION_OF_ROTATION: u16 = 1;

/// Register of the modulation level 5.72 percent.
pub const PLANT_PIER_FAN_CURRENT_MODULATION_LEVEL: u16 = 3748;

/// Register of the set value 5700 rpm (of the maximum speed).
pub const PLANT_PIER_FAN_CURRENT_SET_VALUE: u16 = 60800;

pub const PLANT_PIER_FAN_ENABLE_INPUT_STATUS: u16 = 1;

pub const PLANT_PIER_FAN_CURRENT_PARAMETER_SET: u16 = 1;

pub const PLANT_PIER_FAN_CURRENT_CONTROLLER_FUNCTION: u16 = 1;

/// Register of the power 71.23 W (of the reference voltage times current).
pub const PLANT_PIER_FAN_CURRENT_POWER: u16 = 62240;

/// Software-defined bit rate of the recirculation pump's CIM: 19200 bit/s.
pub const PLANT_PUMP_CONFIGURATION_SOFTWARE_DEFINED_BIT_RATE: u16 = 4;

/// Automatic acknowledgement of the pump's control bits: enabled.
pub const PLANT_PUMP_CONFIGURATION_AUTO_ACK_CONTROL_BITS: u16 = 1;

/// Software-defined parity of the pump's CIM: none.
pub const PLANT_PUMP_CONFIGURATION_SOFTWARE_DEFINED_PARITY: u16 = 0;

/// Software-defined stop bits of the pump's CIM: one.
pub const PLANT_PUMP_CONFIGURATION_SOFTWARE_DEFINED_STOP_BIT: u16 = 1;

/// Telegrams sent and received on the pump's GENIbus connection.
pub const PLANT_PUMP_CONFIGURATION_GENIBUS_TX_RX_COUNT: u32 = 812;

/// Product software version of the pump (aa.bb.cc.dd).
pub const PLANT_PUMP_CONFIGURATION_PRODUCT_SOFTWARE_VERSION: &'static str = "02.30.06.78";

/// Product software date of the pump (dd/mm/yyyy).
pub const PLANT_PUMP_CONFIGURATION_PRODUCT_SOFTWARE_DATE: &'static str = "13/02/2013";

/// Control mode of the pump.
pub const PLANT_PUMP_CONTROL_CONTROL_MODE: ControlModeRecirculationPump =
    ControlModeRecirculationPump::AutoAdapt;

/// Operating mode of the pump.
pub const PLANT_PUMP_CONTROL_OPERATION_MODE: OperationModeRecirculationPump =
    OperationModeRecirculationPump::AutoControl;

/// Setpoint of the pump in hundredths of a percent (98.82 percent).
pub const PLANT_PUMP_CONTROL_SETPOINT: u16 = 9882;

/// Pumps present (and running): pump 1.
pub const PLANT_PUMP_STATUS_PUMPS_PRESENT: u8 = 1;

/// Active system functions of the pump: none.
pub const PLANT_PUMP_STATUS_SYSTEM_ACTIVE_FUNCTIONS: u16 = 0;

/// Relative performance of the pump in hundredths of a percent (93.12
/// percent).
pub const PLANT_PUMP_DATA_RELATIVE_PERFORMANCE: u16 = 9312;

/// Motor current of the pump in tenths of an ampere (3.4 A).
pub const PLANT_PUMP_DATA_MOTOR_CURRENT: u16 = 34;

/// Power consumption of the pump in watts.
pub const PLANT_PUMP_DATA_POWER: u32 = 34512;

/// Operating time of the pump in hours.
pub const PLANT_PUMP_DATA_OPERATION_TIME: u32 = 2316;

/// Energy consumption of the pump in kWh.
pub const PLANT_PUMP_DATA_ENERGY: u32 = 3;

} // verus!
