use ts_dynalene::constants::{
    CODE_READ_HOLDING_REGISTERS, NUM_REGISTER_FLOWMETER, NUM_REGISTER_PIER_FAN_ACTUAL_SPEED,
};
use ts_dynalene::daq::flowmeter::Flowmeter;
use ts_dynalene::daq::pier_fan::PierFan;
use ts_dynalene::daq::power_grid_monitor::PowerGridMonitor;
use ts_dynalene::daq::recirculation_pump::RecirculationPump;
use ts_dynalene::enums::{ControlModeRecirculationPump, OperationModeRecirculationPump};

#[test]
fn flowmeter_test_from_frame_invalid() {
    // Frame with incorrect length
    let frame_short: [u8; 24] = [0; 24];
    assert!(Flowmeter::from_frame(&frame_short).is_none());

    // Frame with incorrect data bytes
    let mut frame_wrong_data_bytes: [u8; 25] = [0; 25];
    frame_wrong_data_bytes[2] = 19;
    assert!(Flowmeter::from_frame(&frame_wrong_data_bytes).is_none());
}

#[test]
fn pier_fan_test_from_frame_invalid() {
    // Frame with incorrect length
    let frame_short: [u8; 40] = [0; 40];
    assert!(PierFan::from_frame(&frame_short).is_none());

    // Frame with incorrect data bytes
    let mut frame_wrong_data_bytes: [u8; 41] = [0; 41];
    frame_wrong_data_bytes[2] = 35;
    assert!(PierFan::from_frame(&frame_wrong_data_bytes).is_none());
}

#[test]
fn power_grid_monitor_test_from_frame_invalid() {
    // Frame with incorrect length
    let frame_short: [u8; 228] = [0; 228];
    assert!(PowerGridMonitor::from_frame(&frame_short).is_none());

    // Frame with incorrect data bytes
    let mut frame_wrong_data_bytes: [u8; 229] = [0; 229];
    frame_wrong_data_bytes[2] = 223;
    assert!(PowerGridMonitor::from_frame(&frame_wrong_data_bytes).is_none());
}

#[test]
fn recirculation_pump_test_from_frame_invalid() {
    let recirculation_pump = RecirculationPump::from_frame(&[], &[], &[], &[]);
    assert_eq!(recirculation_pump.address, 0);

    assert!(recirculation_pump.cim_configuration.is_none());
    assert!(recirculation_pump.control.is_none());
    assert!(recirculation_pump.status.is_none());
    assert!(recirculation_pump.data.is_none());
}

#[test]
fn test_from_frame_cim_configuration_invalid() {
    // Frame with incorrect length
    let frame_short: [u8; 78] = [0; 78];
    assert!(RecirculationPump::from_frame_cim_configuration(&frame_short).is_none());

    // Frame with incorrect data bytes
    let mut frame_wrong_data_bytes: [u8; 79] = [0; 79];
    frame_wrong_data_bytes[2] = 73;
    assert!(RecirculationPump::from_frame_cim_configuration(&frame_wrong_data_bytes).is_none());
}

#[test]
fn test_from_frame_control_invalid() {
    // Frame with incorrect length
    let frame_short: [u8; 14] = [0; 14];
    assert!(RecirculationPump::from_frame_control(&frame_short).is_none());

    // Frame with incorrect data bytes
    let mut frame_wrong_data_bytes: [u8; 15] = [0; 15];
    frame_wrong_data_bytes[2] = 9;
    assert!(RecirculationPump::from_frame_control(&frame_wrong_data_bytes).is_none());
}

#[test]
fn test_from_frame_status_invalid() {
    // Frame with incorrect length
    let frame_short: [u8; 28] = [0; 28];
    assert!(RecirculationPump::from_frame_status(&frame_short).is_none());

    // Frame with incorrect data bytes
    let mut frame_wrong_data_bytes: [u8; 29] = [0; 29];
    frame_wrong_data_bytes[2] = 23;
    assert!(RecirculationPump::from_frame_status(&frame_wrong_data_bytes).is_none());
}

#[test]
fn test_from_frame_data_invalid() {
    // Frame with incorrect length
    let frame_short: [u8; 90] = [0; 90];
    assert!(RecirculationPump::from_frame_data(&frame_short).is_none());

    // Frame with incorrect data bytes
    let mut frame_wrong_data_bytes: [u8; 91] = [0; 91];
    frame_wrong_data_bytes[2] = 85;
    assert!(RecirculationPump::from_frame_data(&frame_wrong_data_bytes).is_none());
}

/// A register response of `num` registers from `address` with the registers
/// numbered 0, 1, ... holding `value(k)`.
fn response_with_registers(address: u8, num: usize, value: fn(usize) -> u16) -> Vec<u8> {
    let mut frame = vec![0u8; 5 + 2 * num];
    frame[0] = address;
    frame[1] = CODE_READ_HOLDING_REGISTERS;
    frame[2] = (2 * num) as u8;
    for k in 0..num {
        let register = value(k);
        frame[3 + 2 * k] = (register >> 8) as u8;
        frame[4 + 2 * k] = (register & 0xFF) as u8;
    }
    frame
}

#[test]
fn test_flowmeter_from_frame_values() {
    let frame = response_with_registers(7, NUM_REGISTER_FLOWMETER as usize, |k| k as u16 + 1);
    let flowmeter = Flowmeter::from_frame(&frame).unwrap();
    assert_eq!(flowmeter.address, 7);
    assert_eq!(flowmeter.signal_strength, 0x0001_0002);
    assert_eq!(flowmeter.flow_rate, 0x0003_0004);
}

#[test]
fn test_pier_fan_from_frame_values() {
    let frame = response_with_registers(12, NUM_REGISTER_PIER_FAN_ACTUAL_SPEED as usize, |k| {
        if k == 6 { 0xFFF1 } else { 100 + k as u16 }
    });
    let pier_fan = PierFan::from_frame(&frame).unwrap();
    assert_eq!(pier_fan.address, 12);
    assert_eq!(pier_fan.actual_speed, 100);
    assert_eq!(pier_fan.motor_status, 101);
    // The motor temperature is a signed register.
    assert_eq!(pier_fan.motor_temperature, -15);
    assert_eq!(pier_fan.current_set_value, 110);
    assert_eq!(pier_fan.enable_input_status, 112);
    assert_eq!(pier_fan.current_power, 117);
}

#[test]
fn test_pier_fan_reference_values_from_frame() {
    let frame = response_with_registers(12, 2, |k| if k == 0 { 750 } else { 2500 });
    assert_eq!(
        PierFan::get_ref_dc_link_voltage_current_from_frame(&frame),
        Some((15000, 5000))
    );
    let frame = response_with_registers(12, 1, |_| 6000);
    assert_eq!(PierFan::get_max_speed_from_frame(&frame), Some(6000));
    assert_eq!(PierFan::get_max_speed_from_frame(&frame[1..]), None);
}

#[test]
fn test_recirculation_pump_unknown_mode_code() {
    // Control mode code 2 names no control mode.
    let frame = response_with_registers(1, 5, |k| if k == 1 { 2 } else { 0 });
    assert!(RecirculationPump::from_frame_control(&frame).is_none());
    let frame = response_with_registers(1, 5, |k| if k == 1 { 128 } else if k == 2 { 6 } else { 0 });
    let control = RecirculationPump::from_frame_control(&frame).unwrap();
    assert_eq!(control.control_mode, ControlModeRecirculationPump::AutoAdapt);
    assert_eq!(control.operation_mode, OperationModeRecirculationPump::OpenLoopMax);
}
