use ts_dynalene::constants::{
    CODE_READ_HOLDING_REGISTERS, NUM_REGISTER_CHILLER, NUM_REGISTER_FLOWMETER,
    NUM_REGISTER_PIER_FAN_ACTUAL_SPEED, NUM_REGISTER_PIER_FAN_REFERENCE_VALUE_OF_DC_LINK_VOLTAGE,
    NUM_REGISTER_POWER_GRID_MONITOR, NUM_REGISTER_RECIRCULATION_PUMP_CIM_CONFIGURATION,
    NUM_REGISTER_RECIRCULATION_PUMP_CONTROL, NUM_REGISTER_RECIRCULATION_PUMP_DATA,
    NUM_REGISTER_RECIRCULATION_PUMP_STATUS, REGISTER_ADDRESS_PIER_FAN_ACTUAL_SPEED,
    REGISTER_ADDRESS_PIER_FAN_MAXIMUM_SPEED,
    REGISTER_ADDRESS_PIER_FAN_REFERENCE_VALUE_OF_DC_LINK_VOLTAGE,
    REGISTER_ADDRESS_RECIRCULATION_PUMP_CIM_CONFIGURATION,
    REGISTER_ADDRESS_RECIRCULATION_PUMP_CONTROL, REGISTER_ADDRESS_RECIRCULATION_PUMP_DATA,
    REGISTER_ADDRESS_RECIRCULATION_PUMP_STATUS, BYTES_RESPONSE_PRESSURE,
    BYTES_RESPONSE_TEMPERATURE,
};
use ts_dynalene::daq::chiller::Chiller;
use ts_dynalene::daq::flowmeter::Flowmeter;
use ts_dynalene::daq::pier_fan::{
    PierFan, FACTOR_PIER_FAN_DC_LINK_REFERENCE_CURRENT, FACTOR_PIER_FAN_DC_LINK_REFERENCE_VOLTAGE,
};
use ts_dynalene::daq::power_grid_monitor::PowerGridMonitor;
use ts_dynalene::daq::recirculation_pump::{
    RecirculationPump, RecirculationPumpCimConfiguration, RecirculationPumpControl,
    RecirculationPumpData, RecirculationPumpStatus,
};
use ts_dynalene::enums::{
    AlarmWarningRecirculationPump, ControlModeRecirculationPump, HeartbeatChiller,
    MotorStatusPierFan, OperationModeRecirculationPump, WarningPierFan,
};
use ts_dynalene::mock::mock_chiller::MockChiller;
use ts_dynalene::mock::mock_constants::{
    PLANT_PIER_FAN_ACTUAL_SPEED, PLANT_PIER_FAN_CURRENT_CONTROLLER_FUNCTION,
    PLANT_PIER_FAN_CURRENT_DIRECTION_OF_ROTATION, PLANT_PIER_FAN_CURRENT_MODULATION_LEVEL,
    PLANT_PIER_FAN_CURRENT_PARAMETER_SET, PLANT_PIER_FAN_CURRENT_POWER,
    PLANT_PIER_FAN_CURRENT_SET_VALUE, PLANT_PIER_FAN_DC_LINK_CURRENT,
    PLANT_PIER_FAN_DC_LINK_VOLTAGE, PLANT_PIER_FAN_ELECTRONICS_TEMPERATURE,
    PLANT_PIER_FAN_ENABLE_INPUT_STATUS, PLANT_PIER_FAN_MAX_SPEED,
    PLANT_PIER_FAN_MODULE_TEMPERATURE, PLANT_PIER_FAN_REF_DC_LINK_CURRENT,
    PLANT_PIER_FAN_REF_DC_LINK_VOLTAGE,
};
use ts_dynalene::mock::mock_flowmeter_group::MockFlowmeterGroup;
use ts_dynalene::mock::mock_pier_fan::MockPierFan;
use ts_dynalene::mock::mock_power_grid_monitor::MockPowerGridMonitor;
use ts_dynalene::mock::mock_pressure_transducer::MockPressureTransducer;
use ts_dynalene::mock::mock_pressure_transducer_group::MockPressureTransducerGroup;
use ts_dynalene::mock::mock_recirculation_pump::MockRecirculationPump;
use ts_dynalene::mock::mock_temperature_hub::MockTemperatureHub;

#[test]
fn test_set_temperature() {
    let mut mock_chiller = MockChiller::new(3);

    mock_chiller.set_temperature(5);

    assert_eq!(mock_chiller.chiller.temperature_setpoint, 5);
}

#[test]
fn mock_chiller_test_request() {
    let mut mock_chiller = MockChiller::new(3);
    mock_chiller.chiller.temperature_high_alarm = 21;
    mock_chiller.chiller.temperature_low_alarm = 12;
    mock_chiller.chiller.to_process_temperature = 18;
    mock_chiller.chiller.from_process_temperature = 19;
    mock_chiller.chiller.process_status = 13;
    mock_chiller.chiller.machine_status_1 = 16;
    mock_chiller.chiller.machine_status_2 = 17;
    mock_chiller.chiller.machine_status_3 = 18;
    mock_chiller.chiller.heartbeat = 17;
    mock_chiller.chiller.zone_1_temperature_evaporator_in = 22;
    mock_chiller.chiller.zone_1_temperature_evaporator_out = 23;
    mock_chiller.chiller.zone_2_temperature_evaporator_in = 24;
    mock_chiller.chiller.zone_2_temperature_evaporator_out = 25;
    mock_chiller.chiller.zone_1_status = 14;
    mock_chiller.chiller.zone_2_status = 15;

    let response = mock_chiller.request(NUM_REGISTER_CHILLER);

    assert_eq!(response.len(), 53);
    assert_eq!(response[0], 3);
    assert_eq!(response[1], CODE_READ_HOLDING_REGISTERS);
    assert_eq!(response[2], 48);

    let chiller = Chiller::from_frame(&response).unwrap();

    assert_eq!(chiller, mock_chiller.chiller);
}

#[test]
fn test_trigger_heartbeat() {
    let mut mock_chiller = MockChiller::new(3);

    // First 31 heartbeat triggers
    for count in 0..31 {
        mock_chiller.trigger_heartbeat();

        if count % 2 == 0 {
            assert!(mock_chiller.chiller.heartbeat & HeartbeatChiller::OneSecond.bit_value() != 0);
        } else {
            assert!(mock_chiller.chiller.heartbeat & HeartbeatChiller::OneSecond.bit_value() == 0);
        }

        if count >= 15 {
            assert!(
                mock_chiller.chiller.heartbeat & HeartbeatChiller::SixteenSeconds.bit_value() != 0
            );
        } else {
            assert!(
                mock_chiller.chiller.heartbeat & HeartbeatChiller::SixteenSeconds.bit_value() == 0
            );
        }
    }

    // 32nd heartbeat trigger
    mock_chiller.trigger_heartbeat();

    assert!(mock_chiller.chiller.heartbeat & HeartbeatChiller::SixteenSeconds.bit_value() == 0);
}

#[test]
fn test_heartbeat_period() {
    let mut mock_chiller = MockChiller::new(3);
    mock_chiller.chiller.heartbeat = 0x0120;
    for _ in 0..32 {
        mock_chiller.trigger_heartbeat();
    }
    assert_eq!(mock_chiller.chiller.heartbeat, 0x0120);
    assert_eq!(mock_chiller.counter_heartbeat, 0);
}

#[test]
fn mock_flowmeter_group_test_request() {
    let group = MockFlowmeterGroup::new(&[1, 3, 6, 20]);

    let response: Vec<u8> = group.request(0, NUM_REGISTER_FLOWMETER);

    assert_eq!(response.len(), 25);
    assert_eq!(response[0], 1);
    assert_eq!(response[1], CODE_READ_HOLDING_REGISTERS);
    assert_eq!(response[2], 20);

    let flowmeter = Flowmeter::from_frame(&response).unwrap();

    assert_eq!(flowmeter, group.flowmeters[0]);
}

#[test]
fn mock_power_grid_monitor_test_request() {
    let mock_monitor = MockPowerGridMonitor::new(3);

    let response = mock_monitor.request(NUM_REGISTER_POWER_GRID_MONITOR);

    assert_eq!(response.len(), 229);
    assert_eq!(response[0], 3);
    assert_eq!(response[1], CODE_READ_HOLDING_REGISTERS);
    assert_eq!(response[2], 224);

    let monitor = PowerGridMonitor::from_frame(&response).unwrap();

    assert_eq!(monitor, mock_monitor.power_grid_monitor);
}

#[test]
fn test_add_motor_status() {
    let mut mock_pier_fan = MockPierFan::new(12);

    mock_pier_fan.add_motor_status(MotorStatusPierFan::FanBlocked);

    assert_eq!(
        mock_pier_fan.pier_fan.motor_status,
        MotorStatusPierFan::FanBad.bit_value() + MotorStatusPierFan::FanBlocked.bit_value()
    );

    mock_pier_fan.add_motor_status(MotorStatusPierFan::HallFailure);

    let expected_motor_status = MotorStatusPierFan::FanBad.bit_value()
        + MotorStatusPierFan::FanBlocked.bit_value()
        + MotorStatusPierFan::HallFailure.bit_value();
    assert_eq!(mock_pier_fan.pier_fan.motor_status, expected_motor_status);

    // Repeated motor status should not change the overall motor status.
    mock_pier_fan.add_motor_status(MotorStatusPierFan::HallFailure);

    assert_eq!(mock_pier_fan.pier_fan.motor_status, expected_motor_status);
}

#[test]
fn test_add_warning() {
    let mut mock_pier_fan = MockPierFan::new(12);

    mock_pier_fan.add_warning(WarningPierFan::DcLinkVoltageLow);

    assert_eq!(mock_pier_fan.pier_fan.warning, WarningPierFan::DcLinkVoltageLow.bit_value());

    mock_pier_fan.add_warning(WarningPierFan::ElectronicsTemperatureHigh);

    let expected_warning = WarningPierFan::DcLinkVoltageLow.bit_value()
        + WarningPierFan::ElectronicsTemperatureHigh.bit_value();
    assert_eq!(mock_pier_fan.pier_fan.warning, expected_warning);

    // Repeated warning should not change the overall warning.
    mock_pier_fan.add_warning(WarningPierFan::ElectronicsTemperatureHigh);

    assert_eq!(mock_pier_fan.pier_fan.warning, expected_warning);
}

#[test]
fn test_reset() {
    let mut mock_pier_fan = MockPierFan::new(12);
    mock_pier_fan.pier_fan.motor_status = 10;
    mock_pier_fan.pier_fan.warning = 10;

    mock_pier_fan.reset();

    assert_eq!(mock_pier_fan.pier_fan.motor_status, 0);
    assert_eq!(mock_pier_fan.pier_fan.warning, 0);
}

#[test]
fn mock_pier_fan_test_request_default_register() {
    let mock_pier_fan = MockPierFan::new(12);

    // No number of registers requested
    let response_0 = mock_pier_fan.request(0, 0);

    assert_eq!(response_0.len(), 5);
    assert_eq!(response_0[0], 12);
    assert_eq!(response_0[1], CODE_READ_HOLDING_REGISTERS);
    assert_eq!(response_0[2], 0);

    // One number of registers requested
    let response_1 = mock_pier_fan.request(0, 1);

    assert_eq!(response_1.len(), 7);
    assert_eq!(response_1[0], 12);
    assert_eq!(response_1[1], CODE_READ_HOLDING_REGISTERS);
    assert_eq!(response_1[2], 2);
}

#[test]
fn test_request_max_speed() {
    let mock_pier_fan = MockPierFan::new(12);

    let response = mock_pier_fan.request(REGISTER_ADDRESS_PIER_FAN_MAXIMUM_SPEED, 1);

    assert_eq!(response.len(), 7);
    assert_eq!(response[0], 12);
    assert_eq!(response[1], CODE_READ_HOLDING_REGISTERS);
    assert_eq!(response[2], 2);
    assert_eq!(u16::from_be_bytes([response[3], response[4]]), PLANT_PIER_FAN_MAX_SPEED);
}

#[test]
fn test_request_ref_dc_link_voltage() {
    let mock_pier_fan = MockPierFan::new(12);

    let response = mock_pier_fan.request(
        REGISTER_ADDRESS_PIER_FAN_REFERENCE_VALUE_OF_DC_LINK_VOLTAGE,
        NUM_REGISTER_PIER_FAN_REFERENCE_VALUE_OF_DC_LINK_VOLTAGE,
    );

    assert_eq!(response.len(), 9);
    assert_eq!(response[0], 12);
    assert_eq!(response[1], CODE_READ_HOLDING_REGISTERS);
    assert_eq!(response[2], 4);
    assert_eq!(
        (u16::from_be_bytes([response[3], response[4]]) as u32)
            * FACTOR_PIER_FAN_DC_LINK_REFERENCE_VOLTAGE,
        PLANT_PIER_FAN_REF_DC_LINK_VOLTAGE,
    );
    assert_eq!(
        (u16::from_be_bytes([response[5], response[6]]) as u32)
            * FACTOR_PIER_FAN_DC_LINK_REFERENCE_CURRENT,
        PLANT_PIER_FAN_REF_DC_LINK_CURRENT,
    );
}

#[test]
fn test_request_actual_speed() {
    let mut mock_pier_fan = MockPierFan::new(12);
    mock_pier_fan.pier_fan.motor_status = 10;
    mock_pier_fan.pier_fan.warning = 12;
    mock_pier_fan.pier_fan.motor_temperature = -15;

    let response = mock_pier_fan.request(
        REGISTER_ADDRESS_PIER_FAN_ACTUAL_SPEED,
        NUM_REGISTER_PIER_FAN_ACTUAL_SPEED,
    );

    assert_eq!(response.len(), 41);
    assert_eq!(response[0], 12);
    assert_eq!(response[1], CODE_READ_HOLDING_REGISTERS);
    assert_eq!(response[2], 36);

    let pier_fan = PierFan::from_frame(&response).unwrap();

    assert_eq!(pier_fan.actual_speed, PLANT_PIER_FAN_ACTUAL_SPEED);
    assert_eq!(pier_fan.motor_status, mock_pier_fan.pier_fan.motor_status);
    assert_eq!(pier_fan.warning, mock_pier_fan.pier_fan.warning);
    assert_eq!(pier_fan.dc_link_voltage, PLANT_PIER_FAN_DC_LINK_VOLTAGE);
    assert_eq!(pier_fan.dc_link_current, PLANT_PIER_FAN_DC_LINK_CURRENT);
    assert_eq!(pier_fan.module_temperature, PLANT_PIER_FAN_MODULE_TEMPERATURE);
    assert_eq!(pier_fan.motor_temperature, mock_pier_fan.pier_fan.motor_temperature);
    assert_eq!(pier_fan.electronics_temperature, PLANT_PIER_FAN_ELECTRONICS_TEMPERATURE);
    assert_eq!(
        pier_fan.current_direction_of_rotation,
        PLANT_PIER_FAN_CURRENT_DIRECTION_OF_ROTATION
    );
    assert_eq!(pier_fan.current_modulation_level, PLANT_PIER_FAN_CURRENT_MODULATION_LEVEL);
    assert_eq!(pier_fan.current_set_value, PLANT_PIER_FAN_CURRENT_SET_VALUE);
    assert_eq!(pier_fan.enable_input_status, PLANT_PIER_FAN_ENABLE_INPUT_STATUS);
    assert_eq!(pier_fan.current_parameter_set, PLANT_PIER_FAN_CURRENT_PARAMETER_SET);
    assert_eq!(
        pier_fan.current_controller_function,
        PLANT_PIER_FAN_CURRENT_CONTROLLER_FUNCTION
    );
    assert_eq!(pier_fan.current_power, PLANT_PIER_FAN_CURRENT_POWER);
    assert_eq!(pier_fan, mock_pier_fan.pier_fan);
}

#[test]
fn test_request_reference_saturates() {
    let mut mock_pier_fan = MockPierFan::new(12);
    mock_pier_fan.ref_dc_link_voltage = 20 * 70000;
    mock_pier_fan.ref_dc_link_current = 7;

    let response = mock_pier_fan.request(
        REGISTER_ADDRESS_PIER_FAN_REFERENCE_VALUE_OF_DC_LINK_VOLTAGE,
        NUM_REGISTER_PIER_FAN_REFERENCE_VALUE_OF_DC_LINK_VOLTAGE,
    );

    assert_eq!(u16::from_be_bytes([response[3], response[4]]), u16::MAX);
    assert_eq!(u16::from_be_bytes([response[5], response[6]]), 3);
}

#[test]
fn mock_pressure_transducer_test_request() {
    let mut pressure_transducer = MockPressureTransducer::new(12);

    // Check the positive pressure.
    let response = pressure_transducer.request();

    assert_eq!(response.len(), BYTES_RESPONSE_PRESSURE);
    assert_eq!(std::str::from_utf8(&response).unwrap(), "@012 014.700 PSI G\r\n");

    // Check the negative pressure (-4.7123456 PSI in thousandths of a PSI).
    pressure_transducer.pressure = (-4.7123456f32 * 1000.0).round() as i32;
    let response = pressure_transducer.request();

    assert_eq!(response.len(), BYTES_RESPONSE_PRESSURE);
    assert_eq!(std::str::from_utf8(&response).unwrap(), "@012 -04.712 PSI G\r\n");
}

#[test]
fn test_mock_pressure_transducer_group_new() {
    let addresses = vec![1, 2, 3];
    let group = MockPressureTransducerGroup::new(&addresses);

    assert_eq!(group.pressure_transducers.len(), addresses.len());
}

#[test]
fn test_mock_pressure_transducer_group_request() {
    let addresses = vec![1, 2, 3];
    let group = MockPressureTransducerGroup::new(&addresses);

    for idx in 0..addresses.len() {
        assert!(!group.request(idx).is_empty());
    }
}

#[test]
fn test_pressure_response_widths() {
    let mut pressure_transducer = MockPressureTransducer::new(7);
    pressure_transducer.pressure = 123456;
    assert_eq!(pressure_transducer.request(), b"@007 123.456 PSI G\r\n".to_vec());
    pressure_transducer.pressure = 1234567;
    assert_eq!(pressure_transducer.request(), b"@007 1234.567 PSI G\r\n".to_vec());
    pressure_transducer.pressure = 5;
    assert_eq!(pressure_transducer.request(), b"@007 000.005 PSI G\r\n".to_vec());
}

/// Temperatures in degrees Celsius as ten-thousandths of a degree.
fn ten_thousandths(temperatures: [f64; 8]) -> [i64; 8] {
    temperatures.map(|temperature| (temperature * 10000.0).round() as i64)
}

#[test]
fn test_set_temperatures_and_get_temperatures() {
    let mut mock_temperature_hub = MockTemperatureHub::new();

    let new_temperatures = ten_thousandths([1.0, 2.0, 3.0, 4.0, 5.0, 6.0, 7.0, 8.0]);
    mock_temperature_hub.set_temperatures(&new_temperatures);

    assert_eq!(mock_temperature_hub.get_temperatures(), new_temperatures);
}

#[test]
fn mock_temperature_hub_test_request() {
    let mut mock_temperature_hub = MockTemperatureHub::new();

    // Default temperatures.
    let response = mock_temperature_hub.request();

    assert_eq!(response.len(), BYTES_RESPONSE_TEMPERATURE);
    assert_eq!(
        std::str::from_utf8(&response).unwrap(),
        "C01=0000.5100,C02=0000.5100,C03=0000.5100,C04=0000.5100,C05=0000.5100,C06=0000.5100,C07=0000.5100,C08=0000.5100\n"
    );

    // Update the temperatures and check the returned string.
    let new_temperatures = ten_thousandths([
        123.03,
        12.04,
        3.123456789123,
        -321.03,
        -132.01234567,
        0.0,
        1234.023,
        -1.0,
    ]);
    mock_temperature_hub.set_temperatures(&new_temperatures);

    let response = mock_temperature_hub.request();

    assert_eq!(response.len(), BYTES_RESPONSE_TEMPERATURE);
    assert_eq!(
        std::str::from_utf8(&response).unwrap(),
        "C01=0123.0300,C02=0012.0400,C03=0003.1235,C04=-321.0300,C05=-132.0123,C06=0000.0000,C07=1234.0230,C08=-001.0000\n"
    );
}

#[test]
fn mock_recirculation_pump_test_new() {
    let mock_pump = MockRecirculationPump::new(1);

    assert_eq!(mock_pump.recirculation_pump.address, 1);
    assert!(!mock_pump.recirculation_pump.cim_configuration.is_none());
    assert!(!mock_pump.recirculation_pump.control.is_none());
    assert!(!mock_pump.recirculation_pump.status.is_none());
    assert!(!mock_pump.recirculation_pump.data.is_none());
}

#[test]
fn test_get_digits_from_string() {
    let digits = MockRecirculationPump::get_digits_from_string("02.30.06.78");

    assert_eq!(digits, vec![0, 2, 3, 0, 0, 6, 7, 8]);
}

#[test]
fn test_combine_digits() {
    let combined = MockRecirculationPump::combine_digits(2, 3);

    assert_eq!(combined, 0x23);
}

#[test]
fn mock_recirculation_pump_test_request_default_register() {
    let mock_pump = MockRecirculationPump::new(1);

    // No number of registers requested
    let response_0 = mock_pump.request(REGISTER_ADDRESS_RECIRCULATION_PUMP_CIM_CONFIGURATION, 0);

    assert_eq!(response_0.len(), 5);
    assert_eq!(response_0[0], 1);
    assert_eq!(response_0[1], CODE_READ_HOLDING_REGISTERS);
    assert_eq!(response_0[2], 0);

    // One number of registers requested
    let response_1 = mock_pump.request(REGISTER_ADDRESS_RECIRCULATION_PUMP_CIM_CONFIGURATION, 1);

    assert_eq!(response_1.len(), 7);
    assert_eq!(response_1[0], 1);
    assert_eq!(response_1[1], CODE_READ_HOLDING_REGISTERS);
    assert_eq!(response_1[2], 2);
}

#[test]
fn test_get_frame_cim_configuration() {
    let mut mock_pump = MockRecirculationPump::new(1);
    mock_pump.recirculation_pump.cim_configuration = Some(RecirculationPumpCimConfiguration {
        slave_minimum_reply_delay: 9123,
        software_defined_modbus_address: 3,
        software_defined_bit_rate: 4,
        auto_ack_control_bits: 1,
        software_defined_parity: 2,
        software_defined_stop_bit: 1,
        watchdog: 1,
        genibus_diode_off: 1,
        genibus_crc_error_cnt: 131,
        genibus_data_error_cnt: 2145,
        version_number: 321,
        actual_modbus_address: mock_pump.recirculation_pump.address as u16,
        genibus_tx_count: 812,
        genibus_rx_count: 793,
        unit_family: 1,
        unit_type: 2,
        unit_version: 31,
        product_software_version: String::from("12.34.56.78"),
        product_software_date: String::from("13/02/2013"),
    });

    let response = mock_pump.request(
        REGISTER_ADDRESS_RECIRCULATION_PUMP_CIM_CONFIGURATION,
        NUM_REGISTER_RECIRCULATION_PUMP_CIM_CONFIGURATION,
    );

    assert_eq!(response.len(), 79);
    assert_eq!(response[0], 1);
    assert_eq!(response[1], CODE_READ_HOLDING_REGISTERS);
    assert_eq!(response[2], 74);

    let pump = RecirculationPump::from_frame(&response, &[], &[], &[]);
    let cim_configuration = pump.cim_configuration.unwrap();

    assert_eq!(cim_configuration, mock_pump.recirculation_pump.cim_configuration.unwrap());
    assert_eq!(pump.address, mock_pump.recirculation_pump.address);
}

#[test]
fn test_get_frame_control() {
    let mut mock_pump = MockRecirculationPump::new(1);
    mock_pump.recirculation_pump.control = Some(RecirculationPumpControl {
        status: 4,
        control_mode: ControlModeRecirculationPump::AutoAdapt,
        operation_mode: OperationModeRecirculationPump::OpenLoopMax,
        // 98.82 percent in hundredths of a percent.
        setpoint: 9882,
        control_pump_1: 2,
    });

    let response = mock_pump.request(
        REGISTER_ADDRESS_RECIRCULATION_PUMP_CONTROL,
        NUM_REGISTER_RECIRCULATION_PUMP_CONTROL,
    );

    assert_eq!(response.len(), 15);
    assert_eq!(response[0], 1);
    assert_eq!(response[1], CODE_READ_HOLDING_REGISTERS);
    assert_eq!(response[2], 10);

    let pump = RecirculationPump::from_frame(&[], &response, &[], &[]);
    let control = pump.control.unwrap();

    assert_eq!(control, mock_pump.recirculation_pump.control.unwrap());
}

#[test]
fn test_get_frame_status() {
    let mut mock_pump = MockRecirculationPump::new(1);
    mock_pump.recirculation_pump.status = Some(RecirculationPumpStatus {
        status: 1234,
        // 97.78 percent in hundredths of a percent.
        process_feedback: 9778,
        control_mode: ControlModeRecirculationPump::AutoAdapt,
        operation_mode: OperationModeRecirculationPump::OpenLoopMin,
        alarm_code: AlarmWarningRecirculationPump::TemperatureControlElectronics,
        warning_code: AlarmWarningRecirculationPump::VentValveDefective,
        pumps_present: 255,
        pumps_running: 127,
        pumps_fault: 128,
        pumps_comm_fault: 128,
        system_active_functions: 16382,
    });

    let response = mock_pump.request(
        REGISTER_ADDRESS_RECIRCULATION_PUMP_STATUS,
        NUM_REGISTER_RECIRCULATION_PUMP_STATUS,
    );

    assert_eq!(response.len(), 29);
    assert_eq!(response[0], 1);
    assert_eq!(response[1], CODE_READ_HOLDING_REGISTERS);
    assert_eq!(response[2], 24);

    let pump = RecirculationPump::from_frame(&[], &[], &response, &[]);
    let status = pump.status.unwrap();

    assert_eq!(status, mock_pump.recirculation_pump.status.unwrap());
}

#[test]
fn test_get_frame_data() {
    let mut mock_pump = MockRecirculationPump::new(1);
    mock_pump.recirculation_pump.data = Some(RecirculationPumpData {
        // Hundredths of a percent and tenths of an ampere.
        relative_performance: 9312,
        actual_setpoint: 9781,
        motor_current: 34,
        power: 34512,
        operation_time: 2316,
        energy: 3,
        user_setpoint: 9882,
    });

    let response = mock_pump.request(
        REGISTER_ADDRESS_RECIRCULATION_PUMP_DATA,
        NUM_REGISTER_RECIRCULATION_PUMP_DATA,
    );

    assert_eq!(response.len(), 91);
    assert_eq!(response[0], 1);
    assert_eq!(response[1], CODE_READ_HOLDING_REGISTERS);
    assert_eq!(response[2], 86);

    let pump = RecirculationPump::from_frame(&[], &[], &[], &response);
    let data = pump.data.unwrap();

    assert_eq!(data, mock_pump.recirculation_pump.data.unwrap());
}

#[test]
fn test_get_frame_cim_configuration_plant_values() {
    let mock_pump = MockRecirculationPump::new(4);

    let response = mock_pump.request(
        REGISTER_ADDRESS_RECIRCULATION_PUMP_CIM_CONFIGURATION,
        NUM_REGISTER_RECIRCULATION_PUMP_CIM_CONFIGURATION,
    );
    // The BCD digits of "02.30.06.78" and "13/02/2013".
    assert_eq!(&response[69..77], &[0x02, 0x30, 0x06, 0x78, 0x13, 0x02, 0x20, 0x13]);
    let pump = RecirculationPump::from_frame(&response, &[], &[], &[]);
    assert_eq!(pump.address, 4);
    assert_eq!(pump.cim_configuration.unwrap().product_software_version, "02.30.06.78");
}
