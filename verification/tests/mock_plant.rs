use ts_dynalene::config::{Addresses, Config};
use ts_dynalene::constants::{
    BYTES_HOLDING_REGISTER, BYTES_RESPONSE_TEMPERATURE, CODE_READ_HOLDING_REGISTERS,
    CODE_WRITE_SINGLE_REGISTER, NUM_BUS_PRESSURE_TRANSDUCER, NUM_REGISTER_FLOWMETER,
    NUM_REGISTER_POWER_GRID_MONITOR, NUM_REGISTER_RECIRCULATION_PUMP_CIM_CONFIGURATION,
    NUM_TEMPERATURE_CHANNEL, NUM_TEMPERATURE_HUB, REGISTER_ADDRESS_CHILLER_TEMPERATURE_SETPOINT,
    REGISTER_ADDRESS_FLOWMETER, REGISTER_ADDRESS_PIER_FAN_MAXIMUM_SPEED,
    REGISTER_ADDRESS_PIER_FAN_RESET, REGISTER_ADDRESS_POWER_GRID_MONITOR,
    REGISTER_ADDRESS_RECIRCULATION_PUMP_CIM_CONFIGURATION,
};
use ts_dynalene::daq::flowmeter::Flowmeter;
use ts_dynalene::daq::power_grid_monitor::PowerGridMonitor;
use ts_dynalene::daq::recirculation_pump::RecirculationPump;
use ts_dynalene::enums::{AnalogInput, AnalogOutput, DigitalInputMod4, DigitalInputMod7, DigitalOutput};
use ts_dynalene::mock::mock_constants::PLANT_TANK_LEVEL_VOLTAGE;
use ts_dynalene::mock::mock_plant::MockPlant;
use std::str::from_utf8;

/// The addresses of the devices of the simulated plant in these tests.
fn plant_test_config() -> Config {
    Config::new(Addresses {
        pressure_transducer_bus_0: vec![5, 20],
        pressure_transducer_bus_1: vec![10, 11],
        pressure_transducer_bus_2: vec![4],
        flowmeter_bus_0: vec![6],
        flowmeter_bus_1: vec![7],
        flowmeter_bus_2: vec![9],
        power_grid_monitor: vec![2],
        pier_fan: vec![12, 13],
        recirculation_pump: vec![1, 2],
        chiller: vec![1, 1],
    })
}

fn create_frame_read_holding_registers(
    address: u8,
    register_address: u16,
    num_register: u16,
) -> [u8; BYTES_HOLDING_REGISTER] {
    let mut frame = [0; BYTES_HOLDING_REGISTER];
    frame[0] = address;
    frame[1] = CODE_READ_HOLDING_REGISTERS;
    frame[2..4].copy_from_slice(&register_address.to_be_bytes());
    frame[4..6].copy_from_slice(&num_register.to_be_bytes());
    // CRC verify code is not calculated for the mock frame.
    frame
}

fn create_frame_write_single_register(
    address: u8,
    register_address: u16,
    value: u16,
) -> [u8; BYTES_HOLDING_REGISTER] {
    let mut frame = [0; BYTES_HOLDING_REGISTER];
    frame[0] = address;
    frame[1] = CODE_WRITE_SINGLE_REGISTER;
    frame[2..4].copy_from_slice(&register_address.to_be_bytes());
    frame[4..6].copy_from_slice(&value.to_be_bytes());
    // CRC verify code is not calculated for the mock frame.
    frame
}

#[test]
fn mock_plant_test_new() {
    let plant = MockPlant::new(plant_test_config());

    assert_eq!(plant.digital_inputs_mod4, 682);
    assert_eq!(
        plant.analog_inputs[AnalogInput::ReadoutTank1.value()],
        PLANT_TANK_LEVEL_VOLTAGE
    );
    assert_eq!(
        plant.analog_inputs[AnalogInput::ReadoutTank2.value()],
        PLANT_TANK_LEVEL_VOLTAGE
    );
}

#[test]
fn test_set_sensor_temperatures() {
    let mut plant = MockPlant::new(plant_test_config());

    // 20.03 degrees Celsius in ten-thousandths of a degree.
    let temperatures = [200300i64; NUM_TEMPERATURE_CHANNEL];
    for idx in 0..NUM_TEMPERATURE_HUB {
        plant.set_sensor_temperatures(idx, &temperatures);

        assert_eq!(plant.sensor_temperature_hubs[idx].get_temperatures(), temperatures);
    }
}

#[test]
fn test_request_sensor_temperatures() {
    let plant = MockPlant::new(plant_test_config());

    // Valid
    for idx in 0..NUM_TEMPERATURE_HUB {
        assert_eq!(
            plant.request_sensor_temperatures(idx).unwrap().len(),
            BYTES_RESPONSE_TEMPERATURE
        );
    }

    // Invalid
    assert!(plant.request_sensor_temperatures(NUM_TEMPERATURE_HUB).is_none())
}

#[test]
fn test_request_sensor_pressure() {
    let plant = MockPlant::new(plant_test_config());

    // Valid
    assert_eq!(
        from_utf8(&plant.request_sensor_pressure(0, &"#005P\r\n".as_bytes()).unwrap()).unwrap(),
        "@005 014.700 PSI G\r\n"
    );
    assert_eq!(
        from_utf8(&plant.request_sensor_pressure(0, &"#020P\r\n".as_bytes()).unwrap()).unwrap(),
        "@020 014.700 PSI G\r\n"
    );
    assert_eq!(
        from_utf8(&plant.request_sensor_pressure(2, &"#004P\r\n".as_bytes()).unwrap()).unwrap(),
        "@004 014.700 PSI G\r\n"
    );

    // Invalid
    assert!(plant
        .request_sensor_pressure(NUM_BUS_PRESSURE_TRANSDUCER, &"005P\r\n".as_bytes())
        .is_none());
    assert!(plant
        .request_sensor_pressure(NUM_BUS_PRESSURE_TRANSDUCER, &"#005\r\n".as_bytes())
        .is_none());

    assert!(plant
        .request_sensor_pressure(NUM_BUS_PRESSURE_TRANSDUCER, &"#000P\r\n".as_bytes())
        .is_none());
    assert!(plant.request_sensor_pressure(0, &"#999P\r\n".as_bytes()).is_none());
}

#[test]
fn test_request_sensor_pressure_command_format() {
    let plant = MockPlant::new(plant_test_config());

    // Only "#<address>P\r\n" with a three-digit address is answered.
    assert!(plant.request_sensor_pressure(0, &"#005P\r\n".as_bytes()).is_some());
    assert!(plant.request_sensor_pressure(0, &"005P\r\n".as_bytes()).is_none());
    assert!(plant.request_sensor_pressure(0, &"##005P\r\n".as_bytes()).is_none());
    assert!(plant.request_sensor_pressure(0, &"#5P\r\n".as_bytes()).is_none());
    assert!(plant.request_sensor_pressure(0, &"#+05P\r\n".as_bytes()).is_none());
    assert!(plant.request_sensor_pressure(0, &"#005P\r\nP\r\n".as_bytes()).is_none());
    assert!(plant.request_sensor_pressure(0, &"#005\r\n".as_bytes()).is_none());
    assert!(plant.request_sensor_pressure(0, &"#256P\r\n".as_bytes()).is_none());
    // Not UTF-8.
    assert!(plant.request_sensor_pressure(0, &[0x23, 0xFF, 0x50, 0x0D, 0x0A]).is_none());
}

#[test]
fn test_request_sensor_flowmeter() {
    let plant = MockPlant::new(plant_test_config());

    // Valid
    let mut command = create_frame_read_holding_registers(7, REGISTER_ADDRESS_FLOWMETER, NUM_REGISTER_FLOWMETER);

    let response = plant.request_sensor_flowmeter(1, &command).unwrap();
    let flowmeter = Flowmeter::from_frame(&response).unwrap();

    assert_eq!(flowmeter.address, 7);

    // Invalid
    assert!(plant.request_sensor_flowmeter(3, &command).is_none());

    command[0] = 8;
    assert!(plant.request_sensor_flowmeter(1, &command).is_none());
}

#[test]
fn test_request_power_grid_monitor() {
    let plant = MockPlant::new(plant_test_config());

    // Valid
    let mut command = create_frame_read_holding_registers(
        2,
        REGISTER_ADDRESS_POWER_GRID_MONITOR,
        NUM_REGISTER_POWER_GRID_MONITOR,
    );

    let response = plant.request_power_grid_monitor(&command).unwrap();
    let power_grid_monitor = PowerGridMonitor::from_frame(&response).unwrap();

    assert_eq!(power_grid_monitor.address, 2);

    // Invalid
    command[0] = 8;
    assert!(plant.request_power_grid_monitor(&command).is_none());
}

#[test]
fn test_request_pier_fan_write_single_register() {
    let mut plant = MockPlant::new(plant_test_config());
    plant.pier_fans[0].pier_fan.motor_status = 10;
    plant.pier_fans[0].pier_fan.warning = 10;

    let command = create_frame_write_single_register(12, REGISTER_ADDRESS_PIER_FAN_RESET, 1);

    let response = plant.request_pier_fan(&command).unwrap();

    assert_eq!(response, command);

    assert_eq!(plant.pier_fans[1].pier_fan.motor_status, 0);
    assert_eq!(plant.pier_fans[1].pier_fan.warning, 0);
}

#[test]
fn test_request_pier_fan_reset_clears_addressed_fan() {
    let mut plant = MockPlant::new(plant_test_config());
    plant.pier_fans[0].pier_fan.motor_status = 10;
    plant.pier_fans[1].pier_fan.warning = 10;

    let command = create_frame_write_single_register(12, REGISTER_ADDRESS_PIER_FAN_RESET, 1);
    plant.request_pier_fan(&command).unwrap();

    assert_eq!(plant.pier_fans[0].pier_fan.motor_status, 0);
    assert_eq!(plant.pier_fans[1].pier_fan.warning, 10);

    // A write to another register is refused.
    let command = create_frame_write_single_register(13, 0x1234, 1);
    assert!(plant.request_pier_fan(&command).is_none());
    assert_eq!(plant.pier_fans[1].pier_fan.warning, 10);
}

#[test]
fn test_request_pier_fan_read_holding_registers() {
    let mut plant = MockPlant::new(plant_test_config());

    // Valid to read the holding registers
    let mut command = create_frame_read_holding_registers(12, REGISTER_ADDRESS_PIER_FAN_MAXIMUM_SPEED, 1);

    let response = plant.request_pier_fan(&command).unwrap();

    assert_eq!(response.len(), 7);
    assert_eq!(response[0], 12);

    // Invalid
    command[0] = 8;
    assert!(plant.request_pier_fan(&command).is_none());
}

#[test]
fn test_request_recirculation_pump() {
    let mut plant = MockPlant::new(plant_test_config());

    // Valid to read the holding registers
    let command = create_frame_read_holding_registers(
        1,
        REGISTER_ADDRESS_RECIRCULATION_PUMP_CIM_CONFIGURATION,
        NUM_REGISTER_RECIRCULATION_PUMP_CIM_CONFIGURATION,
    );

    let response = plant.request_recirculation_pump(&command).unwrap();
    let recirculation_pump = RecirculationPump::from_frame(&response, &[], &[], &[]);

    assert_eq!(recirculation_pump.address, 1);
    assert_eq!(recirculation_pump.cim_configuration.unwrap().actual_modbus_address, 1);
}

#[test]
fn test_request_chiller_write_single_register() {
    let mut plant = MockPlant::new(plant_test_config());

    let command = create_frame_write_single_register(1, REGISTER_ADDRESS_CHILLER_TEMPERATURE_SETPOINT, 13);
    let response = plant.request_chiller(0, &command).unwrap();

    assert_eq!(response, command);

    assert_eq!(plant.chillers[0].chiller.temperature_setpoint, 13);
}

#[test]
fn test_request_chiller_read_holding_registers() {
    let mut plant = MockPlant::new(plant_test_config());

    // Valid to read the holding registers
    let mut command = create_frame_read_holding_registers(1, REGISTER_ADDRESS_CHILLER_TEMPERATURE_SETPOINT, 1);

    let response = plant.request_chiller(0, &command).unwrap();

    assert_eq!(response.len(), 7);
    assert_eq!(response[0], 1);

    // Invalid
    command[1] = 8;
    assert!(plant.request_chiller(0, &command).is_none());
}

#[test]
fn mock_plant_test_switch_digital_output() {
    let mut plant = MockPlant::new(plant_test_config());

    // First time to switch on the digital output
    plant.switch_digital_output(DigitalOutput::OpenMov5, true);
    assert_eq!(plant.digital_outputs, DigitalOutput::OpenMov5.bit_value());

    // Switch the same digital output on again to ensure it remains on
    plant.switch_digital_output(DigitalOutput::OpenMov5, true);
    assert_eq!(plant.digital_outputs, DigitalOutput::OpenMov5.bit_value());

    // Switch on another digital output to ensure multiple outputs can be
    // on simultaneously
    plant.switch_digital_output(DigitalOutput::PowerPierFan1, true);
    assert_eq!(
        plant.digital_outputs,
        DigitalOutput::OpenMov5.bit_value() + DigitalOutput::PowerPierFan1.bit_value()
    );
    assert!(plant.digital_inputs_mod7 & DigitalInputMod7::StatusK3.bit_value() != 0);

    // Switch off the first digital output to ensure it is turned off
    // correctly
    plant.switch_digital_output(DigitalOutput::OpenMov5, false);
    assert_eq!(plant.digital_outputs, DigitalOutput::PowerPierFan1.bit_value());

    // Switch off a digital output that is already off to ensure no change
    // occurs
    plant.switch_digital_output(DigitalOutput::OpenMov5, false);
    assert_eq!(plant.digital_outputs, DigitalOutput::PowerPierFan1.bit_value());

    // Switch off the last remaining digital output to ensure all outputs
    // are off
    plant.switch_digital_output(DigitalOutput::PowerPierFan1, false);
    assert_eq!(plant.digital_outputs, 0);
    assert!(plant.digital_inputs_mod7 & DigitalInputMod7::StatusK3.bit_value() == 0);
}

#[test]
fn test_update_digital_inputs() {
    let mut plant = MockPlant::new(plant_test_config());

    plant.update_digital_inputs(DigitalOutput::PowerRecirculationPump1, true);
    assert!(plant.digital_inputs_mod4 & DigitalInputMod4::StatusK1.bit_value() != 0);

    plant.update_digital_inputs(DigitalOutput::PowerRecirculationPump1, false);
    assert!(plant.digital_inputs_mod4 & DigitalInputMod4::StatusK1.bit_value() == 0);

    plant.update_digital_inputs(DigitalOutput::PowerRecirculationPump2, true);
    assert!(plant.digital_inputs_mod4 & DigitalInputMod4::StatusK2.bit_value() != 0);

    plant.update_digital_inputs(DigitalOutput::PowerRecirculationPump2, false);
    assert!(plant.digital_inputs_mod4 & DigitalInputMod4::StatusK2.bit_value() == 0);

    plant.update_digital_inputs(DigitalOutput::PowerPierFan1, true);
    assert!(plant.digital_inputs_mod7 & DigitalInputMod7::StatusK3.bit_value() != 0);

    plant.update_digital_inputs(DigitalOutput::PowerPierFan1, false);
    assert!(plant.digital_inputs_mod7 & DigitalInputMod7::StatusK3.bit_value() == 0);

    plant.update_digital_inputs(DigitalOutput::PowerPierFan2, true);
    assert!(plant.digital_inputs_mod7 & DigitalInputMod7::StatusK4.bit_value() != 0);

    plant.update_digital_inputs(DigitalOutput::PowerPierFan2, false);
    assert!(plant.digital_inputs_mod7 & DigitalInputMod7::StatusK4.bit_value() == 0);

    plant.update_digital_inputs(DigitalOutput::PowerChiller1, true);
    assert!(plant.digital_inputs_mod4 & DigitalInputMod4::StatusK21.bit_value() != 0);

    plant.update_digital_inputs(DigitalOutput::PowerChiller1, false);
    assert!(plant.digital_inputs_mod4 & DigitalInputMod4::StatusK21.bit_value() == 0);

    plant.update_digital_inputs(DigitalOutput::PowerChiller2, true);
    assert!(plant.digital_inputs_mod4 & DigitalInputMod4::StatusK22.bit_value() != 0);

    plant.update_digital_inputs(DigitalOutput::PowerChiller2, false);
    assert!(plant.digital_inputs_mod4 & DigitalInputMod4::StatusK22.bit_value() == 0);
}

#[test]
fn test_update_digital_inputs_valves() {
    let mut plant = MockPlant::new(plant_test_config());

    plant.update_digital_inputs(DigitalOutput::OpenMov2, true);
    assert!(plant.digital_inputs_mod4 & DigitalInputMod4::OpenFeedbackMov2.bit_value() != 0);
    assert!(plant.digital_inputs_mod4 & DigitalInputMod4::CloseFeedbackMov2.bit_value() == 0);

    plant.update_digital_inputs(DigitalOutput::OpenMov2, false);
    assert_eq!(plant.digital_inputs_mod4, 682);
}

#[test]
fn test_write_analog_output() {
    let mut plant = MockPlant::new(plant_test_config());

    let value = 55.0f64.to_bits();
    plant.write_analog_output(AnalogOutput::CommandValueCmv2, value);

    assert_eq!(plant.analog_outputs[AnalogOutput::CommandValueCmv2.value()], value);
    assert_eq!(plant.analog_inputs[AnalogInput::ReadoutCmv2.value()], value);
}

#[test]
fn test_read_analog_input() {
    let mut plant = MockPlant::new(plant_test_config());

    let value = 42.0f64.to_bits();
    plant.analog_inputs[AnalogInput::ReadoutPcv1.value()] = value;

    assert_eq!(plant.read_analog_input(AnalogInput::ReadoutPcv1), value);
}
