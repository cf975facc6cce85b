use ts_dynalene::config::{Addresses, Config};
use ts_dynalene::daq::modbus_communicator::ModbusCommunicator;
use ts_dynalene::mock::mock_constants::{
    PLANT_PIER_FAN_MAX_SPEED, PLANT_PIER_FAN_REF_DC_LINK_CURRENT,
    PLANT_PIER_FAN_REF_DC_LINK_VOLTAGE, PLANT_PRESSURE, PLANT_TEMPERATURE,
};
use ts_dynalene::mock::mock_plant::MockPlant;
use ts_dynalene::constants::NUM_TEMPERATURE_CHANNEL;

/// The addresses of the devices of the simulated plant in these tests.
fn communicator_test_config() -> Config {
    Config::new(Addresses {
        pressure_transducer_bus_0: vec![5, 20],
        pressure_transducer_bus_1: vec![10, 11],
        pressure_transducer_bus_2: vec![4],
        flowmeter_bus_0: vec![6],
        flowmeter_bus_1: vec![7],
        flowmeter_bus_2: vec![9],
        power_grid_monitor: vec![2],
        pier_fan: vec![12, 13],
        recirculation_pump: vec![1, 2],
        chiller: vec![1, 1],
    })
}

fn create_communicator_and_plant() -> (ModbusCommunicator, MockPlant) {
    (ModbusCommunicator::new(), MockPlant::new(communicator_test_config()))
}

#[test]
fn test_create_frame_read_flowmeter_and_read() {
    let (communicator, plant) = create_communicator_and_plant();

    let frame_request = communicator.create_frame_read_flowmeter(7);
    let frame_response = plant.request_sensor_flowmeter(1, &frame_request);

    let flowmeter = communicator.read_flowmeter_from_frame(&frame_response.unwrap());

    assert!(flowmeter.is_some());
}

#[test]
fn test_create_frame_read_power_grid_monitor_and_read() {
    let (communicator, plant) = create_communicator_and_plant();

    let frame_request = communicator.create_frame_read_power_grid_monitor(2);
    let frame_response = plant.request_power_grid_monitor(&frame_request);

    let power_grid_monitor = communicator.read_power_grid_monitor_from_frame(&frame_response.unwrap());

    assert!(power_grid_monitor.is_some());
}

#[test]
fn test_create_frame_read_pier_fan_max_speed_and_read() {
    let (communicator, mut plant) = create_communicator_and_plant();

    let frame_request = communicator.create_frame_read_pier_fan_max_speed(12);
    let frame_response = plant.request_pier_fan(&frame_request).unwrap();

    let max_speed = communicator.read_pier_fan_max_speed_from_frame(&frame_response);

    assert_eq!(max_speed.unwrap(), PLANT_PIER_FAN_MAX_SPEED);
}

#[test]
fn test_create_frame_read_pier_fan_ref_dc_link_voltage_current_and_read() {
    let (communicator, mut plant) = create_communicator_and_plant();

    let frame_request = communicator.create_frame_read_pier_fan_ref_dc_link_voltage_and_current(12);
    let frame_response = plant.request_pier_fan(&frame_request).unwrap();

    let (voltage, current) = communicator
        .read_pier_fan_dc_link_voltage_and_current_from_frame(&frame_response)
        .unwrap();

    // The values are in mV and mA.
    assert_eq!(voltage, PLANT_PIER_FAN_REF_DC_LINK_VOLTAGE);
    assert_eq!(current, PLANT_PIER_FAN_REF_DC_LINK_CURRENT);
}

#[test]
fn test_create_frame_read_pier_fan_from_frame_and_read() {
    let (communicator, mut plant) = create_communicator_and_plant();

    let frame_request = communicator.create_frame_read_pier_fan(12);
    let frame_response = plant.request_pier_fan(&frame_request).unwrap();

    let pier_fan = communicator.read_pier_fan_from_frame(&frame_response);

    assert!(pier_fan.is_some());
}

#[test]
fn test_create_frame_read_recirculation_pump_and_read() {
    let (communicator, mut plant) = create_communicator_and_plant();

    let frame_request = communicator.create_frame_read_recirculation_pump(1);
    let frame_response_cim_configuration = plant.request_recirculation_pump(&frame_request[0]).unwrap();
    let frame_response_control = plant.request_recirculation_pump(&frame_request[1]).unwrap();
    let frame_response_status = plant.request_recirculation_pump(&frame_request[2]).unwrap();
    let frame_response_data = plant.request_recirculation_pump(&frame_request[3]).unwrap();

    let recirculation_pump = communicator.read_recirculation_pump_from_frame(
        &frame_response_cim_configuration,
        &frame_response_control,
        &frame_response_status,
        &frame_response_data,
    );

    assert!(recirculation_pump.is_some());
}

#[test]
fn test_create_frame_read_chiller_and_read() {
    let (communicator, mut plant) = create_communicator_and_plant();

    let frame_request = communicator.create_frame_read_chiller(1);
    let frame_response = plant.request_chiller(0, &frame_request).unwrap();

    let chiller = communicator.read_chiller_from_frame(&frame_response);

    assert!(chiller.is_some());
}

#[test]
fn test_create_frame_pier_fan_reset() {
    let (communicator, mut plant) = create_communicator_and_plant();

    let frame_request = communicator.create_frame_pier_fan_reset(12);
    let frame_response = plant.request_pier_fan(&frame_request).unwrap();

    assert_eq!(frame_response, frame_request);
}

#[test]
fn test_create_frame_chiller_set_temperature() {
    let (communicator, mut plant) = create_communicator_and_plant();

    let temperature = 75;
    let frame_request = communicator.create_frame_chiller_set_temperature(0, temperature);
    let frame_response = plant.request_chiller(0, &frame_request).unwrap();

    assert_eq!(frame_response, frame_request);
}

#[test]
fn test_create_frame_read_pressure() {
    let communicator = ModbusCommunicator::new();

    assert_eq!(communicator.create_frame_read_pressure(5), b"#005P\r\n".to_vec());
    assert_eq!(communicator.create_frame_read_pressure(20), b"#020P\r\n".to_vec());
}

#[test]
fn test_read_pressure_from_frame() {
    let (communicator, plant) = create_communicator_and_plant();

    let address = 20;
    let frame_request = communicator.create_frame_read_pressure(address);
    let frame_response = plant.request_sensor_pressure(0, &frame_request);

    let (read_address, pressure) = communicator
        .read_pressure_from_frame(&frame_response.unwrap())
        .unwrap();
    let pressure: f32 = pressure.parse().unwrap();

    // The plant's pressure is given in thousandths of a PSI.
    assert_eq!((read_address, pressure), (address, PLANT_PRESSURE as f32 / 1000.0));
}

#[test]
fn test_read_temperature_from_frame() {
    let (communicator, plant) = create_communicator_and_plant();

    let frame_response = plant.request_sensor_temperatures(0);
    let texts = communicator
        .read_temperature_from_frame(&frame_response.unwrap())
        .unwrap();
    let mut temperatures = [0.0f32; NUM_TEMPERATURE_CHANNEL];
    for (idx, text) in texts.iter().enumerate() {
        temperatures[idx] = text.parse().unwrap();
    }

    // The plant's temperature is given in ten-thousandths of a degree.
    assert_eq!(temperatures, [PLANT_TEMPERATURE as f32 / 10000.0; NUM_TEMPERATURE_CHANNEL]);
}

#[test]
fn test_read_pressure_from_frame_invalid() {
    let communicator = ModbusCommunicator::new();

    // Wrong length.
    assert!(communicator.read_pressure_from_frame(b"@020 014.700 PSI G\r").is_none());
    // A negative pressure does not match the pattern.
    assert!(communicator.read_pressure_from_frame(b"@020 -04.712 PSI G\r\n").is_none());
    // An address that is no u8.
    assert!(communicator.read_pressure_from_frame(b"@300 014.700 PSI G\r\n").is_none());
    // Not UTF-8.
    let mut frame = b"@020 014.700 PSI G\r\n".to_vec();
    frame[6] = 0xFF;
    assert!(communicator.read_pressure_from_frame(&frame).is_none());
    // A valid one.
    let (address, pressure) = communicator.read_pressure_from_frame(b"@005 001.250 PSI G\r\n").unwrap();
    assert_eq!(address, 5);
    assert_eq!(pressure, "001.250");
}

#[test]
fn test_read_temperature_from_frame_invalid() {
    let communicator = ModbusCommunicator::new();
    assert!(communicator.read_temperature_from_frame(b"C01=0000.5100\n").is_none());
}

#[test]
fn test_pressure_from_captures() {
    let communicator = ModbusCommunicator::new();
    let groups = vec![
        Some(String::from("@012 014.700 ")),
        Some(String::from("012")),
        Some(String::from("014.700")),
    ];
    assert_eq!(
        communicator.pressure_from_captures(Some(groups)),
        Some((12, String::from("014.700")))
    );
    assert_eq!(communicator.pressure_from_captures(None), None);
    let missing = vec![Some(String::from("@")), Some(String::from("12"))];
    assert_eq!(communicator.pressure_from_captures(Some(missing)), None);
}

#[test]
fn test_temperatures_from_captures() {
    let communicator = ModbusCommunicator::new();
    let mut matches = Vec::new();
    for k in 0..10 {
        matches.push(vec![Some(format!("C{:02}=000{}.0000", k + 1, k)), Some(format!("000{}.0000", k))]);
    }
    let texts = communicator.temperatures_from_captures(matches).unwrap();
    assert_eq!(texts.len(), NUM_TEMPERATURE_CHANNEL);
    assert_eq!(texts[7], "0007.0000");
    let missing = vec![vec![Some(String::from("C01="))]];
    assert_eq!(communicator.temperatures_from_captures(missing), None);
}
