use ts_dynalene::config::{Addresses, Config};
use ts_dynalene::daq::data_acquisition::DataAcquisition;
use ts_dynalene::enums::{DigitalInputMod4, DigitalOutput};

/// The addresses of the devices of the simulated plant in these tests.
fn acquisition_test_config() -> Config {
    Config::new(Addresses {
        pressure_transducer_bus_0: vec![5, 20],
        pressure_transducer_bus_1: vec![10, 11],
        pressure_transducer_bus_2: vec![4],
        flowmeter_bus_0: vec![6],
        flowmeter_bus_1: vec![7],
        flowmeter_bus_2: vec![9],
        power_grid_monitor: vec![2],
        pier_fan: vec![12, 13],
        recirculation_pump: vec![1, 2],
        chiller: vec![1, 1],
    })
}

/// The command voltage of a valve opened by `percentage`, as the application
/// computes it for an analog output range of 10 V.
fn command_voltage(percentage: f64) -> u64 {
    (percentage.clamp(0.0, 100.0) / 100.0 * 10.0).to_bits()
}

/// The opening in percent that the readout voltage `value` means.
fn opening_percentage(value: u64) -> f64 {
    f64::from_bits(value) / 10.0 * 100.0
}

#[test]
fn test_is_simulation_mode() {
    let data_acquisition = DataAcquisition::new(true, acquisition_test_config());
    assert!(data_acquisition.is_simulation_mode());

    let data_acquisition = DataAcquisition::new(false, acquisition_test_config());
    assert!(!data_acquisition.is_simulation_mode());
}

#[test]
fn data_acquisition_test_switch_digital_output() {
    let mut data_acquisition = DataAcquisition::new(true, acquisition_test_config());

    // Switch the digital output on
    let digital_output = DigitalOutput::OpenMov5;
    data_acquisition.switch_digital_output(digital_output, true);

    assert_eq!(
        data_acquisition.plant.as_ref().unwrap().digital_outputs,
        DigitalOutput::OpenMov5.bit_value()
    );

    // Switch the digital output off
    data_acquisition.switch_digital_output(digital_output, false);

    assert_eq!(data_acquisition.plant.as_ref().unwrap().digital_outputs, 0);
}

#[test]
fn test_open_motor_operated_valve() {
    let mut data_acquisition = DataAcquisition::new(true, acquisition_test_config());

    // Valid indices
    let digital_input_open_feedbacks = [
        DigitalInputMod4::OpenFeedbackMov1,
        DigitalInputMod4::OpenFeedbackMov2,
        DigitalInputMod4::OpenFeedbackMov3,
        DigitalInputMod4::OpenFeedbackMov4,
        DigitalInputMod4::OpenFeedbackMov5,
    ];
    let digital_input_close_feedbacks = [
        DigitalInputMod4::CloseFeedbackMov1,
        DigitalInputMod4::CloseFeedbackMov2,
        DigitalInputMod4::CloseFeedbackMov3,
        DigitalInputMod4::CloseFeedbackMov4,
        DigitalInputMod4::CloseFeedbackMov5,
    ];
    for idx in 0..5 {
        // Open the valve
        assert!(data_acquisition.open_motor_operated_valve(idx, true).is_some());
        assert_eq!(
            data_acquisition.plant.as_ref().unwrap().digital_outputs,
            DigitalOutput::OpenMov1.bit_value() << idx
        );
        assert!(
            data_acquisition.plant.as_ref().unwrap().digital_inputs_mod4
                & digital_input_open_feedbacks[idx].bit_value()
                != 0
        );
        assert!(
            data_acquisition.plant.as_ref().unwrap().digital_inputs_mod4
                & digital_input_close_feedbacks[idx].bit_value()
                == 0
        );

        // Close the valve
        assert!(data_acquisition.open_motor_operated_valve(idx, false).is_some());
        assert_eq!(data_acquisition.plant.as_ref().unwrap().digital_outputs, 0);
        assert!(
            data_acquisition.plant.as_ref().unwrap().digital_inputs_mod4
                & digital_input_close_feedbacks[idx].bit_value()
                != 0
        );
        assert!(
            data_acquisition.plant.as_ref().unwrap().digital_inputs_mod4
                & digital_input_open_feedbacks[idx].bit_value()
                == 0
        );
    }

    // Invalid index
    assert!(data_acquisition.open_motor_operated_valve(5, true).is_none());
}

#[test]
fn test_open_pressure_control_valve_invalid_index() {
    let mut data_acquisition = DataAcquisition::new(true, acquisition_test_config());

    assert!(data_acquisition
        .command_pressure_control_valve(2, command_voltage(50.0))
        .is_none());
}

#[test]
fn test_open_control_mixing_valve_invalid_index() {
    let mut data_acquisition = DataAcquisition::new(true, acquisition_test_config());

    assert!(data_acquisition
        .command_control_mixing_valve(3, command_voltage(50.0))
        .is_none());
}

#[test]
fn test_read_percentage_of_pressure_control_valve_invalid_index() {
    let data_acquisition = DataAcquisition::new(true, acquisition_test_config());

    assert!(data_acquisition.read_pressure_control_valve(2).is_none());
}

#[test]
fn test_read_percentage_of_control_mixing_valve_valid_index() {
    let data_acquisition = DataAcquisition::new(true, acquisition_test_config());

    assert!(data_acquisition.read_control_mixing_valve(3).is_none());
}

#[test]
fn test_open_pressure_control_valve_and_read_percentage() {
    let mut data_acquisition = DataAcquisition::new(true, acquisition_test_config());

    let percentage = 54.0;
    for idx in 0..2 {
        assert!(data_acquisition
            .command_pressure_control_valve(idx, command_voltage(percentage))
            .is_some());
        assert_eq!(
            opening_percentage(data_acquisition.read_pressure_control_valve(idx).unwrap()),
            percentage
        );
    }
}

#[test]
fn test_open_control_mixing_valve_and_read_percentage() {
    let mut data_acquisition = DataAcquisition::new(true, acquisition_test_config());

    let percentage = 54.0;
    for idx in 0..3 {
        assert!(data_acquisition
            .command_control_mixing_valve(idx, command_voltage(percentage))
            .is_some());
        assert_eq!(
            opening_percentage(data_acquisition.read_control_mixing_valve(idx).unwrap()),
            percentage
        );
    }
}
