use vstd::prelude::*;
use crate::config::{Addresses, Config};
use crate::daq::modbus_communicator::ModbusCommunicator;
use crate::enums::{AnalogInput, AnalogOutput, DigitalOutput};
use crate::mock::mock_plant::{
    digital_inputs_after, mirrored_input, switched, valve_output, MockPlant,
};

verus! {

/// A copy of the address list `addresses`.
fn copy_addresses(addresses: &Vec<u8>) -> (copy: Vec<u8>)
    ensures
        copy@ == addresses@,
{
    vstd::slice::slice_to_vec(addresses.as_slice())
}

impl Addresses {
    /// A copy of the addresses.
    pub fn duplicate(&self) -> (copy: Addresses)
        ensures
            copy.pressure_transducer_bus_0@ == self.pressure_transducer_bus_0@,
            copy.pressure_transducer_bus_1@ == self.pressure_transducer_bus_1@,
            copy.pressure_transducer_bus_2@ == self.pressure_transducer_bus_2@,
            copy.flowmeter_bus_0@ == self.flowmeter_bus_0@,
            copy.flowmeter_bus_1@ == self.flowmeter_bus_1@,
            copy.flowmeter_bus_2@ == self.flowmeter_bus_2@,
            copy.power_grid_monitor@ == self.power_grid_monitor@,
            copy.pier_fan@ == self.pier_fan@,
            copy.recirculation_pump@ == self.recirculation_pump@,
            copy.chiller@ == self.chiller@,
    {
        Addresses {
            pressure_transducer_bus_0: copy_addresses(&self.pressure_transducer_bus_0),
            pressure_transducer_bus_1: copy_addresses(&self.pressure_transducer_bus_1),
            pressure_transducer_bus_2: copy_addresses(&self.pressure_transducer_bus_2),
            flowmeter_bus_0: copy_addresses(&self.flowmeter_bus_0),
            flowmeter_bus_1: copy_addresses(&self.flowmeter_bus_1),
            flowmeter_bus_2: copy_addresses(&self.flowmeter_bus_2),
            power_grid_monitor: copy_addresses(&self.power_grid_monitor),
            pier_fan: copy_addresses(&self.pier_fan),
            recirculation_pump: copy_addresses(&self.recirculation_pump),
            chiller: copy_addresses(&self.chiller),
        }
    }
}

/// The analog output that commands the pressure control valve `idx`, if
/// there is one (0 and 1).
pub open spec fn pressure_control_valve_output(idx: int) -> Option<AnalogOutput> {
    if idx == 0 {
        Some(AnalogOutput::CommandValuePcv1)
    } else if idx == 1 {
        Some(AnalogOutput::CommandValuePcv2)
    } else {
        None
    }
}

/// The analog input that reads back the pressure control valve `idx`, if
/// there is one (0 and 1).
pub open spec fn pressure_control_valve_input(idx: int) -> Option<AnalogInput> {
    if idx == 0 {
        Some(AnalogInput::ReadoutPcv1)
    } else if idx == 1 {
        Some(AnalogInput::ReadoutPcv2)
    } else {
        None
    }
}

/// The analog output that commands the control mixing valve `idx`, if
/// there is one (0 to 2).
pub open spec fn control_mixing_valve_output(idx: int) -> Option<AnalogOutput> {
    if idx == 0 {
        Some(AnalogOutput::CommandValueCmv1)
    } else if idx == 1 {
        Some(AnalogOutput::CommandValueCmv2)
    } else if idx == 2 {
        Some(AnalogOutput::CommandValueCmv20)
    } else {
        None
    }
}

/// The analog input that reads back the control mixing valve `idx`, if
/// there is one (0 to 2).
pub open spec fn control_mixing_valve_input(idx: int) -> Option<AnalogInput> {
    if idx == 0 {
        Some(AnalogInput::ReadoutCmv1)
    } else if idx == 1 {
        Some(AnalogInput::ReadoutCmv2)
    } else if idx == 2 {
        Some(AnalogInput::ReadoutCmv20)
    } else {
        None
    }
}

/// The data acquisition of the plant: in simulation mode it drives a
/// simulated plant.
pub struct DataAcquisition {
    /// Configuration.
    pub config: Config,
    /// Modbus communicator.
    pub modbus: ModbusCommunicator,
    /// The simulated plant, in simulation mode.
    pub plant: Option<MockPlant>,
}

impl DataAcquisition {
    /// Whether the simulated plant, if any, is well formed.
    pub open spec fn well_formed(&self) -> bool {
        self.plant matches Some(plant) ==> plant.well_formed()
    }

    /// The data acquisition with the configuration `config`; in simulation
    /// mode (`is_simulation_mode`) it drives a simulated plant with the
    /// devices of the configuration, in the state in which the plant is
    /// built.
    pub fn new(is_simulation_mode: bool, config: Config) -> (data_acquisition: DataAcquisition)
        ensures
            data_acquisition.well_formed(),
            data_acquisition.config == config,
            data_acquisition.plant is Some <==> is_simulation_mode,
            data_acquisition.plant matches Some(plant) ==> {
                &&& plant.addresses.pressure_transducer_bus_0@ == config.addresses.pressure_transducer_bus_0@
                &&& plant.addresses.pressure_transducer_bus_1@ == config.addresses.pressure_transducer_bus_1@
                &&& plant.addresses.pressure_transducer_bus_2@ == config.addresses.pressure_transducer_bus_2@
                &&& plant.addresses.flowmeter_bus_0@ == config.addresses.flowmeter_bus_0@
                &&& plant.addresses.flowmeter_bus_1@ == config.addresses.flowmeter_bus_1@
                &&& plant.addresses.flowmeter_bus_2@ == config.addresses.flowmeter_bus_2@
                &&& plant.addresses.power_grid_monitor@ == config.addresses.power_grid_monitor@
                &&& plant.addresses.pier_fan@ == config.addresses.pier_fan@
                &&& plant.addresses.recirculation_pump@ == config.addresses.recirculation_pump@
                &&& plant.addresses.chiller@ == config.addresses.chiller@
                &&& plant.is_initial()
            },
    {
        // Plant model
        let plant = if is_simulation_mode {
            Some(MockPlant::new(Config::new(config.addresses.duplicate())))
        } else {
            None
        };
        DataAcquisition { config, modbus: ModbusCommunicator::new(), plant }
    }

    /// Whether the data acquisition drives a simulated plant.
    pub fn is_simulation_mode(&self) -> (simulation: bool)
        ensures
            simulation == self.plant is Some,
    {
        self.plant.is_some()
    }

    /// Switch the digital output `digital_output` on (`switch_on`) or off;
    /// only the simulated plant is driven.
    pub fn switch_digital_output(&mut self, digital_output: DigitalOutput, switch_on: bool) -> (done:
        Option<()>)
        requires
            old(self).plant is Some,
        ensures
            done is Some,
            final(self).config == old(self).config,
            final(self).plant matches Some(plant) && {
                let before = old(self).plant->0;
                &&& plant.digital_outputs == switched(
                    before.digital_outputs,
                    digital_output.spec_bit_value(),
                    switch_on,
                )
                &&& (plant.digital_inputs_mod4, plant.digital_inputs_mod7) == digital_inputs_after(
                    before.digital_inputs_mod4,
                    before.digital_inputs_mod7,
                    digital_output,
                    switch_on,
                )
                &&& plant == (MockPlant {
                    digital_outputs: plant.digital_outputs,
                    digital_inputs_mod4: plant.digital_inputs_mod4,
                    digital_inputs_mod7: plant.digital_inputs_mod7,
                    ..before
                })
            },
    {
        match &mut self.plant {
            Some(plant) => {
                plant.switch_digital_output(digital_output, switch_on);
                Some(())
            },
            None => None,
        }
    }

    /// Open (`switch_on`) or close the motor operated valve `idx` (0 to 4);
    /// `None` for another index.
    pub fn open_motor_operated_valve(&mut self, idx: usize, switch_on: bool) -> (done: Option<()>)
        requires
            idx < 5 ==> old(self).plant is Some,
        ensures
            done is Some <==> idx < 5,
            final(self).config == old(self).config,
            idx >= 5 ==> final(self).plant == old(self).plant,
            idx < 5 ==> (final(self).plant matches Some(plant) && {
                let before = old(self).plant->0;
                &&& plant.digital_outputs == switched(
                    before.digital_outputs,
                    valve_output(idx as int).spec_bit_value(),
                    switch_on,
                )
                &&& (plant.digital_inputs_mod4, plant.digital_inputs_mod7) == digital_inputs_after(
                    before.digital_inputs_mod4,
                    before.digital_inputs_mod7,
                    valve_output(idx as int),
                    switch_on,
                )
                &&& plant == (MockPlant {
                    digital_outputs: plant.digital_outputs,
                    digital_inputs_mod4: plant.digital_inputs_mod4,
                    digital_inputs_mod7: plant.digital_inputs_mod7,
                    ..before
                })
            }),
    {
        let digital_output = match idx {
            0 => DigitalOutput::OpenMov1,
            1 => DigitalOutput::OpenMov2,
            2 => DigitalOutput::OpenMov3,
            3 => DigitalOutput::OpenMov4,
            4 => DigitalOutput::OpenMov5,
            _ => {
                return None;
            },
        };
        self.switch_digital_output(digital_output, switch_on)
    }

    /// Write `value` (the bit pattern of a voltage) to the analog output
    /// that commands the `idx`-th of the valves `analog_outputs`; `None` when
    /// there is no such valve.
    fn open_valve(&mut self, idx: usize, analog_outputs: &[AnalogOutput], value: u64) -> (done:
        Option<()>)
        requires
            old(self).well_formed(),
            idx < analog_outputs@.len() ==> old(self).plant is Some,
        ensures
            final(self).well_formed(),
            done is Some <==> idx < analog_outputs@.len(),
            final(self).config == old(self).config,
            idx >= analog_outputs@.len() ==> final(self).plant == old(self).plant,
            idx < analog_outputs@.len() ==> (final(self).plant matches Some(plant) && {
                let before = old(self).plant->0;
                let output = analog_outputs@[idx as int];
                &&& plant.analog_outputs@ == before.analog_outputs@.update(
                    output.spec_value() as int,
                    value,
                )
                &&& plant.analog_inputs@ == before.analog_inputs@.update(
                    mirrored_input(output).spec_value() as int,
                    value,
                )
                &&& plant == (MockPlant {
                    analog_outputs: plant.analog_outputs,
                    analog_inputs: plant.analog_inputs,
                    ..before
                })
            }),
    {
        if idx >= analog_outputs.len() {
            return None;
        }
        let analog_output = analog_outputs[idx];
        match &mut self.plant {
            Some(plant) => {
                plant.write_analog_output(analog_output, value);
                Some(())
            },
            None => None,
        }
    }

    /// The value (the bit pattern of a voltage) of the analog input that
    /// reads back the `idx`-th of the valves `analog_inputs`; `None` when
    /// there is no such valve.
    fn read_valve(&self, idx: usize, analog_inputs: &[AnalogInput]) -> (value: Option<u64>)
        requires
            self.well_formed(),
            idx < analog_inputs@.len() ==> self.plant is Some,
        ensures
            value == if idx < analog_inputs@.len() {
                Some(self.plant->0.analog_inputs@[analog_inputs@[idx as int].spec_value() as int])
            } else {
                None
            },
    {
        if idx >= analog_inputs.len() {
            return None;
        }
        let analog_input = analog_inputs[idx];
        match &self.plant {
            Some(plant) => Some(plant.read_analog_input(analog_input)),
            None => None,
        }
    }

    /// Write `value` (the bit pattern of the command voltage) to the
    /// pressure control valve `idx` (0 or 1); `None` for another index. The
    /// valve's readout then reads `value`.
    pub fn command_pressure_control_valve(&mut self, idx: usize, value: u64) -> (done: Option<()>)
        requires
            old(self).well_formed(),
            idx < 2 ==> old(self).plant is Some,
        ensures
            final(self).well_formed(),
            done is Some <==> pressure_control_valve_output(idx as int) is Some,
            idx == 0 ==> (final(self).plant matches Some(plant) && {
                let before = old(self).plant->0;
                &&& plant.analog_outputs@[AnalogOutput::CommandValuePcv1.spec_value() as int] == value
                &&& plant.analog_inputs@[AnalogInput::ReadoutPcv1.spec_value() as int] == value
                &&& plant.analog_outputs@[AnalogOutput::CommandValuePcv2.spec_value() as int]
                    == before.analog_outputs@[AnalogOutput::CommandValuePcv2.spec_value() as int]
                &&& plant.analog_inputs@[AnalogInput::ReadoutPcv2.spec_value() as int]
                    == before.analog_inputs@[AnalogInput::ReadoutPcv2.spec_value() as int]
            }),
            idx == 1 ==> (final(self).plant matches Some(plant) && {
                let before = old(self).plant->0;
                &&& plant.analog_outputs@[AnalogOutput::CommandValuePcv2.spec_value() as int] == value
                &&& plant.analog_inputs@[AnalogInput::ReadoutPcv2.spec_value() as int] == value
                &&& plant.analog_outputs@[AnalogOutput::CommandValuePcv1.spec_value() as int]
                    == before.analog_outputs@[AnalogOutput::CommandValuePcv1.spec_value() as int]
                &&& plant.analog_inputs@[AnalogInput::ReadoutPcv1.spec_value() as int]
                    == before.analog_inputs@[AnalogInput::ReadoutPcv1.spec_value() as int]
            }),
            final(self).config == old(self).config,
            idx >= 2 ==> final(self).plant == old(self).plant,
            idx < 2 ==> (final(self).plant matches Some(plant) && {
                let before = old(self).plant->0;
                let output = pressure_control_valve_output(idx as int)->0;
                &&& plant.analog_outputs@ == before.analog_outputs@.update(
                    output.spec_value() as int,
                    value,
                )
                &&& plant.analog_inputs@ == before.analog_inputs@.update(
                    pressure_control_valve_input(idx as int)->0.spec_value() as int,
                    value,
                )
                &&& plant == (MockPlant {
                    analog_outputs: plant.analog_outputs,
                    analog_inputs: plant.analog_inputs,
                    ..before
                })
            }),
    {
        let valves = [AnalogOutput::CommandValuePcv1, AnalogOutput::CommandValuePcv2];
        self.open_valve(idx, valves.as_slice(), value)
    }

    /// Write `value` (the bit pattern of the command voltage) to the control
    /// mixing valve `idx` (0 to 2); `None` for another index. The valve's
    /// readout then reads `value`.
    pub fn command_control_mixing_valve(&mut self, idx: usize, value: u64) -> (done: Option<()>)
        requires
            old(self).well_formed(),
            idx < 3 ==> old(self).plant is Some,
        ensures
            final(self).well_formed(),
            done is Some <==> control_mixing_valve_output(idx as int) is Some,
            idx == 0 ==> (final(self).plant matches Some(plant) && {
                let before = old(self).plant->0;
                &&& plant.analog_outputs@[AnalogOutput::CommandValueCmv1.spec_value() as int] == value
                &&& plant.analog_inputs@[AnalogInput::ReadoutCmv1.spec_value() as int] == value
                &&& plant.analog_outputs@[AnalogOutput::CommandValueCmv2.spec_value() as int]
                    == before.analog_outputs@[AnalogOutput::CommandValueCmv2.spec_value() as int]
                &&& plant.analog_inputs@[AnalogInput::ReadoutCmv2.spec_value() as int]
                    == before.analog_inputs@[AnalogInput::ReadoutCmv2.spec_value() as int]
                &&& plant.analog_outputs@[AnalogOutput::CommandValueCmv20.spec_value() as int]
                    == before.analog_outputs@[AnalogOutput::CommandValueCmv20.spec_value() as int]
                &&& plant.analog_inputs@[AnalogInput::ReadoutCmv20.spec_value() as int]
                    == before.analog_inputs@[AnalogInput::ReadoutCmv20.spec_value() as int]
            }),
            idx == 1 ==> (final(self).plant matches Some(plant) && {
                let before = old(self).plant->0;
                &&& plant.analog_outputs@[AnalogOutput::CommandValueCmv2.spec_value() as int] == value
                &&& plant.analog_inputs@[AnalogInput::ReadoutCmv2.spec_value() as int] == value
                &&& plant.analog_outputs@[AnalogOutput::CommandValueCmv1.spec_value() as int]
                    == before.analog_outputs@[AnalogOutput::CommandValueCmv1.spec_value() as int]
                &&& plant.analog_inputs@[AnalogInput::ReadoutCmv1.spec_value() as int]
                    == before.analog_inputs@[AnalogInput::ReadoutCmv1.spec_value() as int]
                &&& plant.analog_outputs@[AnalogOutput::CommandValueCmv20.spec_value() as int]
                    == before.analog_outputs@[AnalogOutput::CommandValueCmv20.spec_value() as int]
                &&& plant.analog_inputs@[AnalogInput::ReadoutCmv20.spec_value() as int]
                    == before.analog_inputs@[AnalogInput::ReadoutCmv20.spec_value() as int]
            }),
            idx == 2 ==> (final(self).plant matches Some(plant) && {
                let before = old(self).plant->0;
                &&& plant.analog_outputs@[AnalogOutput::CommandValueCmv20.spec_value() as int] == value
                &&& plant.analog_inputs@[AnalogInput::ReadoutCmv20.spec_value() as int] == value
                &&& plant.analog_outputs@[AnalogOutput::CommandValueCmv1.spec_value() as int]
                    == before.analog_outputs@[AnalogOutput::CommandValueCmv1.spec_value() as int]
                &&& plant.analog_inputs@[AnalogInput::ReadoutCmv1.spec_value() as int]
                    == before.analog_inputs@[AnalogInput::ReadoutCmv1.spec_value() as int]
                &&& plant.analog_outputs@[AnalogOutput::CommandValueCmv2.spec_value() as int]
                    == before.analog_outputs@[AnalogOutput::CommandValueCmv2.spec_value() as int]
                &&& plant.analog_inputs@[AnalogInput::ReadoutCmv2.spec_value() as int]
                    == before.analog_inputs@[AnalogInput::ReadoutCmv2.spec_value() as int]
            }),
            final(self).config == old(self).config,
            idx >= 3 ==> final(self).plant == old(self).plant,
            idx < 3 ==> (final(self).plant matches Some(plant) && {
                let before = old(self).plant->0;
                let output = control_mixing_valve_output(idx as int)->0;
                &&& plant.analog_outputs@ == before.analog_outputs@.update(
                    output.spec_value() as int,
                    value,
                )
                &&& plant.analog_inputs@ == before.analog_inputs@.update(
                    control_mixing_valve_input(idx as int)->0.spec_value() as int,
                    value,
                )
                &&& plant == (MockPlant {
                    analog_outputs: plant.analog_outputs,
                    analog_inputs: plant.analog_inputs,
                    ..before
                })
            }),
    {
        let valves = [
            AnalogOutput::CommandValueCmv1,
            AnalogOutput::CommandValueCmv2,
            AnalogOutput::CommandValueCmv20,
        ];
        self.open_valve(idx, valves.as_slice(), value)
    }

    /// The readout (the bit pattern of a voltage) of the pressure control
    /// valve `idx` (0 or 1); `None` for another index.
    pub fn read_pressure_control_valve(&self, idx: usize) -> (value: Option<u64>)
        requires
            self.well_formed(),
            idx < 2 ==> self.plant is Some,
        ensures
            value == match pressure_control_valve_input(idx as int) {
                Some(input) => Some(self.plant->0.analog_inputs@[input.spec_value() as int]),
                None => None,
            },
            idx == 0 ==> value == Some(
                self.plant->0.analog_inputs@[AnalogInput::ReadoutPcv1.spec_value() as int],
            ),
            idx == 1 ==> value == Some(
                self.plant->0.analog_inputs@[AnalogInput::ReadoutPcv2.spec_value() as int],
            ),
    {
        let valves = [AnalogInput::ReadoutPcv1, AnalogInput::ReadoutPcv2];
        self.read_valve(idx, valves.as_slice())
    }

    /// The readout (the bit pattern of a voltage) of the control mixing
    /// valve `idx` (0 to 2); `None` for another index.
    pub fn read_control_mixing_valve(&self, idx: usize) -> (value: Option<u64>)
        requires
            self.well_formed(),
            idx < 3 ==> self.plant is Some,
        ensures
            value == match control_mixing_valve_input(idx as int) {
                Some(input) => Some(self.plant->0.analog_inputs@[input.spec_value() as int]),
                None => None,
            },
            idx == 0 ==> value == Some(
                self.plant->0.analog_inputs@[AnalogInput::ReadoutCmv1.spec_value() as int],
            ),
            idx == 1 ==> value == Some(
                self.plant->0.analog_inputs@[AnalogInput::ReadoutCmv2.spec_value() as int],
            ),
            idx == 2 ==> value == Some(
                self.plant->0.analog_inputs@[AnalogInput::ReadoutCmv20.spec_value() as int],
            ),
    {
        let valves = [AnalogInput::ReadoutCmv1, AnalogInput::ReadoutCmv2, AnalogInput::ReadoutCmv20];
        self.read_valve(idx, valves.as_slice())
    }
}

/// A valve's readout reads back what was last commanded to it: commanding
/// pressure control valve `idx` writes the input that reads it back, and the
/// same holds for the control mixing valves.
pub proof fn lemma_valve_readout_follows_command(idx: int)
    ensures
        pressure_control_valve_output(idx) matches Some(output) ==> pressure_control_valve_input(
            idx,
        ) == Some(mirrored_input(output)),
        control_mixing_valve_output(idx) matches Some(output) ==> control_mixing_valve_input(idx)
            == Some(mirrored_input(output)),
{
}

/// The valves of each kind are numbered in the order of their channels:
/// a valve with a lower index is commanded through a lower analog output
/// and read back through a lower analog input, so pressure control valve 0
/// is PCV 1 and control mixing valve 0 is CMV 1.
pub proof fn lemma_valves_in_channel_order(i: int, j: int)
    requires
        i < j,
    ensures
        pressure_control_valve_output(i) matches Some(a) ==> (pressure_control_valve_output(j) matches Some(b)
            ==> a.spec_value() < b.spec_value()),
        pressure_control_valve_input(i) matches Some(a) ==> (pressure_control_valve_input(j) matches Some(b)
            ==> a.spec_value() < b.spec_value()),
        control_mixing_valve_output(i) matches Some(a) ==> (control_mixing_valve_output(j) matches Some(b)
            ==> a.spec_value() < b.spec_value()),
        control_mixing_valve_input(i) matches Some(a) ==> (control_mixing_valve_input(j) matches Some(b)
            ==> a.spec_value() < b.spec_value()),
{
}

} // verus!
