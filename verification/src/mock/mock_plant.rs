use vstd::prelude::*;
use crate::config::{Addresses, Config};
use crate::constants::{
    CODE_READ_HOLDING_REGISTERS, CODE_WRITE_SINGLE_REGISTER, NUM_TEMPERATURE_CHANNEL,
    NUM_TEMPERATURE_HUB, REGISTER_ADDRESS_CHILLER_TEMPERATURE_SETPOINT,
    REGISTER_ADDRESS_PIER_FAN_RESET, REGISTER_ADDRESS_RECIRCULATION_PUMP_CIM_CONFIGURATION,
};
use crate::daq::chiller::Chiller;
use crate::daq::pier_fan::PierFan;
use crate::frame::register_response;
use crate::enums::{AnalogInput, AnalogOutput, DigitalInputMod4, DigitalInputMod7, DigitalOutput};
use crate::mock::mock_chiller::{chiller_registers, plant_chiller};
use crate::mock::mock_flowmeter_group::{flowmeter_registers, plant_flowmeter};
use crate::mock::mock_power_grid_monitor::{
    cuts_measured_value, plant_power_grid_monitor, power_grid_monitor_registers,
};
use crate::mock::mock_recirculation_pump::{cim_request_has_digits, is_plant_recirculation_pump};
use crate::mock::mock_chiller::MockChiller;
use crate::mock::mock_constants::{
    PLANT_NUM_CHANNEL_ANALOG_INPUT_OUTPUT, PLANT_PRESSURE, PLANT_TANK_LEVEL_VOLTAGE, PLANT_TEMPERATURE,
};
use crate::mock::mock_flowmeter_group::MockFlowmeterGroup;
use crate::mock::mock_pier_fan::{is_plant_pier_fan, MockPierFan};
use crate::mock::mock_power_grid_monitor::MockPowerGridMonitor;
use crate::mock::mock_pressure_transducer::pressure_response;
use crate::mock::mock_pressure_transducer_group::MockPressureTransducerGroup;
use crate::mock::mock_recirculation_pump::MockRecirculationPump;
use crate::mock::mock_temperature_hub::{temperature_response, MockTemperatureHub};
use crate::utility::{first_index_of, index_of};

verus! {

/// Whether `b` is the ASCII byte of a decimal digit.
pub open spec fn is_digit_byte(b: u8) -> bool {
    0x30 <= b <= 0x39
}

/// The value of the three ASCII decimal digits in bytes 1 to 3 of `command`.
pub open spec fn three_digit_value(command: Seq<u8>) -> int {
    100 * (command[1] - 0x30) + 10 * (command[2] - 0x30) + (command[3] - 0x30)
}

/// The address that a pressure command names. A pressure command is the
/// seven bytes "#<address>P\r\n", with the address written as three
/// decimal digits; any other command, or an address above 255, names none.
pub open spec fn pressure_command_address(command: Seq<u8>) -> Option<u8> {
    if command.len() == 7 && command[0] == 0x23 && is_digit_byte(command[1]) && is_digit_byte(
        command[2],
    ) && is_digit_byte(command[3]) && command[4] == 0x50 && command[5] == 0x0D && command[6]
        == 0x0A && three_digit_value(command) <= 255 {
        Some(three_digit_value(command) as u8)
    } else {
        None
    }
}

/// The address that the pressure command `command` names (see
/// `pressure_command_address`).
fn address_of_pressure_command(command: &[u8]) -> (address: Option<u8>)
    ensures
        address == pressure_command_address(command@),
{
    if command.len() != 7 {
        return None;
    }
    if command[0] != 0x23 || command[4] != 0x50 || command[5] != 0x0D || command[6] != 0x0A {
        return None;
    }
    let (d1, d2, d3) = (command[1], command[2], command[3]);
    if d1 < 0x30 || d1 > 0x39 || d2 < 0x30 || d2 > 0x39 || d3 < 0x30 || d3 > 0x39 {
        return None;
    }
    let value: u16 = 100 * ((d1 - 0x30) as u16) + 10 * ((d2 - 0x30) as u16) + ((d3 - 0x30) as u16);
    if value > 255 {
        return None;
    }
    Some(value as u8)
}

/// The index of the first address in `addresses` that is `address`, if any.
fn index_in(addresses: &Vec<u8>, address: u8) -> (index: Option<usize>)
    ensures
        match index {
            Some(i) => first_index_of(addresses@, address) == Some(i as int),
            None => first_index_of(addresses@, address) is None,
        },
{
    index_of(addresses.as_slice(), address)
}

/// A simulated plant: the devices on its buses, and the digital and analog
/// inputs and outputs of its controller.
pub struct MockPlant {
    /// Addresses of the devices on the buses.
    pub addresses: Addresses,
    /// The temperature hubs.
    pub sensor_temperature_hubs: Vec<MockTemperatureHub>,
    /// The groups of pressure transducers, one per bus.
    pub sensor_pressure_transducer_groups: Vec<MockPressureTransducerGroup>,
    /// The groups of flowmeters, one per bus.
    pub sensor_flowmeter_groups: Vec<MockFlowmeterGroup>,
    /// The power grid monitors.
    pub sensor_power_grid_monitors: Vec<MockPowerGridMonitor>,
    /// The pier fans.
    pub pier_fans: Vec<MockPierFan>,
    /// The recirculation pumps.
    pub recirculation_pumps: Vec<MockRecirculationPump>,
    /// The chillers.
    pub chillers: Vec<MockChiller>,
    /// Digital inputs from module 4, one bit per `DigitalInputMod4`.
    pub digital_inputs_mod4: u32,
    /// Analog inputs from module 5, by `AnalogInput` channel, as IEEE 754
    /// double-precision bit patterns of volts.
    pub analog_inputs: Vec<u64>,
    /// Digital outputs to module 6, one bit per `DigitalOutput`.
    pub digital_outputs: u32,
    /// Digital inputs from module 7, one bit per `DigitalInputMod7`.
    pub digital_inputs_mod7: u32,
    /// Analog outputs to module 8, by `AnalogOutput` channel, as IEEE 754
    /// double-precision bit patterns of volts.
    pub analog_outputs: Vec<u64>,
}

impl MockPlant {
    /// Whether the plant's devices match its addresses: three temperature
    /// hubs, one group of pressure transducers and one of flowmeters per bus
    /// with a device per address, a device per address of the other kinds,
    /// and every analog channel.
    pub open spec fn well_formed(&self) -> bool {
        &&& self.sensor_temperature_hubs@.len() == NUM_TEMPERATURE_HUB
        &&& self.sensor_pressure_transducer_groups@.len() == 3
        &&& forall|bus: int|
            0 <= bus < 3 ==> (#[trigger] self.sensor_pressure_transducer_groups@[bus]).pressure_transducers@.len()
                == self.addresses.pressure_transducer_bus(bus).len()
        &&& self.sensor_flowmeter_groups@.len() == 3
        &&& forall|bus: int|
            0 <= bus < 3 ==> (#[trigger] self.sensor_flowmeter_groups@[bus]).flowmeters@.len()
                == self.addresses.flowmeter_bus(bus).len()
        &&& self.sensor_power_grid_monitors@.len() == self.addresses.power_grid_monitor@.len()
        &&& self.pier_fans@.len() == self.addresses.pier_fan@.len()
        &&& self.recirculation_pumps@.len() == self.addresses.recirculation_pump@.len()
        &&& self.chillers@.len() == self.addresses.chiller@.len()
        &&& self.analog_inputs@.len() == PLANT_NUM_CHANNEL_ANALOG_INPUT_OUTPUT
        &&& self.analog_outputs@.len() == PLANT_NUM_CHANNEL_ANALOG_INPUT_OUTPUT
    }

    /// Set the temperatures (ten-thousandths of a degree Celsius) of the
    /// temperature hub `idx`; an index past the hubs changes nothing.
    pub fn set_sensor_temperatures(
        &mut self,
        idx: usize,
        temperatures: &[i64; NUM_TEMPERATURE_CHANNEL],
    )
        requires
            old(self).well_formed(),
        ensures
            final(self).well_formed(),
            final(self).sensor_temperature_hubs@.len() == old(self).sensor_temperature_hubs@.len(),
            forall|i: int|
                0 <= i < NUM_TEMPERATURE_HUB ==> (#[trigger] final(self).sensor_temperature_hubs@[i]).spec_temperatures() == if i == idx {
                    temperatures@
                } else {
                    old(self).sensor_temperature_hubs@[i].spec_temperatures()
                },
    {
        if idx < NUM_TEMPERATURE_HUB {
            let mut hub = self.sensor_temperature_hubs[idx];
            hub.set_temperatures(temperatures);
            self.sensor_temperature_hubs.set(idx, hub);
        }
    }

    /// The response of the temperature hub `idx` with its measured
    /// temperatures, or `None` for an index past the hubs.
    pub fn request_sensor_temperatures(&self, idx: usize) -> (response: Option<Vec<u8>>)
        requires
            self.well_formed(),
        ensures
            match response {
                Some(frame) => idx < NUM_TEMPERATURE_HUB && frame@ == temperature_response(
                    self.sensor_temperature_hubs@[idx as int].spec_temperatures(),
                ),
                None => idx >= NUM_TEMPERATURE_HUB,
            },
    {
        if idx < NUM_TEMPERATURE_HUB {
            Some(self.sensor_temperature_hubs[idx].request())
        } else {
            None
        }
    }

    /// The response of the pressure transducer that `command` addresses on
    /// bus `idx`, or `None` when the command names no address, the bus is
    /// not one of the three, or no transducer on it has that address.
    pub open spec fn pressure_reply(&self, idx: int, command: Seq<u8>) -> Option<Seq<u8>> {
        match pressure_command_address(command) {
            Some(address) => if 0 <= idx < 3 {
                match first_index_of(self.addresses.pressure_transducer_bus(idx), address) {
                    Some(i) => {
                        let transducer = self.sensor_pressure_transducer_groups@[idx].pressure_transducers@[i];
                        Some(pressure_response(transducer.address, transducer.pressure))
                    },
                    None => None,
                }
            } else {
                None
            },
            None => None,
        }
    }

    /// The response of the pressure transducer that `command` addresses on
    /// bus `idx` (see `pressure_reply`).
    pub fn request_sensor_pressure(&self, idx: usize, command: &[u8]) -> (response: Option<
        Vec<u8>,
    >)
        requires
            self.well_formed(),
        ensures
            frame_view(response) == self.pressure_reply(idx as int, command@),
    {
        let address = match address_of_pressure_command(command) {
            Some(address) => address,
            None => {
                return None;
            },
        };
        let addresses = if idx == 0 {
            &self.addresses.pressure_transducer_bus_0
        } else if idx == 1 {
            &self.addresses.pressure_transducer_bus_1
        } else if idx == 2 {
            &self.addresses.pressure_transducer_bus_2
        } else {
            return None;
        };
        let idx_sensor = match index_in(addresses, address) {
            Some(i) => i,
            None => {
                return None;
            },
        };
        assert(self.sensor_pressure_transducer_groups@[idx as int].pressure_transducers@.len()
            == self.addresses.pressure_transducer_bus(idx as int).len());
        proof {
            lemma_first_index_in_range(addresses@, address);
        }
        Some(self.sensor_pressure_transducer_groups[idx].request(idx_sensor))
    }
}

/// The device address and the 16-bit argument (a register count or a
/// value, big-endian in bytes 4 and 5) of an 8-byte Modbus command, or
/// `None` for a command of another length.
pub open spec fn command_address_and_argument(command: Seq<u8>) -> Option<(u8, u16)> {
    if command.len() == 8 {
        Some((command[0], command_argument(command)))
    } else {
        None
    }
}

/// The 16-bit argument of a Modbus command (big-endian in bytes 4 and 5).
pub open spec fn command_argument(command: Seq<u8>) -> u16 {
    (command[4] as int * 256 + command[5] as int) as u16
}

/// The register address of a Modbus command (big-endian in bytes 2 and 3).
pub open spec fn command_register_address(command: Seq<u8>) -> u16 {
    (command[2] as int * 256 + command[3] as int) as u16
}

/// The pier fan `fan` after its errors are reset.
pub open spec fn reset_pier_fan(fan: MockPierFan) -> MockPierFan {
    MockPierFan { pier_fan: PierFan { motor_status: 0, warning: 0, ..fan.pier_fan }, ..fan }
}

/// The chiller `mock` after its temperature setpoint is set to
/// `temperature`.
pub open spec fn chiller_with_setpoint(mock: MockChiller, temperature: u16) -> MockChiller {
    MockChiller { chiller: Chiller { temperature_setpoint: temperature, ..mock.chiller }, ..mock }
}

impl MockPlant {
    /// The response of the flowmeter that `command` addresses on bus `idx`,
    /// or `None` when the command is not 8 bytes long, the bus is not one of
    /// the three, or no flowmeter on it has that address.
    pub open spec fn flowmeter_reply(&self, idx: int, command: Seq<u8>) -> Option<Seq<u8>> {
        match command_address_and_argument(command) {
            Some((address, num)) => if 0 <= idx < 3 {
                match first_index_of(self.addresses.flowmeter_bus(idx), address) {
                    Some(i) => {
                        let flowmeter = self.sensor_flowmeter_groups@[idx].flowmeters@[i];
                        Some(register_response(flowmeter.address, num as nat, flowmeter_registers(flowmeter)))
                    },
                    None => None,
                }
            } else {
                None
            },
            None => None,
        }
    }

    /// The response of the power grid monitor that `command` addresses, or
    /// `None` when the command is not 8 bytes long or no monitor has that
    /// address.
    pub open spec fn power_grid_monitor_reply(&self, command: Seq<u8>) -> Option<Seq<u8>> {
        match command_address_and_argument(command) {
            Some((address, num)) => match first_index_of(self.addresses.power_grid_monitor@, address) {
                Some(i) => {
                    let monitor = self.sensor_power_grid_monitors@[i].power_grid_monitor;
                    Some(register_response(monitor.address, num as nat, power_grid_monitor_registers(monitor)))
                },
                None => None,
            },
            None => None,
        }
    }

    /// The index of the pier fan that `command` addresses, if any.
    pub open spec fn pier_fan_index(&self, command: Seq<u8>) -> Option<int> {
        match command_address_and_argument(command) {
            Some((address, num)) => first_index_of(self.addresses.pier_fan@, address),
            None => None,
        }
    }

    /// Whether `command` asks the pier fan it addresses to reset its errors.
    pub open spec fn is_pier_fan_reset(&self, command: Seq<u8>) -> bool {
        &&& self.pier_fan_index(command) is Some
        &&& command[1] == CODE_WRITE_SINGLE_REGISTER
        &&& command_register_address(command) == REGISTER_ADDRESS_PIER_FAN_RESET
    }

    /// The response of the pier fan that `command` addresses: its registers
    /// for a read, the command itself for a reset, and `None` when the
    /// command is not 8 bytes long, no fan has that address, or the command
    /// is neither.
    pub open spec fn pier_fan_reply(&self, command: Seq<u8>) -> Option<Seq<u8>> {
        match self.pier_fan_index(command) {
            Some(i) => if command[1] == CODE_READ_HOLDING_REGISTERS {
                let fan = self.pier_fans@[i];
                Some(
                    register_response(
                        fan.pier_fan.address,
                        command_argument(command) as nat,
                        fan.registers(command_register_address(command)),
                    ),
                )
            } else if self.is_pier_fan_reset(command) {
                Some(command)
            } else {
                None
            },
            None => None,
        }
    }

    /// The index of the recirculation pump that `command` addresses, if any.
    pub open spec fn recirculation_pump_index(&self, command: Seq<u8>) -> Option<int> {
        match command_address_and_argument(command) {
            Some((address, num)) => first_index_of(self.addresses.recirculation_pump@, address),
            None => None,
        }
    }

    /// The response of the recirculation pump that `command` addresses, or
    /// `None` when the command is not 8 bytes long or no pump has that
    /// address.
    pub open spec fn recirculation_pump_reply(&self, command: Seq<u8>) -> Option<Seq<u8>> {
        match self.recirculation_pump_index(command) {
            Some(i) => {
                let pump = self.recirculation_pumps@[i];
                Some(
                    register_response(
                        pump.recirculation_pump.address,
                        command_argument(command) as nat,
                        pump.registers(command_register_address(command)),
                    ),
                )
            },
            None => None,
        }
    }

    /// Whether `command` reads the registers of a chiller.
    pub open spec fn is_chiller_read(command: Seq<u8>) -> bool {
        command.len() == 8 && command[1] == CODE_READ_HOLDING_REGISTERS
    }

    /// Whether `command` sets the temperature setpoint of a chiller.
    pub open spec fn is_chiller_setpoint(command: Seq<u8>) -> bool {
        &&& command.len() == 8
        &&& command[1] == CODE_WRITE_SINGLE_REGISTER
        &&& command_register_address(command) == REGISTER_ADDRESS_CHILLER_TEMPERATURE_SETPOINT
    }

    /// The response of the chiller `idx` to `command`: its registers for a
    /// read, the command itself for a new setpoint, and `None` when the
    /// command is not 8 bytes long or is neither.
    pub open spec fn chiller_reply(&self, idx: int, command: Seq<u8>) -> Option<Seq<u8>> {
        if Self::is_chiller_read(command) {
            let chiller = self.chillers@[idx].chiller;
            Some(
                register_response(
                    chiller.address,
                    command_argument(command) as nat,
                    chiller_registers(chiller),
                ),
            )
        } else if Self::is_chiller_setpoint(command) {
            Some(command)
        } else {
            None
        }
    }

    /// The device address and register count (or value) of the 8-byte
    /// Modbus command `command`, or `None` for another length.
    fn get_address_and_num_registers(&self, command: &[u8]) -> (parts: Option<(u8, u16)>)
        ensures
            parts == command_address_and_argument(command@),
    {
        // Bytes of the command should be 8.
        if command.len() != 8 {
            return None;
        }
        Some((command[0], (command[4] as u16) * 256 + (command[5] as u16)))
    }

    /// The response of the flowmeter that `command` addresses on bus `idx`
    /// (see `flowmeter_reply`).
    pub fn request_sensor_flowmeter(&self, idx: usize, command: &[u8]) -> (response: Option<
        Vec<u8>,
    >)
        requires
            self.well_formed(),
            command@.len() == 8 && idx < 3 && first_index_of(
                self.addresses.flowmeter_bus(idx as int),
                command@[0],
            ) is Some ==> command_argument(command@) <= 32767,
        ensures
            frame_view(response) == self.flowmeter_reply(idx as int, command@),
    {
        let (address, num_registers) = match self.get_address_and_num_registers(command) {
            Some(parts) => parts,
            None => {
                return None;
            },
        };
        let addresses = if idx == 0 {
            &self.addresses.flowmeter_bus_0
        } else if idx == 1 {
            &self.addresses.flowmeter_bus_1
        } else if idx == 2 {
            &self.addresses.flowmeter_bus_2
        } else {
            return None;
        };
        let idx_sensor = match index_in(addresses, address) {
            Some(i) => i,
            None => {
                return None;
            },
        };
        assert(self.sensor_flowmeter_groups@[idx as int].flowmeters@.len()
            == self.addresses.flowmeter_bus(idx as int).len());
        proof {
            lemma_first_index_in_range(addresses@, address);
        }
        Some(self.sensor_flowmeter_groups[idx].request(idx_sensor, num_registers))
    }

    /// The response of the power grid monitor that `command` addresses (see
    /// `power_grid_monitor_reply`).
    pub fn request_power_grid_monitor(&self, command: &[u8]) -> (response: Option<Vec<u8>>)
        requires
            self.well_formed(),
            command@.len() == 8 && first_index_of(self.addresses.power_grid_monitor@, command@[0])
                is Some ==> command_argument(command@) <= 32767 && !cuts_measured_value(
                command_argument(command@),
            ),
        ensures
            frame_view(response) == self.power_grid_monitor_reply(command@),
    {
        let (address, num_registers) = match self.get_address_and_num_registers(command) {
            Some(parts) => parts,
            None => {
                return None;
            },
        };
        let idx = match index_in(&self.addresses.power_grid_monitor, address) {
            Some(i) => i,
            None => {
                return None;
            },
        };
        proof {
            lemma_first_index_in_range(self.addresses.power_grid_monitor@, address);
        }
        Some(self.sensor_power_grid_monitors[idx].request(num_registers))
    }

    /// The response of the pier fan that `command` addresses (see
    /// `pier_fan_reply`); a reset clears the fan's motor status and warning.
    pub fn request_pier_fan(&mut self, command: &[u8]) -> (response: Option<Vec<u8>>)
        requires
            old(self).well_formed(),
            old(self).pier_fan_index(command@) is Some && command@[1]
                == CODE_READ_HOLDING_REGISTERS ==> command_argument(command@)
                <= 32767,
        ensures
            final(self).well_formed(),
            frame_view(response) == old(self).pier_fan_reply(command@),
            final(self).pier_fans@ == if old(self).is_pier_fan_reset(command@) {
                old(self).pier_fans@.update(
                    old(self).pier_fan_index(command@)->0,
                    reset_pier_fan(old(self).pier_fans@[old(self).pier_fan_index(command@)->0]),
                )
            } else {
                old(self).pier_fans@
            },
            *final(self) == (MockPlant { pier_fans: final(self).pier_fans, ..*old(self) }),
    {
        let (address, num_registers) = match self.get_address_and_num_registers(command) {
            Some(parts) => parts,
            None => {
                return None;
            },
        };
        let idx = match index_in(&self.addresses.pier_fan, address) {
            Some(i) => i,
            None => {
                return None;
            },
        };
        proof {
            lemma_first_index_in_range(self.addresses.pier_fan@, address);
        }
        let function_code = command[1];
        let register_address = (command[2] as u16) * 256 + (command[3] as u16);
        if function_code == CODE_READ_HOLDING_REGISTERS {
            Some(self.pier_fans[idx].request(register_address, num_registers))
        } else if function_code == CODE_WRITE_SINGLE_REGISTER {
            if register_address == REGISTER_ADDRESS_PIER_FAN_RESET {
                self.pier_fans[idx].reset();
                // Echo the command back as the response.
                Some(vstd::slice::slice_to_vec(command))
            } else {
                None
            }
        } else {
            None
        }
    }
    /// The response of the recirculation pump that `command` addresses (see
    /// `recirculation_pump_reply`).
    pub fn request_recirculation_pump(&mut self, command: &[u8]) -> (response: Option<Vec<u8>>)
        requires
            old(self).well_formed(),
            old(self).recirculation_pump_index(command@) matches Some(i) ==> {
                &&& command_argument(command@) <= 32767
                &&& command_register_address(command@)
                    == REGISTER_ADDRESS_RECIRCULATION_PUMP_CIM_CONFIGURATION ==> (
                old(self).recirculation_pumps@[i].recirculation_pump.cim_configuration matches Some(
                    configuration,
                ) ==> cim_request_has_digits(configuration, command_argument(command@)))
            },
        ensures
            *final(self) == *old(self),
            frame_view(response) == old(self).recirculation_pump_reply(command@),
    {
        let (address, num_registers) = match self.get_address_and_num_registers(command) {
            Some(parts) => parts,
            None => {
                return None;
            },
        };
        let idx = match index_in(&self.addresses.recirculation_pump, address) {
            Some(i) => i,
            None => {
                return None;
            },
        };
        proof {
            lemma_first_index_in_range(self.addresses.recirculation_pump@, address);
        }
        let register_address = (command[2] as u16) * 256 + (command[3] as u16);
        Some(self.recirculation_pumps[idx].request(register_address, num_registers))
    }

    /// The response of the chiller `idx` to `command` (see
    /// `chiller_reply`); a new setpoint is set on the chiller. Two chillers
    /// may share an address on different connections, so the chiller is
    /// given by its index.
    pub fn request_chiller(&mut self, idx: usize, command: &[u8]) -> (response: Option<Vec<u8>>)
        requires
            old(self).well_formed(),
            Self::is_chiller_read(command@) ==> idx < old(self).chillers@.len()
                && command_argument(command@) <= 32767,
            Self::is_chiller_setpoint(command@) ==> idx < old(self).chillers@.len(),
        ensures
            final(self).well_formed(),
            frame_view(response) == old(self).chiller_reply(idx as int, command@),
            final(self).chillers@ == if Self::is_chiller_setpoint(command@) {
                old(self).chillers@.update(
                    idx as int,
                    chiller_with_setpoint(old(self).chillers@[idx as int], command_argument(command@)),
                )
            } else {
                old(self).chillers@
            },
            *final(self) == (MockPlant { chillers: final(self).chillers, ..*old(self) }),
    {
        let (_address, num_registers_or_value) = match self.get_address_and_num_registers(command) {
            Some(parts) => parts,
            None => {
                return None;
            },
        };
        let function_code = command[1];
        let register_address = (command[2] as u16) * 256 + (command[3] as u16);
        if function_code == CODE_READ_HOLDING_REGISTERS {
            Some(self.chillers[idx].request(num_registers_or_value))
        } else if function_code == CODE_WRITE_SINGLE_REGISTER {
            if register_address == REGISTER_ADDRESS_CHILLER_TEMPERATURE_SETPOINT {
                self.chillers[idx].set_temperature(num_registers_or_value);
                // Echo the command back as the response.
                Some(vstd::slice::slice_to_vec(command))
            } else {
                None
            }
        } else {
            None
        }
    }
}

/// `bits` with the bits of `mask` set when `on` holds and cleared otherwise.
pub open spec fn switched(bits: u32, mask: u32, on: bool) -> u32 {
    if on {
        bits | mask
    } else {
        bits & !mask
    }
}

/// The digital inputs of modules 4 and 7 after `output` is switched on
/// (`on`) or off: a valve's open feedback follows the output and its close
/// feedback the opposite, and the contactor of a pump, fan or chiller
/// follows the output powering it.
pub open spec fn digital_inputs_after(mod4: u32, mod7: u32, output: DigitalOutput, on: bool) -> (
    u32,
    u32,
) {
    match output {
        DigitalOutput::OpenMov1 => (
            switched(
                switched(mod4, DigitalInputMod4::OpenFeedbackMov1.spec_bit_value(), on),
                DigitalInputMod4::CloseFeedbackMov1.spec_bit_value(),
                !on,
            ),
            mod7,
        ),
        DigitalOutput::OpenMov2 => (
            switched(
                switched(mod4, DigitalInputMod4::OpenFeedbackMov2.spec_bit_value(), on),
                DigitalInputMod4::CloseFeedbackMov2.spec_bit_value(),
                !on,
            ),
            mod7,
        ),
        DigitalOutput::OpenMov3 => (
            switched(
                switched(mod4, DigitalInputMod4::OpenFeedbackMov3.spec_bit_value(), on),
                DigitalInputMod4::CloseFeedbackMov3.spec_bit_value(),
                !on,
            ),
            mod7,
        ),
        DigitalOutput::OpenMov4 => (
            switched(
                switched(mod4, DigitalInputMod4::OpenFeedbackMov4.spec_bit_value(), on),
                DigitalInputMod4::CloseFeedbackMov4.spec_bit_value(),
                !on,
            ),
            mod7,
        ),
        DigitalOutput::OpenMov5 => (
            switched(
                switched(mod4, DigitalInputMod4::OpenFeedbackMov5.spec_bit_value(), on),
                DigitalInputMod4::CloseFeedbackMov5.spec_bit_value(),
                !on,
            ),
            mod7,
        ),
        DigitalOutput::PowerRecirculationPump1 => (switched(mod4, DigitalInputMod4::StatusK1.spec_bit_value(), on), mod7),
        DigitalOutput::PowerRecirculationPump2 => (switched(mod4, DigitalInputMod4::StatusK2.spec_bit_value(), on), mod7),
        DigitalOutput::PowerChiller1 => (switched(mod4, DigitalInputMod4::StatusK21.spec_bit_value(), on), mod7),
        DigitalOutput::PowerChiller2 => (switched(mod4, DigitalInputMod4::StatusK22.spec_bit_value(), on), mod7),
        DigitalOutput::PowerPierFan1 => (mod4, switched(mod7, DigitalInputMod7::StatusK3.spec_bit_value(), on)),
        DigitalOutput::PowerPierFan2 => (mod4, switched(mod7, DigitalInputMod7::StatusK4.spec_bit_value(), on)),
    }
}

/// The digital inputs of module 4 when all motor operated valves are
/// closed: the close feedback of each valve.
pub open spec fn default_digital_inputs_mod4() -> u32 {
    DigitalInputMod4::CloseFeedbackMov1.spec_bit_value()
        | DigitalInputMod4::CloseFeedbackMov2.spec_bit_value()
        | DigitalInputMod4::CloseFeedbackMov3.spec_bit_value()
        | DigitalInputMod4::CloseFeedbackMov4.spec_bit_value()
        | DigitalInputMod4::CloseFeedbackMov5.spec_bit_value()
}

/// The analog inputs at start: the tank level sensors read the plant's
/// tank level voltage, the other channels zero.
pub open spec fn default_analog_inputs() -> Seq<u64> {
    Seq::new(
        PLANT_NUM_CHANNEL_ANALOG_INPUT_OUTPUT as nat,
        |i: int|
            if i == AnalogInput::ReadoutTank1.spec_value() || i == AnalogInput::ReadoutTank2.spec_value() {
                PLANT_TANK_LEVEL_VOLTAGE
            } else {
                0u64
            },
    )
}

/// The analog input that reads back the valve position that `output`
/// commands.
pub open spec fn mirrored_input(output: AnalogOutput) -> AnalogInput {
    match output {
        AnalogOutput::CommandValuePcv1 => AnalogInput::ReadoutPcv1,
        AnalogOutput::CommandValuePcv2 => AnalogInput::ReadoutPcv2,
        AnalogOutput::CommandValueCmv1 => AnalogInput::ReadoutCmv1,
        AnalogOutput::CommandValueCmv2 => AnalogInput::ReadoutCmv2,
        AnalogOutput::CommandValueCmv20 => AnalogInput::ReadoutCmv20,
    }
}

impl MockPlant {
    /// The digital inputs of module 4 when all motor operated valves are
    /// closed.
    fn get_default_digital_inputs_mod4() -> (bits: u32)
        ensures
            bits == default_digital_inputs_mod4(),
    {
        DigitalInputMod4::CloseFeedbackMov1.bit_value() | DigitalInputMod4::CloseFeedbackMov2.bit_value()
            | DigitalInputMod4::CloseFeedbackMov3.bit_value()
            | DigitalInputMod4::CloseFeedbackMov4.bit_value()
            | DigitalInputMod4::CloseFeedbackMov5.bit_value()
    }

    /// The analog inputs at start (see `default_analog_inputs`).
    fn get_default_analog_inputs() -> (analog_inputs: Vec<u64>)
        ensures
            analog_inputs@ == default_analog_inputs(),
    {
        let mut analog_inputs: Vec<u64> = vec![0u64; PLANT_NUM_CHANNEL_ANALOG_INPUT_OUTPUT];
        analog_inputs.set(AnalogInput::ReadoutTank1.value(), PLANT_TANK_LEVEL_VOLTAGE);
        analog_inputs.set(AnalogInput::ReadoutTank2.value(), PLANT_TANK_LEVEL_VOLTAGE);
        assert(analog_inputs@ =~= default_analog_inputs());
        analog_inputs
    }

    /// Switch the digital output `digital_output` on (`switch_on`) or off,
    /// and update the digital inputs that follow it.
    pub fn switch_digital_output(&mut self, digital_output: DigitalOutput, switch_on: bool)
        ensures
            final(self).digital_outputs == switched(
                old(self).digital_outputs,
                digital_output.spec_bit_value(),
                switch_on,
            ),
            (final(self).digital_inputs_mod4, final(self).digital_inputs_mod7) == digital_inputs_after(
                old(self).digital_inputs_mod4,
                old(self).digital_inputs_mod7,
                digital_output,
                switch_on,
            ),
            *final(self) == (MockPlant {
                digital_outputs: final(self).digital_outputs,
                digital_inputs_mod4: final(self).digital_inputs_mod4,
                digital_inputs_mod7: final(self).digital_inputs_mod7,
                ..*old(self)
            }),
    {
        if switch_on {
            self.digital_outputs = self.digital_outputs | digital_output.bit_value();
        } else {
            self.digital_outputs = self.digital_outputs & !digital_output.bit_value();
        }
        self.update_digital_inputs(digital_output, switch_on);
    }

    /// Update the digital inputs that follow the digital output
    /// `digital_output` after it is switched on (`switch_on`) or off.
    pub fn update_digital_inputs(&mut self, digital_output: DigitalOutput, switch_on: bool)
        ensures
            (final(self).digital_inputs_mod4, final(self).digital_inputs_mod7) == digital_inputs_after(
                old(self).digital_inputs_mod4,
                old(self).digital_inputs_mod7,
                digital_output,
                switch_on,
            ),
            *final(self) == (MockPlant {
                digital_inputs_mod4: final(self).digital_inputs_mod4,
                digital_inputs_mod7: final(self).digital_inputs_mod7,
                ..*old(self)
            }),
    {
        match digital_output {
            DigitalOutput::OpenMov1 => {
                if switch_on {
                    self.digital_inputs_mod4 = self.digital_inputs_mod4 | DigitalInputMod4::OpenFeedbackMov1.bit_value();
                    self.digital_inputs_mod4 = self.digital_inputs_mod4 & !DigitalInputMod4::CloseFeedbackMov1.bit_value();
                } else {
                    self.digital_inputs_mod4 = self.digital_inputs_mod4 & !DigitalInputMod4::OpenFeedbackMov1.bit_value();
                    self.digital_inputs_mod4 = self.digital_inputs_mod4 | DigitalInputMod4::CloseFeedbackMov1.bit_value();
                }
            },
            DigitalOutput::OpenMov2 => {
                if switch_on {
                    self.digital_inputs_mod4 = self.digital_inputs_mod4 | DigitalInputMod4::OpenFeedbackMov2.bit_value();
                    self.digital_inputs_mod4 = self.digital_inputs_mod4 & !DigitalInputMod4::CloseFeedbackMov2.bit_value();
                } else {
                    self.digital_inputs_mod4 = self.digital_inputs_mod4 & !DigitalInputMod4::OpenFeedbackMov2.bit_value();
                    self.digital_inputs_mod4 = self.digital_inputs_mod4 | DigitalInputMod4::CloseFeedbackMov2.bit_value();
                }
            },
            DigitalOutput::OpenMov3 => {
                if switch_on {
                    self.digital_inputs_mod4 = self.digital_inputs_mod4 | DigitalInputMod4::OpenFeedbackMov3.bit_value();
                    self.digital_inputs_mod4 = self.digital_inputs_mod4 & !DigitalInputMod4::CloseFeedbackMov3.bit_value();
                } else {
                    self.digital_inputs_mod4 = self.digital_inputs_mod4 & !DigitalInputMod4::OpenFeedbackMov3.bit_value();
                    self.digital_inputs_mod4 = self.digital_inputs_mod4 | DigitalInputMod4::CloseFeedbackMov3.bit_value();
                }
            },
            DigitalOutput::OpenMov4 => {
                if switch_on {
                    self.digital_inputs_mod4 = self.digital_inputs_mod4 | DigitalInputMod4::OpenFeedbackMov4.bit_value();
                    self.digital_inputs_mod4 = self.digital_inputs_mod4 & !DigitalInputMod4::CloseFeedbackMov4.bit_value();
                } else {
                    self.digital_inputs_mod4 = self.digital_inputs_mod4 & !DigitalInputMod4::OpenFeedbackMov4.bit_value();
                    self.digital_inputs_mod4 = self.digital_inputs_mod4 | DigitalInputMod4::CloseFeedbackMov4.bit_value();
                }
            },
            DigitalOutput::OpenMov5 => {
                if switch_on {
                    self.digital_inputs_mod4 = self.digital_inputs_mod4 | DigitalInputMod4::OpenFeedbackMov5.bit_value();
                    self.digital_inputs_mod4 = self.digital_inputs_mod4 & !DigitalInputMod4::CloseFeedbackMov5.bit_value();
                } else {
                    self.digital_inputs_mod4 = self.digital_inputs_mod4 & !DigitalInputMod4::OpenFeedbackMov5.bit_value();
                    self.digital_inputs_mod4 = self.digital_inputs_mod4 | DigitalInputMod4::CloseFeedbackMov5.bit_value();
                }
            },
            DigitalOutput::PowerRecirculationPump1 => {
                if switch_on {
                    self.digital_inputs_mod4 = self.digital_inputs_mod4 | DigitalInputMod4::StatusK1.bit_value();
                } else {
                    self.digital_inputs_mod4 = self.digital_inputs_mod4 & !DigitalInputMod4::StatusK1.bit_value();
                }
            },
            DigitalOutput::PowerRecirculationPump2 => {
                if switch_on {
                    self.digital_inputs_mod4 = self.digital_inputs_mod4 | DigitalInputMod4::StatusK2.bit_value();
                } else {
                    self.digital_inputs_mod4 = self.digital_inputs_mod4 & !DigitalInputMod4::StatusK2.bit_value();
                }
            },
            DigitalOutput::PowerChiller1 => {
                if switch_on {
                    self.digital_inputs_mod4 = self.digital_inputs_mod4 | DigitalInputMod4::StatusK21.bit_value();
                } else {
                    self.digital_inputs_mod4 = self.digital_inputs_mod4 & !DigitalInputMod4::StatusK21.bit_value();
                }
            },
            DigitalOutput::PowerChiller2 => {
                if switch_on {
                    self.digital_inputs_mod4 = self.digital_inputs_mod4 | DigitalInputMod4::StatusK22.bit_value();
                } else {
                    self.digital_inputs_mod4 = self.digital_inputs_mod4 & !DigitalInputMod4::StatusK22.bit_value();
                }
            },
            DigitalOutput::PowerPierFan1 => {
                if switch_on {
                    self.digital_inputs_mod7 = self.digital_inputs_mod7 | DigitalInputMod7::StatusK3.bit_value();
                } else {
                    self.digital_inputs_mod7 = self.digital_inputs_mod7 & !DigitalInputMod7::StatusK3.bit_value();
                }
            },
            DigitalOutput::PowerPierFan2 => {
                if switch_on {
                    self.digital_inputs_mod7 = self.digital_inputs_mod7 | DigitalInputMod7::StatusK4.bit_value();
                } else {
                    self.digital_inputs_mod7 = self.digital_inputs_mod7 & !DigitalInputMod7::StatusK4.bit_value();
                }
            },
        }
    }

    /// Write `value` (the bit pattern of a voltage) to the analog output
    /// `analog_output`; the valve position input it commands reads it back.
    pub fn write_analog_output(&mut self, analog_output: AnalogOutput, value: u64)
        requires
            old(self).well_formed(),
        ensures
            final(self).well_formed(),
            final(self).analog_outputs@ == old(self).analog_outputs@.update(
                analog_output.spec_value() as int,
                value,
            ),
            final(self).analog_inputs@ == old(self).analog_inputs@.update(
                mirrored_input(analog_output).spec_value() as int,
                value,
            ),
            *final(self) == (MockPlant {
                analog_outputs: final(self).analog_outputs,
                analog_inputs: final(self).analog_inputs,
                ..*old(self)
            }),
    {
        self.analog_outputs.set(analog_output.value(), value);
        let analog_input = match analog_output {
            AnalogOutput::CommandValuePcv1 => AnalogInput::ReadoutPcv1,
            AnalogOutput::CommandValuePcv2 => AnalogInput::ReadoutPcv2,
            AnalogOutput::CommandValueCmv1 => AnalogInput::ReadoutCmv1,
            AnalogOutput::CommandValueCmv2 => AnalogInput::ReadoutCmv2,
            AnalogOutput::CommandValueCmv20 => AnalogInput::ReadoutCmv20,
        };
        self.analog_inputs.set(analog_input.value(), value);
    }

    /// The value (the bit pattern of a voltage) of the analog input
    /// `analog_input`.
    pub fn read_analog_input(&self, analog_input: AnalogInput) -> (value: u64)
        requires
            self.well_formed(),
        ensures
            value == self.analog_inputs@[analog_input.spec_value() as int],
    {
        self.analog_inputs[analog_input.value()]
    }
}

impl MockPlant {
    /// Whether the plant is in the state in which it is built: a device at
    /// each of its addresses, each with the plant's values, all motor
    /// operated valves closed, all digital outputs off, the tank level
    /// sensors reading the plant's tank level and the other analog channels
    /// zero.
    pub open spec fn is_initial(&self) -> bool {
        &&& forall|i: int|
            0 <= i < NUM_TEMPERATURE_HUB ==> (#[trigger] self.sensor_temperature_hubs@[i]).spec_temperatures()
                == Seq::new(NUM_TEMPERATURE_CHANNEL as nat, |k: int| PLANT_TEMPERATURE)
        &&& forall|bus: int, i: int|
            #![trigger self.sensor_pressure_transducer_groups@[bus].pressure_transducers@[i]]
            0 <= bus < 3 && 0 <= i < self.addresses.pressure_transducer_bus(bus).len() ==> {
                let transducer = self.sensor_pressure_transducer_groups@[bus].pressure_transducers@[i];
                &&& transducer.address == self.addresses.pressure_transducer_bus(bus)[i]
                &&& transducer.pressure == PLANT_PRESSURE
            }
        &&& forall|bus: int, i: int|
            #![trigger self.sensor_flowmeter_groups@[bus].flowmeters@[i]]
            0 <= bus < 3 && 0 <= i < self.addresses.flowmeter_bus(bus).len()
                ==> self.sensor_flowmeter_groups@[bus].flowmeters@[i] == plant_flowmeter(
                self.addresses.flowmeter_bus(bus)[i],
            )
        &&& forall|i: int|
            0 <= i < self.sensor_power_grid_monitors@.len() ==> (
            #[trigger] self.sensor_power_grid_monitors@[i]).power_grid_monitor
                == plant_power_grid_monitor(self.addresses.power_grid_monitor@[i])
        &&& forall|i: int|
            0 <= i < self.pier_fans@.len() ==> is_plant_pier_fan(
                #[trigger] self.pier_fans@[i],
                self.addresses.pier_fan@[i],
            )
        &&& forall|i: int|
            0 <= i < self.recirculation_pumps@.len() ==> is_plant_recirculation_pump(
                (#[trigger] self.recirculation_pumps@[i]).recirculation_pump,
                self.addresses.recirculation_pump@[i],
            )
        &&& forall|i: int|
            0 <= i < self.chillers@.len() ==> (#[trigger] self.chillers@[i]).chiller
                == plant_chiller(self.addresses.chiller@[i]) && self.chillers@[i].counter_heartbeat
                == 0
        &&& self.digital_inputs_mod4 == default_digital_inputs_mod4()
        &&& self.digital_inputs_mod7 == 0
        &&& self.digital_outputs == 0
        &&& self.analog_inputs@ == default_analog_inputs()
        &&& self.analog_outputs@ == Seq::new(PLANT_NUM_CHANNEL_ANALOG_INPUT_OUTPUT as nat, |i: int| 0u64)
    }

    /// A simulated plant with a device at each address of `config`, each
    /// with the plant's values, all motor operated valves closed, all
    /// digital outputs off, the tank level sensors reading the plant's tank
    /// level and the other analog channels zero.
    pub fn new(config: Config) -> (plant: MockPlant)
        ensures
            plant.well_formed(),
            plant.addresses == config.addresses,
            plant.is_initial(),
    {
        let addresses = config.addresses;
        let mut sensor_temperature_hubs: Vec<MockTemperatureHub> = Vec::new();
        let mut k: usize = 0;
        while k < NUM_TEMPERATURE_HUB
            invariant
                k <= NUM_TEMPERATURE_HUB,
                sensor_temperature_hubs@.len() == k,
                forall|i: int|
                    0 <= i < k ==> (#[trigger] sensor_temperature_hubs@[i]).spec_temperatures()
                        == Seq::new(NUM_TEMPERATURE_CHANNEL as nat, |k: int| PLANT_TEMPERATURE),
            decreases NUM_TEMPERATURE_HUB - k,
        {
            sensor_temperature_hubs.push(MockTemperatureHub::new());
            k = k + 1;
        }
        let sensor_pressure_transducer_groups = vec![
            MockPressureTransducerGroup::new(addresses.pressure_transducer_bus_0.as_slice()),
            MockPressureTransducerGroup::new(addresses.pressure_transducer_bus_1.as_slice()),
            MockPressureTransducerGroup::new(addresses.pressure_transducer_bus_2.as_slice()),
        ];
        let sensor_flowmeter_groups = vec![
            MockFlowmeterGroup::new(addresses.flowmeter_bus_0.as_slice()),
            MockFlowmeterGroup::new(addresses.flowmeter_bus_1.as_slice()),
            MockFlowmeterGroup::new(addresses.flowmeter_bus_2.as_slice()),
        ];
        let sensor_power_grid_monitors = Self::create_power_grid_monitors(&addresses.power_grid_monitor);
        let pier_fans = Self::create_pier_fans(&addresses.pier_fan);
        let recirculation_pumps = Self::create_recirculation_pumps(&addresses.recirculation_pump);
        let chillers = Self::create_chillers(&addresses.chiller);
        let plant = MockPlant {
            addresses,
            sensor_temperature_hubs,
            sensor_pressure_transducer_groups,
            sensor_flowmeter_groups,
            sensor_power_grid_monitors,
            pier_fans,
            recirculation_pumps,
            chillers,
            digital_inputs_mod4: Self::get_default_digital_inputs_mod4(),
            analog_inputs: Self::get_default_analog_inputs(),
            digital_outputs: 0,
            digital_inputs_mod7: 0,
            analog_outputs: vec![0u64; PLANT_NUM_CHANNEL_ANALOG_INPUT_OUTPUT],
        };
        assert(plant.analog_outputs@ =~= Seq::new(
            PLANT_NUM_CHANNEL_ANALOG_INPUT_OUTPUT as nat,
            |i: int| 0u64,
        ));
        plant
    }

    /// A simulated power grid monitor at each of `addresses`.
    fn create_power_grid_monitors(addresses: &Vec<u8>) -> (monitors: Vec<MockPowerGridMonitor>)
        ensures
            monitors@.len() == addresses@.len(),
            forall|i: int|
                0 <= i < addresses@.len() ==> (#[trigger] monitors@[i]).power_grid_monitor
                    == plant_power_grid_monitor(addresses@[i]),
    {
        let mut monitors: Vec<MockPowerGridMonitor> = Vec::new();
        let mut k: usize = 0;
        while k < addresses.len()
            invariant
                k <= addresses@.len(),
                monitors@.len() == k,
                forall|i: int|
                    0 <= i < k ==> (#[trigger] monitors@[i]).power_grid_monitor
                        == plant_power_grid_monitor(addresses@[i]),
            decreases addresses@.len() - k,
        {
            monitors.push(MockPowerGridMonitor::new(addresses[k]));
            k = k + 1;
        }
        monitors
    }

    /// A simulated pier fan at each of `addresses`.
    fn create_pier_fans(addresses: &Vec<u8>) -> (fans: Vec<MockPierFan>)
        ensures
            fans@.len() == addresses@.len(),
            forall|i: int|
                0 <= i < addresses@.len() ==> is_plant_pier_fan(#[trigger] fans@[i], addresses@[i]),
    {
        let mut fans: Vec<MockPierFan> = Vec::new();
        let mut k: usize = 0;
        while k < addresses.len()
            invariant
                k <= addresses@.len(),
                fans@.len() == k,
                forall|i: int| 0 <= i < k ==> is_plant_pier_fan(#[trigger] fans@[i], addresses@[i]),
            decreases addresses@.len() - k,
        {
            fans.push(MockPierFan::new(addresses[k]));
            k = k + 1;
        }
        fans
    }

    /// A simulated recirculation pump at each of `addresses`.
    fn create_recirculation_pumps(addresses: &Vec<u8>) -> (pumps: Vec<MockRecirculationPump>)
        ensures
            pumps@.len() == addresses@.len(),
            forall|i: int|
                0 <= i < addresses@.len() ==> is_plant_recirculation_pump(
                    (#[trigger] pumps@[i]).recirculation_pump,
                    addresses@[i],
                ),
    {
        let mut pumps: Vec<MockRecirculationPump> = Vec::new();
        let mut k: usize = 0;
        while k < addresses.len()
            invariant
                k <= addresses@.len(),
                pumps@.len() == k,
                forall|i: int|
                    0 <= i < k ==> is_plant_recirculation_pump(
                        (#[trigger] pumps@[i]).recirculation_pump,
                        addresses@[i],
                    ),
            decreases addresses@.len() - k,
        {
            pumps.push(MockRecirculationPump::new(addresses[k]));
            k = k + 1;
        }
        pumps
    }

    /// A simulated chiller at each of `addresses`.
    fn create_chillers(addresses: &Vec<u8>) -> (chillers: Vec<MockChiller>)
        ensures
            chillers@.len() == addresses@.len(),
            forall|i: int|
                0 <= i < addresses@.len() ==> (#[trigger] chillers@[i]).chiller == plant_chiller(
                    addresses@[i],
                ) && chillers@[i].counter_heartbeat == 0,
    {
        let mut chillers: Vec<MockChiller> = Vec::new();
        let mut k: usize = 0;
        while k < addresses.len()
            invariant
                k <= addresses@.len(),
                chillers@.len() == k,
                forall|i: int|
                    0 <= i < k ==> (#[trigger] chillers@[i]).chiller == plant_chiller(addresses@[i])
                        && chillers@[i].counter_heartbeat == 0,
            decreases addresses@.len() - k,
        {
            chillers.push(MockChiller::new(addresses[k]));
            k = k + 1;
        }
        chillers
    }
}

/// Setting or clearing a bit leaves it set exactly when it was set, and
/// keeps every other bit.
proof fn lemma_switched_bit(bits: u32, a: u32, b: u32, on: bool)
    requires
        a < 32,
        b < 32,
    ensures
        (switched(bits, 1u32 << a, on) & (1u32 << a) != 0) == on,
        a != b ==> switched(bits, 1u32 << a, on) & (1u32 << b) == bits & (1u32 << b),
{
    assert((if on { bits | (1u32 << a) } else { bits & !(1u32 << a) }) & (1u32 << a) != 0 <==> on)
        by (bit_vector)
        requires
            a < 32,
    ;
    assert(a != b ==> (if on { bits | (1u32 << a) } else { bits & !(1u32 << a) }) & (1u32 << b) == bits
        & (1u32 << b)) by (bit_vector)
        requires
            a < 32,
            b < 32,
    ;
}

/// Setting or clearing two masks a second time changes nothing.
proof fn lemma_switched_twice(bits: u32, a: u32, b: u32, p: bool, q: bool)
    ensures
        switched(switched(switched(switched(bits, a, p), b, q), a, p), b, q) == switched(
            switched(bits, a, p),
            b,
            q,
        ),
        switched(switched(bits, a, p), a, p) == switched(bits, a, p),
{
    assert((if q {
        (if p {
            (if q {
                (if p {
                    bits | a
                } else {
                    bits & !a
                }) | b
            } else {
                (if p {
                    bits | a
                } else {
                    bits & !a
                }) & !b
            }) | a
        } else {
            (if q {
                (if p {
                    bits | a
                } else {
                    bits & !a
                }) | b
            } else {
                (if p {
                    bits | a
                } else {
                    bits & !a
                }) & !b
            }) & !a
        }) | b
    } else {
        (if p {
            (if q {
                (if p {
                    bits | a
                } else {
                    bits & !a
                }) | b
            } else {
                (if p {
                    bits | a
                } else {
                    bits & !a
                }) & !b
            }) | a
        } else {
            (if q {
                (if p {
                    bits | a
                } else {
                    bits & !a
                }) | b
            } else {
                (if p {
                    bits | a
                } else {
                    bits & !a
                }) & !b
            }) & !a
        }) & !b
    }) == (if q {
        (if p {
            bits | a
        } else {
            bits & !a
        }) | b
    } else {
        (if p {
            bits | a
        } else {
            bits & !a
        }) & !b
    })) by (bit_vector);
    assert((if p {
        (if p {
            bits | a
        } else {
            bits & !a
        }) | a
    } else {
        (if p {
            bits | a
        } else {
            bits & !a
        }) & !a
    }) == (if p {
        bits | a
    } else {
        bits & !a
    })) by (bit_vector);
}

/// Switching a digital output sets its bit exactly when it is switched on
/// and keeps the bits of the other outputs.
pub proof fn lemma_switch_digital_output_bits(
    bits: u32,
    output: DigitalOutput,
    other: DigitalOutput,
    on: bool,
)
    ensures
        (switched(bits, output.spec_bit_value(), on) & output.spec_bit_value() != 0) == on,
        other != output ==> switched(bits, output.spec_bit_value(), on) & other.spec_bit_value()
            == bits & other.spec_bit_value(),
{
    lemma_switched_bit(bits, output.spec_value(), other.spec_value(), on);
}

/// Switching a digital output a second time the same way changes neither
/// the outputs nor the digital inputs.
pub proof fn lemma_switch_digital_output_twice(
    outputs: u32,
    mod4: u32,
    mod7: u32,
    output: DigitalOutput,
    on: bool,
)
    ensures
        switched(switched(outputs, output.spec_bit_value(), on), output.spec_bit_value(), on)
            == switched(outputs, output.spec_bit_value(), on),
        digital_inputs_after(
            digital_inputs_after(mod4, mod7, output, on).0,
            digital_inputs_after(mod4, mod7, output, on).1,
            output,
            on,
        ) == digital_inputs_after(mod4, mod7, output, on),
{
    lemma_switched_twice(outputs, output.spec_bit_value(), 0, on, on);
    let close = !on;
    match output {
        DigitalOutput::OpenMov1 => lemma_switched_twice(
            mod4,
            DigitalInputMod4::OpenFeedbackMov1.spec_bit_value(),
            DigitalInputMod4::CloseFeedbackMov1.spec_bit_value(),
            on,
            close,
        ),
        DigitalOutput::OpenMov2 => lemma_switched_twice(
            mod4,
            DigitalInputMod4::OpenFeedbackMov2.spec_bit_value(),
            DigitalInputMod4::CloseFeedbackMov2.spec_bit_value(),
            on,
            close,
        ),
        DigitalOutput::OpenMov3 => lemma_switched_twice(
            mod4,
            DigitalInputMod4::OpenFeedbackMov3.spec_bit_value(),
            DigitalInputMod4::CloseFeedbackMov3.spec_bit_value(),
            on,
            close,
        ),
        DigitalOutput::OpenMov4 => lemma_switched_twice(
            mod4,
            DigitalInputMod4::OpenFeedbackMov4.spec_bit_value(),
            DigitalInputMod4::CloseFeedbackMov4.spec_bit_value(),
            on,
            close,
        ),
        DigitalOutput::OpenMov5 => lemma_switched_twice(
            mod4,
            DigitalInputMod4::OpenFeedbackMov5.spec_bit_value(),
            DigitalInputMod4::CloseFeedbackMov5.spec_bit_value(),
            on,
            close,
        ),
        DigitalOutput::PowerRecirculationPump1 => lemma_switched_twice(mod4, DigitalInputMod4::StatusK1.spec_bit_value(), 0, on, on),
        DigitalOutput::PowerRecirculationPump2 => lemma_switched_twice(mod4, DigitalInputMod4::StatusK2.spec_bit_value(), 0, on, on),
        DigitalOutput::PowerChiller1 => lemma_switched_twice(mod4, DigitalInputMod4::StatusK21.spec_bit_value(), 0, on, on),
        DigitalOutput::PowerChiller2 => lemma_switched_twice(mod4, DigitalInputMod4::StatusK22.spec_bit_value(), 0, on, on),
        DigitalOutput::PowerPierFan1 => lemma_switched_twice(mod7, DigitalInputMod7::StatusK3.spec_bit_value(), 0, on, on),
        DigitalOutput::PowerPierFan2 => lemma_switched_twice(mod7, DigitalInputMod7::StatusK4.spec_bit_value(), 0, on, on),
    }
}

/// The digital output that opens the motor operated valve `idx` (0 to 4).
pub open spec fn valve_output(idx: int) -> DigitalOutput {
    if idx == 0 {
        DigitalOutput::OpenMov1
    } else if idx == 1 {
        DigitalOutput::OpenMov2
    } else if idx == 2 {
        DigitalOutput::OpenMov3
    } else if idx == 3 {
        DigitalOutput::OpenMov4
    } else {
        DigitalOutput::OpenMov5
    }
}

/// The open feedback of the motor operated valve `idx` (0 to 4).
pub open spec fn valve_open_feedback(idx: int) -> DigitalInputMod4 {
    if idx == 0 {
        DigitalInputMod4::OpenFeedbackMov1
    } else if idx == 1 {
        DigitalInputMod4::OpenFeedbackMov2
    } else if idx == 2 {
        DigitalInputMod4::OpenFeedbackMov3
    } else if idx == 3 {
        DigitalInputMod4::OpenFeedbackMov4
    } else {
        DigitalInputMod4::OpenFeedbackMov5
    }
}

/// The close feedback of the motor operated valve `idx` (0 to 4).
pub open spec fn valve_close_feedback(idx: int) -> DigitalInputMod4 {
    if idx == 0 {
        DigitalInputMod4::CloseFeedbackMov1
    } else if idx == 1 {
        DigitalInputMod4::CloseFeedbackMov2
    } else if idx == 2 {
        DigitalInputMod4::CloseFeedbackMov3
    } else if idx == 3 {
        DigitalInputMod4::CloseFeedbackMov4
    } else {
        DigitalInputMod4::CloseFeedbackMov5
    }
}

/// Opening a motor operated valve sets its open feedback and clears its
/// close feedback; closing it does the reverse; module 7 is untouched.
pub proof fn lemma_valve_feedback(mod4: u32, mod7: u32, idx: int, on: bool)
    requires
        0 <= idx < 5,
    ensures
        (digital_inputs_after(mod4, mod7, valve_output(idx), on).0
            & valve_open_feedback(idx).spec_bit_value() != 0) == on,
        (digital_inputs_after(mod4, mod7, valve_output(idx), on).0
            & valve_close_feedback(idx).spec_bit_value() != 0) == !on,
        digital_inputs_after(mod4, mod7, valve_output(idx), on).1 == mod7,
{
    let open = valve_open_feedback(idx).spec_value();
    let close = valve_close_feedback(idx).spec_value();
    let opened = switched(mod4, 1u32 << open, on);
    lemma_switched_bit(mod4, open, close, on);
    lemma_switched_bit(opened, close, open, !on);
}

/// Switching the power of a pump, fan or chiller sets the status bit of
/// its contactor exactly when it is switched on.
pub proof fn lemma_contactor_follows_power(mod4: u32, mod7: u32, on: bool)
    ensures
        (digital_inputs_after(mod4, mod7, DigitalOutput::PowerRecirculationPump1, on).0
            & DigitalInputMod4::StatusK1.spec_bit_value() != 0) == on,
        (digital_inputs_after(mod4, mod7, DigitalOutput::PowerRecirculationPump2, on).0
            & DigitalInputMod4::StatusK2.spec_bit_value() != 0) == on,
        (digital_inputs_after(mod4, mod7, DigitalOutput::PowerPierFan1, on).1
            & DigitalInputMod7::StatusK3.spec_bit_value() != 0) == on,
        (digital_inputs_after(mod4, mod7, DigitalOutput::PowerPierFan2, on).1
            & DigitalInputMod7::StatusK4.spec_bit_value() != 0) == on,
        (digital_inputs_after(mod4, mod7, DigitalOutput::PowerChiller1, on).0
            & DigitalInputMod4::StatusK21.spec_bit_value() != 0) == on,
        (digital_inputs_after(mod4, mod7, DigitalOutput::PowerChiller2, on).0
            & DigitalInputMod4::StatusK22.spec_bit_value() != 0) == on,
{
    lemma_switched_bit(mod4, DigitalInputMod4::StatusK1.spec_value(), 0, on);
    lemma_switched_bit(mod4, DigitalInputMod4::StatusK2.spec_value(), 0, on);
    lemma_switched_bit(mod7, DigitalInputMod7::StatusK3.spec_value(), 0, on);
    lemma_switched_bit(mod7, DigitalInputMod7::StatusK4.spec_value(), 0, on);
    lemma_switched_bit(mod4, DigitalInputMod4::StatusK21.spec_value(), 0, on);
    lemma_switched_bit(mod4, DigitalInputMod4::StatusK22.spec_value(), 0, on);
}

/// The frame of a response, if any.
pub open spec fn frame_view(response: Option<Vec<u8>>) -> Option<Seq<u8>> {
    match response {
        Some(frame) => Some(frame@),
        None => None,
    }
}

/// The first index of a value is an index of the array.
proof fn lemma_first_index_in_range(array: Seq<u8>, value: u8)
    ensures
        first_index_of(array, value) matches Some(i) ==> 0 <= i < array.len() && array[i] == value,
    decreases array.len(),
{
    if array.len() > 0 && array[0] != value {
        lemma_first_index_in_range(array.drop_first(), value);
    }
}

} // verus!
