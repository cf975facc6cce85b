use vstd::prelude::*;
use crate::constants::{
    CODE_READ_HOLDING_REGISTERS, CODE_WRITE_SINGLE_REGISTER, NUM_REGISTER_CHILLER,
    NUM_REGISTER_FLOWMETER, NUM_REGISTER_PIER_FAN_ACTUAL_SPEED, NUM_REGISTER_POWER_GRID_MONITOR,
    NUM_REGISTER_RECIRCULATION_PUMP_DATA, REGISTER_ADDRESS_CHILLER_TEMPERATURE_SETPOINT,
    REGISTER_ADDRESS_FLOWMETER, REGISTER_ADDRESS_PIER_FAN_ACTUAL_SPEED,
    REGISTER_ADDRESS_PIER_FAN_RESET, REGISTER_ADDRESS_POWER_GRID_MONITOR,
    REGISTER_ADDRESS_RECIRCULATION_PUMP_DATA,
};
use crate::daq::chiller::chiller_of_response;
use crate::daq::flowmeter::flowmeter_of_response;
use crate::daq::modbus_communicator::{
    ascii_digit, command_frame, pressure_command, read_registers_command, write_register_command,
};
use crate::mock::mock_plant::pressure_command_address;
use crate::daq::pier_fan::pier_fan_of_response;
use crate::daq::power_grid_monitor::power_grid_monitor_of_response;
use crate::daq::recirculation_pump::data_of_response;
use crate::frame::is_register_response;
use crate::mock::mock_chiller::lemma_chiller_response_reads_back;
use crate::mock::mock_flowmeter_group::lemma_flowmeter_response_reads_back;
use crate::mock::mock_pier_fan::lemma_pier_fan_response_reads_back;
use crate::mock::mock_plant::{
    command_address_and_argument, command_argument, command_register_address, MockPlant,
};
use crate::mock::mock_power_grid_monitor::lemma_power_grid_monitor_response_reads_back;
use crate::mock::mock_recirculation_pump::lemma_data_response_reads_back;
use crate::utility::{frame_crc_valid, high_byte, low_byte};

verus! {

/// The parts of a command frame: its length, address, function code,
/// register address and argument.
proof fn lemma_command_parts(address: u8, code: u8, register_address: u16, argument: u16)
    ensures
        command_frame(address, code, register_address, argument).len() == 8,
        command_frame(address, code, register_address, argument)[0] == address,
        command_frame(address, code, register_address, argument)[1] == code,
        command_register_address(command_frame(address, code, register_address, argument))
            == register_address,
        command_argument(command_frame(address, code, register_address, argument)) == argument,
        command_address_and_argument(command_frame(address, code, register_address, argument))
            == Some((address, argument)),
{
    let command = command_frame(address, code, register_address, argument);
    assert(command[2] == high_byte(register_address));
    assert(command[3] == low_byte(register_address));
    assert(command[4] == high_byte(argument));
    assert(command[5] == low_byte(argument));
}

/// A flowmeter of the simulated plant answers the read command for its
/// address with a correctly sealed response from which the flowmeter reads
/// back unchanged.
pub proof fn lemma_plant_flowmeter_round_trip(plant: MockPlant, bus: int, i: int)
    requires
        plant.well_formed(),
        0 <= bus < 3,
        0 <= i < plant.addresses.flowmeter_bus(bus).len(),
        crate::utility::first_index_of(
            plant.addresses.flowmeter_bus(bus),
            plant.addresses.flowmeter_bus(bus)[i],
        ) == Some(i),
    ensures
        plant.flowmeter_reply(
            bus,
            read_registers_command(
                plant.addresses.flowmeter_bus(bus)[i],
                REGISTER_ADDRESS_FLOWMETER,
                NUM_REGISTER_FLOWMETER,
            ),
        ) matches Some(frame) && {
            &&& frame_crc_valid(frame)
            &&& is_register_response(frame, NUM_REGISTER_FLOWMETER as nat)
            &&& flowmeter_of_response(frame) == plant.sensor_flowmeter_groups@[bus].flowmeters@[i]
        },
{
    lemma_command_parts(
        plant.addresses.flowmeter_bus(bus)[i],
        CODE_READ_HOLDING_REGISTERS,
        REGISTER_ADDRESS_FLOWMETER,
        NUM_REGISTER_FLOWMETER,
    );
    lemma_flowmeter_response_reads_back(plant.sensor_flowmeter_groups@[bus].flowmeters@[i]);
}

/// A power grid monitor of the simulated plant answers the read command for
/// its address with a correctly sealed response from which the monitor
/// reads back unchanged.
pub proof fn lemma_plant_power_grid_monitor_round_trip(plant: MockPlant, i: int)
    requires
        plant.well_formed(),
        0 <= i < plant.addresses.power_grid_monitor@.len(),
        crate::utility::first_index_of(
            plant.addresses.power_grid_monitor@,
            plant.addresses.power_grid_monitor@[i],
        ) == Some(i),
    ensures
        plant.power_grid_monitor_reply(
            read_registers_command(
                plant.addresses.power_grid_monitor@[i],
                REGISTER_ADDRESS_POWER_GRID_MONITOR,
                NUM_REGISTER_POWER_GRID_MONITOR,
            ),
        ) matches Some(frame) && {
            &&& frame_crc_valid(frame)
            &&& is_register_response(frame, NUM_REGISTER_POWER_GRID_MONITOR as nat)
            &&& power_grid_monitor_of_response(frame)
                == plant.sensor_power_grid_monitors@[i].power_grid_monitor
        },
{
    lemma_command_parts(
        plant.addresses.power_grid_monitor@[i],
        CODE_READ_HOLDING_REGISTERS,
        REGISTER_ADDRESS_POWER_GRID_MONITOR,
        NUM_REGISTER_POWER_GRID_MONITOR,
    );
    lemma_power_grid_monitor_response_reads_back(
        plant.sensor_power_grid_monitors@[i].power_grid_monitor,
    );
}

/// A pier fan of the simulated plant answers the read command of its
/// actual-speed registers with a correctly sealed response from which the
/// fan reads back unchanged.
pub proof fn lemma_plant_pier_fan_round_trip(plant: MockPlant, i: int)
    requires
        plant.well_formed(),
        0 <= i < plant.addresses.pier_fan@.len(),
        crate::utility::first_index_of(plant.addresses.pier_fan@, plant.addresses.pier_fan@[i])
            == Some(i),
    ensures
        plant.pier_fan_reply(
            read_registers_command(
                plant.addresses.pier_fan@[i],
                REGISTER_ADDRESS_PIER_FAN_ACTUAL_SPEED,
                NUM_REGISTER_PIER_FAN_ACTUAL_SPEED,
            ),
        ) matches Some(frame) && {
            &&& frame_crc_valid(frame)
            &&& is_register_response(frame, NUM_REGISTER_PIER_FAN_ACTUAL_SPEED as nat)
            &&& pier_fan_of_response(frame) == plant.pier_fans@[i].pier_fan
        },
{
    lemma_command_parts(
        plant.addresses.pier_fan@[i],
        CODE_READ_HOLDING_REGISTERS,
        REGISTER_ADDRESS_PIER_FAN_ACTUAL_SPEED,
        NUM_REGISTER_PIER_FAN_ACTUAL_SPEED,
    );
    lemma_pier_fan_response_reads_back(plant.pier_fans@[i]);
}

/// A pier fan of the simulated plant answers the reset command for its
/// address with the command itself, and is reset by it.
pub proof fn lemma_plant_pier_fan_reset(plant: MockPlant, i: int, value: u16)
    requires
        plant.well_formed(),
        0 <= i < plant.addresses.pier_fan@.len(),
        crate::utility::first_index_of(plant.addresses.pier_fan@, plant.addresses.pier_fan@[i])
            == Some(i),
    ensures
        plant.is_pier_fan_reset(
            write_register_command(plant.addresses.pier_fan@[i], REGISTER_ADDRESS_PIER_FAN_RESET, value),
        ),
        plant.pier_fan_index(
            write_register_command(plant.addresses.pier_fan@[i], REGISTER_ADDRESS_PIER_FAN_RESET, value),
        ) == Some(i),
        plant.pier_fan_reply(
            write_register_command(plant.addresses.pier_fan@[i], REGISTER_ADDRESS_PIER_FAN_RESET, value),
        ) == Some(
            write_register_command(plant.addresses.pier_fan@[i], REGISTER_ADDRESS_PIER_FAN_RESET, value),
        ),
{
    lemma_command_parts(
        plant.addresses.pier_fan@[i],
        CODE_WRITE_SINGLE_REGISTER,
        REGISTER_ADDRESS_PIER_FAN_RESET,
        value,
    );
}

/// A recirculation pump of the simulated plant that has data answers the
/// read command of its data registers with a correctly sealed response from
/// which the data read back unchanged.
pub proof fn lemma_plant_recirculation_pump_data_round_trip(plant: MockPlant, i: int)
    requires
        plant.well_formed(),
        0 <= i < plant.addresses.recirculation_pump@.len(),
        crate::utility::first_index_of(
            plant.addresses.recirculation_pump@,
            plant.addresses.recirculation_pump@[i],
        ) == Some(i),
        plant.recirculation_pumps@[i].recirculation_pump.data is Some,
    ensures
        plant.recirculation_pump_reply(
            read_registers_command(
                plant.addresses.recirculation_pump@[i],
                REGISTER_ADDRESS_RECIRCULATION_PUMP_DATA,
                NUM_REGISTER_RECIRCULATION_PUMP_DATA,
            ),
        ) matches Some(frame) && {
            &&& frame_crc_valid(frame)
            &&& is_register_response(frame, NUM_REGISTER_RECIRCULATION_PUMP_DATA as nat)
            &&& Some(data_of_response(frame)) == plant.recirculation_pumps@[i].recirculation_pump.data
        },
{
    lemma_command_parts(
        plant.addresses.recirculation_pump@[i],
        CODE_READ_HOLDING_REGISTERS,
        REGISTER_ADDRESS_RECIRCULATION_PUMP_DATA,
        NUM_REGISTER_RECIRCULATION_PUMP_DATA,
    );
    let pump = plant.recirculation_pumps@[i].recirculation_pump;
    lemma_data_response_reads_back(pump.address, pump.data->0);
}

/// A chiller of the simulated plant answers the read command of all of its
/// registers with a correctly sealed response from which the chiller reads
/// back unchanged.
pub proof fn lemma_plant_chiller_round_trip(plant: MockPlant, idx: int, address: u8)
    requires
        plant.well_formed(),
        0 <= idx < plant.chillers@.len(),
    ensures
        plant.chiller_reply(
            idx,
            read_registers_command(
                address,
                REGISTER_ADDRESS_CHILLER_TEMPERATURE_SETPOINT,
                NUM_REGISTER_CHILLER,
            ),
        ) matches Some(frame) && {
            &&& frame_crc_valid(frame)
            &&& is_register_response(frame, NUM_REGISTER_CHILLER as nat)
            &&& chiller_of_response(frame) == plant.chillers@[idx].chiller
        },
{
    lemma_command_parts(
        address,
        CODE_READ_HOLDING_REGISTERS,
        REGISTER_ADDRESS_CHILLER_TEMPERATURE_SETPOINT,
        NUM_REGISTER_CHILLER,
    );
    lemma_chiller_response_reads_back(plant.chillers@[idx].chiller);
}

/// The simulated plant answers a pressure command exactly when it is the
/// communicator's command to read a pressure transducer, and reads back the
/// address that command names.
pub proof fn lemma_pressure_command_address(command: Seq<u8>, address: u8)
    ensures
        pressure_command_address(command) == Some(address) <==> command == pressure_command(
            address,
        ),
{
    let a = address as int;
    let d0 = a / 100;
    let d1 = (a / 10) % 10;
    let d2 = a % 10;
    assert(100 * d0 + 10 * d1 + d2 == a);
    let expected = pressure_command(address);
    assert(expected[1] == ascii_digit(d0) && expected[2] == ascii_digit(d1) && expected[3]
        == ascii_digit(d2));
    assert(pressure_command_address(expected) == Some(address));
    if pressure_command_address(command) == Some(address) {
        let e0 = command[1] - 0x30;
        let e1 = command[2] - 0x30;
        let e2 = command[3] - 0x30;
        assert(0 <= e0 <= 9 && 0 <= e1 <= 9 && 0 <= e2 <= 9);
        assert(100 * e0 + 10 * e1 + e2 == a);
        assert(e0 == d0 && e1 == d1 && e2 == d2);
        assert(command =~= expected);
    }
}

} // verus!
