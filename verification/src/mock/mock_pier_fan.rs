use vstd::prelude::*;
use crate::constants::{
    NUM_REGISTER_PIER_FAN_ACTUAL_SPEED, NUM_REGISTER_PIER_FAN_REFERENCE_VALUE_OF_DC_LINK_VOLTAGE,
    REGISTER_ADDRESS_PIER_FAN_ACTUAL_SPEED, REGISTER_ADDRESS_PIER_FAN_MAXIMUM_SPEED,
    REGISTER_ADDRESS_PIER_FAN_REFERENCE_VALUE_OF_DC_LINK_VOLTAGE,
};
use crate::daq::pier_fan::{
    pier_fan_of_response, PierFan, FACTOR_PIER_FAN_DC_LINK_REFERENCE_CURRENT,
    FACTOR_PIER_FAN_DC_LINK_REFERENCE_VOLTAGE,
};
use crate::enums::{MotorStatusPierFan, WarningPierFan};
use crate::frame::{
    is_register_response, lemma_register_response_reads_back, register_at, register_or_zero,
    register_response, register_response_frame,
};
use crate::mock::mock_constants::{
    PLANT_PIER_FAN_ACTUAL_SPEED, PLANT_PIER_FAN_CURRENT_CONTROLLER_FUNCTION,
    PLANT_PIER_FAN_CURRENT_DIRECTION_OF_ROTATION, PLANT_PIER_FAN_CURRENT_MODULATION_LEVEL,
    PLANT_PIER_FAN_CURRENT_PARAMETER_SET, PLANT_PIER_FAN_CURRENT_POWER,
    PLANT_PIER_FAN_CURRENT_SET_VALUE, PLANT_PIER_FAN_DC_LINK_CURRENT,
    PLANT_PIER_FAN_DC_LINK_VOLTAGE, PLANT_PIER_FAN_ELECTRONICS_TEMPERATURE,
    PLANT_PIER_FAN_ENABLE_INPUT_STATUS, PLANT_PIER_FAN_MAX_SPEED,
    PLANT_PIER_FAN_MODULE_TEMPERATURE, PLANT_PIER_FAN_MOTOR_TEMPERATURE,
    PLANT_PIER_FAN_REF_DC_LINK_CURRENT, PLANT_PIER_FAN_REF_DC_LINK_VOLTAGE,
};
use crate::utility::frame_crc_valid;

verus! {

/// `value` as a 16-bit register, saturated at `u16::MAX`.
pub open spec fn saturated_register(value: int) -> u16 {
    if value > 0xFFFF {
        0xFFFF
    } else {
        value as u16
    }
}

/// The pier fan's actual-speed registers in order: the registers that the
/// fan does not report (11, 15 and 16) are zero, and the motor temperature
/// is sent as its two's complement bits.
pub open spec fn pier_fan_registers(pier_fan: PierFan) -> Seq<u16> {
    seq![
        pier_fan.actual_speed,
        pier_fan.motor_status,
        pier_fan.warning,
        pier_fan.dc_link_voltage,
        pier_fan.dc_link_current,
        pier_fan.module_temperature,
        pier_fan.motor_temperature as u16,
        pier_fan.electronics_temperature,
        pier_fan.current_direction_of_rotation,
        pier_fan.current_modulation_level,
        pier_fan.current_set_value,
        0u16,
        pier_fan.enable_input_status,
        pier_fan.current_parameter_set,
        pier_fan.current_controller_function,
        0u16,
        0u16,
        pier_fan.current_power,
    ]
}

/// The motor status after `status` is added: its bit and the general error
/// bit `FanBad` are set, the others are kept.
pub open spec fn motor_status_added(motor_status: u16, status: MotorStatusPierFan) -> u16 {
    motor_status | status.spec_bit_value() | MotorStatusPierFan::FanBad.spec_bit_value()
}

/// The warning after `warning` is added: its bit is set, the others are kept.
pub open spec fn warning_added(warning_bits: u16, warning: WarningPierFan) -> u16 {
    warning_bits | warning.spec_bit_value()
}

/// Whether `mock` is the simulated pier fan at `address` with the plant's
/// values and no error.
pub open spec fn is_plant_pier_fan(mock: MockPierFan, address: u8) -> bool {
    &&& mock.max_speed == PLANT_PIER_FAN_MAX_SPEED
    &&& mock.ref_dc_link_voltage == PLANT_PIER_FAN_REF_DC_LINK_VOLTAGE
    &&& mock.ref_dc_link_current == PLANT_PIER_FAN_REF_DC_LINK_CURRENT
    &&& mock.pier_fan == (PierFan {
        address,
        actual_speed: PLANT_PIER_FAN_ACTUAL_SPEED,
        motor_status: 0,
        warning: 0,
        dc_link_voltage: PLANT_PIER_FAN_DC_LINK_VOLTAGE,
        dc_link_current: PLANT_PIER_FAN_DC_LINK_CURRENT,
        module_temperature: PLANT_PIER_FAN_MODULE_TEMPERATURE,
        motor_temperature: PLANT_PIER_FAN_MOTOR_TEMPERATURE,
        electronics_temperature: PLANT_PIER_FAN_ELECTRONICS_TEMPERATURE,
        current_direction_of_rotation: PLANT_PIER_FAN_CURRENT_DIRECTION_OF_ROTATION,
        current_modulation_level: PLANT_PIER_FAN_CURRENT_MODULATION_LEVEL,
        current_set_value: PLANT_PIER_FAN_CURRENT_SET_VALUE,
        enable_input_status: PLANT_PIER_FAN_ENABLE_INPUT_STATUS,
        current_parameter_set: PLANT_PIER_FAN_CURRENT_PARAMETER_SET,
        current_controller_function: PLANT_PIER_FAN_CURRENT_CONTROLLER_FUNCTION,
        current_power: PLANT_PIER_FAN_CURRENT_POWER,
    })
}

/// A simulated pier fan.
pub struct MockPierFan {
    /// The maximum speed of the pier fan in rpm.
    pub max_speed: u16,
    /// The reference DC link voltage in mV.
    pub ref_dc_link_voltage: u32,
    /// The reference DC link current in mA.
    pub ref_dc_link_current: u32,
    /// The pier fan's registers.
    pub pier_fan: PierFan,
}

impl MockPierFan {
    /// The registers that the simulated fan answers with, from the register
    /// address `data_address` on: the maximum speed, the two reference
    /// registers (the reference values divided by their factors, saturated),
    /// the actual-speed registers, or none (all zero) at another address.
    pub open spec fn registers(self, data_address: u16) -> Seq<u16> {
        if data_address == REGISTER_ADDRESS_PIER_FAN_MAXIMUM_SPEED {
            seq![self.max_speed]
        } else if data_address == REGISTER_ADDRESS_PIER_FAN_REFERENCE_VALUE_OF_DC_LINK_VOLTAGE {
            seq![
                saturated_register(
                    self.ref_dc_link_voltage as int / FACTOR_PIER_FAN_DC_LINK_REFERENCE_VOLTAGE as int,
                ),
                saturated_register(
                    self.ref_dc_link_current as int / FACTOR_PIER_FAN_DC_LINK_REFERENCE_CURRENT as int,
                ),
            ]
        } else if data_address == REGISTER_ADDRESS_PIER_FAN_ACTUAL_SPEED {
            pier_fan_registers(self.pier_fan)
        } else {
            Seq::empty()
        }
    }

    /// A simulated pier fan at `address` with the plant's values.
    pub fn new(address: u8) -> (mock: MockPierFan)
        ensures
            is_plant_pier_fan(mock, address),
    {
        let mut pier_fan = PierFan::new(address);
        pier_fan.actual_speed = PLANT_PIER_FAN_ACTUAL_SPEED;
        pier_fan.dc_link_voltage = PLANT_PIER_FAN_DC_LINK_VOLTAGE;
        pier_fan.dc_link_current = PLANT_PIER_FAN_DC_LINK_CURRENT;
        pier_fan.module_temperature = PLANT_PIER_FAN_MODULE_TEMPERATURE;
        pier_fan.motor_temperature = PLANT_PIER_FAN_MOTOR_TEMPERATURE;
        pier_fan.electronics_temperature = PLANT_PIER_FAN_ELECTRONICS_TEMPERATURE;
        pier_fan.current_direction_of_rotation = PLANT_PIER_FAN_CURRENT_DIRECTION_OF_ROTATION;
        pier_fan.current_modulation_level = PLANT_PIER_FAN_CURRENT_MODULATION_LEVEL;
        pier_fan.current_set_value = PLANT_PIER_FAN_CURRENT_SET_VALUE;
        pier_fan.enable_input_status = PLANT_PIER_FAN_ENABLE_INPUT_STATUS;
        pier_fan.current_parameter_set = PLANT_PIER_FAN_CURRENT_PARAMETER_SET;
        pier_fan.current_controller_function = PLANT_PIER_FAN_CURRENT_CONTROLLER_FUNCTION;
        pier_fan.current_power = PLANT_PIER_FAN_CURRENT_POWER;
        MockPierFan {
            max_speed: PLANT_PIER_FAN_MAX_SPEED,
            ref_dc_link_voltage: PLANT_PIER_FAN_REF_DC_LINK_VOLTAGE,
            ref_dc_link_current: PLANT_PIER_FAN_REF_DC_LINK_CURRENT,
            pier_fan,
        }
    }

    /// Add the motor status `status`; the general error `FanBad` is set with
    /// every status.
    pub fn add_motor_status(&mut self, status: MotorStatusPierFan)
        ensures
            final(self).pier_fan == (PierFan {
                motor_status: motor_status_added(old(self).pier_fan.motor_status, status),
                ..old(self).pier_fan
            }),
            final(self).max_speed == old(self).max_speed,
            final(self).ref_dc_link_voltage == old(self).ref_dc_link_voltage,
            final(self).ref_dc_link_current == old(self).ref_dc_link_current,
    {
        self.pier_fan.motor_status = self.pier_fan.motor_status | status.bit_value();
        // General error. This is set for every error.
        self.pier_fan.motor_status = self.pier_fan.motor_status
            | MotorStatusPierFan::FanBad.bit_value();
    }

    /// Add the warning `warning`.
    pub fn add_warning(&mut self, warning: WarningPierFan)
        ensures
            final(self).pier_fan == (PierFan {
                warning: warning_added(old(self).pier_fan.warning, warning),
                ..old(self).pier_fan
            }),
            final(self).max_speed == old(self).max_speed,
            final(self).ref_dc_link_voltage == old(self).ref_dc_link_voltage,
            final(self).ref_dc_link_current == old(self).ref_dc_link_current,
    {
        self.pier_fan.warning = self.pier_fan.warning | warning.bit_value();
    }

    /// Clear the motor status and the warning.
    pub fn reset(&mut self)
        ensures
            final(self).pier_fan == (PierFan { motor_status: 0, warning: 0, ..old(self).pier_fan }),
            final(self).max_speed == old(self).max_speed,
            final(self).ref_dc_link_voltage == old(self).ref_dc_link_voltage,
            final(self).ref_dc_link_current == old(self).ref_dc_link_current,
    {
        self.pier_fan.motor_status = 0;
        self.pier_fan.warning = 0;
    }

    /// The fan's response to a read of `num` registers from the register
    /// address `data_address` on.
    pub fn request(&self, data_address: u16, num: u16) -> (frame: Vec<u8>)
        requires
            num <= 32767,
        ensures
            frame@ == register_response(self.pier_fan.address, num as nat, self.registers(data_address)),
    {
        let registers: Vec<u16> = if data_address == REGISTER_ADDRESS_PIER_FAN_MAXIMUM_SPEED {
            self.max_speed_registers()
        } else if data_address == REGISTER_ADDRESS_PIER_FAN_REFERENCE_VALUE_OF_DC_LINK_VOLTAGE {
            self.ref_dc_link_voltage_registers()
        } else if data_address == REGISTER_ADDRESS_PIER_FAN_ACTUAL_SPEED {
            self.actual_speed_registers()
        } else {
            Vec::new()
        };
        register_response_frame(self.pier_fan.address, num, registers.as_slice())
    }

    /// The maximum-speed register.
    fn max_speed_registers(&self) -> (registers: Vec<u16>)
        ensures
            registers@ == seq![self.max_speed],
    {
        vec![self.max_speed]
    }

    /// The reference registers of the DC link voltage and current.
    fn ref_dc_link_voltage_registers(&self) -> (registers: Vec<u16>)
        ensures
            registers@ == self.registers(REGISTER_ADDRESS_PIER_FAN_REFERENCE_VALUE_OF_DC_LINK_VOLTAGE),
    {
        let voltage: u32 = self.ref_dc_link_voltage / FACTOR_PIER_FAN_DC_LINK_REFERENCE_VOLTAGE;
        let current: u32 = self.ref_dc_link_current / FACTOR_PIER_FAN_DC_LINK_REFERENCE_CURRENT;
        let voltage_register: u16 = if voltage > 0xFFFF {
            0xFFFF
        } else {
            voltage as u16
        };
        let current_register: u16 = if current > 0xFFFF {
            0xFFFF
        } else {
            current as u16
        };
        let registers = vec![voltage_register, current_register];
        assert(registers@ =~= self.registers(
            REGISTER_ADDRESS_PIER_FAN_REFERENCE_VALUE_OF_DC_LINK_VOLTAGE,
        ));
        registers
    }

    /// The actual-speed registers.
    fn actual_speed_registers(&self) -> (registers: Vec<u16>)
        ensures
            registers@ == pier_fan_registers(self.pier_fan),
    {
        let pier_fan = &self.pier_fan;
        let registers = vec![
            pier_fan.actual_speed,
            pier_fan.motor_status,
            pier_fan.warning,
            pier_fan.dc_link_voltage,
            pier_fan.dc_link_current,
            pier_fan.module_temperature,
            pier_fan.motor_temperature as u16,
            pier_fan.electronics_temperature,
            pier_fan.current_direction_of_rotation,
            pier_fan.current_modulation_level,
            pier_fan.current_set_value,
            0,
            pier_fan.enable_input_status,
            pier_fan.current_parameter_set,
            pier_fan.current_controller_function,
            0,
            0,
            pier_fan.current_power,
        ];
        assert(registers@ =~= pier_fan_registers(*pier_fan));
        registers
    }
}

/// Adding a motor status twice gives what adding it once gives.
pub proof fn lemma_motor_status_added_twice(motor_status: u16, status: MotorStatusPierFan)
    ensures
        motor_status_added(motor_status_added(motor_status, status), status)
            == motor_status_added(motor_status, status),
{
    let bit = status.spec_bit_value();
    let bad = MotorStatusPierFan::FanBad.spec_bit_value();
    assert(((motor_status | bit | bad) | bit | bad) == (motor_status | bit | bad)) by (bit_vector);
}

/// Adding a warning twice gives what adding it once gives.
pub proof fn lemma_warning_added_twice(warning_bits: u16, warning: WarningPierFan)
    ensures
        warning_added(warning_added(warning_bits, warning), warning) == warning_added(
            warning_bits,
            warning,
        ),
{
    let bit = warning.spec_bit_value();
    assert(((warning_bits | bit) | bit) == (warning_bits | bit)) by (bit_vector);
}

/// A simulated pier fan's response to a read of its actual-speed registers
/// is a well-formed, correctly sealed response from which `PierFan::from_frame`
/// reads back the fan unchanged.
pub proof fn lemma_pier_fan_response_reads_back(mock: MockPierFan)
    ensures
        is_register_response(
            register_response(
                mock.pier_fan.address,
                NUM_REGISTER_PIER_FAN_ACTUAL_SPEED as nat,
                mock.registers(REGISTER_ADDRESS_PIER_FAN_ACTUAL_SPEED),
            ),
            NUM_REGISTER_PIER_FAN_ACTUAL_SPEED as nat,
        ),
        frame_crc_valid(
            register_response(
                mock.pier_fan.address,
                NUM_REGISTER_PIER_FAN_ACTUAL_SPEED as nat,
                mock.registers(REGISTER_ADDRESS_PIER_FAN_ACTUAL_SPEED),
            ),
        ),
        pier_fan_of_response(
            register_response(
                mock.pier_fan.address,
                NUM_REGISTER_PIER_FAN_ACTUAL_SPEED as nat,
                mock.registers(REGISTER_ADDRESS_PIER_FAN_ACTUAL_SPEED),
            ),
        ) == mock.pier_fan,
{
    let pier_fan = mock.pier_fan;
    let registers = pier_fan_registers(pier_fan);
    let address = pier_fan.address;
    assert forall|k: int| 0 <= k < 18 implies register_at(
        register_response(address, 18, registers),
        k,
    ) == registers[k] by {
        lemma_register_response_reads_back(address, 18, registers, k);
    }
    lemma_register_response_reads_back(address, 18, registers, 0);
    let temperature = pier_fan.motor_temperature;
    assert(((temperature as u16) as i16) == temperature) by (bit_vector);
    let frame = register_response(address, 18, registers);
    assert(register_at(frame, 6) == temperature as u16);
    assert(pier_fan_of_response(frame) == pier_fan);
}

/// A simulated pier fan's response to a read of its maximum-speed register
/// holds the maximum speed.
pub proof fn lemma_max_speed_response_reads_back(mock: MockPierFan)
    ensures
        is_register_response(
            register_response(
                mock.pier_fan.address,
                1,
                mock.registers(REGISTER_ADDRESS_PIER_FAN_MAXIMUM_SPEED),
            ),
            1,
        ),
        frame_crc_valid(
            register_response(
                mock.pier_fan.address,
                1,
                mock.registers(REGISTER_ADDRESS_PIER_FAN_MAXIMUM_SPEED),
            ),
        ),
        register_at(
            register_response(
                mock.pier_fan.address,
                1,
                mock.registers(REGISTER_ADDRESS_PIER_FAN_MAXIMUM_SPEED),
            ),
            0,
        ) == mock.max_speed,
{
    lemma_register_response_reads_back(
        mock.pier_fan.address,
        1,
        mock.registers(REGISTER_ADDRESS_PIER_FAN_MAXIMUM_SPEED),
        0,
    );
}

/// A simulated pier fan's response to a read of its two reference registers
/// gives back its reference DC link voltage and current, times their
/// factors, when each is a multiple of its factor that fits the register.
pub proof fn lemma_reference_response_reads_back(mock: MockPierFan)
    requires
        mock.ref_dc_link_voltage % FACTOR_PIER_FAN_DC_LINK_REFERENCE_VOLTAGE == 0,
        mock.ref_dc_link_voltage <= 0xFFFF * FACTOR_PIER_FAN_DC_LINK_REFERENCE_VOLTAGE,
        mock.ref_dc_link_current % FACTOR_PIER_FAN_DC_LINK_REFERENCE_CURRENT == 0,
        mock.ref_dc_link_current <= 0xFFFF * FACTOR_PIER_FAN_DC_LINK_REFERENCE_CURRENT,
    ensures
        is_register_response(
            register_response(
                mock.pier_fan.address,
                NUM_REGISTER_PIER_FAN_REFERENCE_VALUE_OF_DC_LINK_VOLTAGE as nat,
                mock.registers(REGISTER_ADDRESS_PIER_FAN_REFERENCE_VALUE_OF_DC_LINK_VOLTAGE),
            ),
            NUM_REGISTER_PIER_FAN_REFERENCE_VALUE_OF_DC_LINK_VOLTAGE as nat,
        ),
        frame_crc_valid(
            register_response(
                mock.pier_fan.address,
                NUM_REGISTER_PIER_FAN_REFERENCE_VALUE_OF_DC_LINK_VOLTAGE as nat,
                mock.registers(REGISTER_ADDRESS_PIER_FAN_REFERENCE_VALUE_OF_DC_LINK_VOLTAGE),
            ),
        ),
        register_at(
            register_response(
                mock.pier_fan.address,
                NUM_REGISTER_PIER_FAN_REFERENCE_VALUE_OF_DC_LINK_VOLTAGE as nat,
                mock.registers(REGISTER_ADDRESS_PIER_FAN_REFERENCE_VALUE_OF_DC_LINK_VOLTAGE),
            ),
            0,
        ) * FACTOR_PIER_FAN_DC_LINK_REFERENCE_VOLTAGE == mock.ref_dc_link_voltage,
        register_at(
            register_response(
                mock.pier_fan.address,
                NUM_REGISTER_PIER_FAN_REFERENCE_VALUE_OF_DC_LINK_VOLTAGE as nat,
                mock.registers(REGISTER_ADDRESS_PIER_FAN_REFERENCE_VALUE_OF_DC_LINK_VOLTAGE),
            ),
            1,
        ) * FACTOR_PIER_FAN_DC_LINK_REFERENCE_CURRENT == mock.ref_dc_link_current,
{
    let registers = mock.registers(REGISTER_ADDRESS_PIER_FAN_REFERENCE_VALUE_OF_DC_LINK_VOLTAGE);
    lemma_register_response_reads_back(mock.pier_fan.address, 2, registers, 0);
    lemma_register_response_reads_back(mock.pier_fan.address, 2, registers, 1);
}

} // verus!
