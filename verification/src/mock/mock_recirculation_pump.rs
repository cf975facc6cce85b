use vstd::prelude::*;
use vstd::string::StrSliceExecFns;
use crate::constants::{
    NUM_REGISTER_RECIRCULATION_PUMP_CIM_CONFIGURATION, NUM_REGISTER_RECIRCULATION_PUMP_CONTROL,
    NUM_REGISTER_RECIRCULATION_PUMP_DATA, NUM_REGISTER_RECIRCULATION_PUMP_STATUS,
    REGISTER_ADDRESS_RECIRCULATION_PUMP_CIM_CONFIGURATION,
    REGISTER_ADDRESS_RECIRCULATION_PUMP_CONTROL, REGISTER_ADDRESS_RECIRCULATION_PUMP_DATA,
    REGISTER_ADDRESS_RECIRCULATION_PUMP_STATUS,
};
use crate::daq::recirculation_pump::{
    RecirculationPump, RecirculationPumpCimConfiguration, RecirculationPumpControl,
    RecirculationPumpData, RecirculationPumpStatus,
};
use crate::enums::AlarmWarningRecirculationPump;
use crate::daq::recirculation_pump::{
    control_of_response, data_of_response, is_cim_configuration_of_response, software_date_text,
    software_version_text, status_of_response,
};
use crate::enums::{
    lemma_alarm_warning_recirculation_pump_value_roundtrip,
    lemma_control_mode_recirculation_pump_value_roundtrip,
    lemma_operation_mode_recirculation_pump_value_roundtrip,
};
use crate::frame::{
    is_register_response, lemma_register_response_reads_back, long_at, register_at,
    register_or_zero, register_response, register_response_frame,
};
use crate::mock::mock_flowmeter_group::lemma_words_join;
use crate::text::{decimal_text, digit_char, nibbles_text};
use crate::utility::{frame_crc_valid, high_byte, low_byte};
use crate::mock::mock_constants::{
    PLANT_PUMP_CONFIGURATION_AUTO_ACK_CONTROL_BITS, PLANT_PUMP_CONFIGURATION_GENIBUS_TX_RX_COUNT,
    PLANT_PUMP_CONFIGURATION_PRODUCT_SOFTWARE_DATE,
    PLANT_PUMP_CONFIGURATION_PRODUCT_SOFTWARE_VERSION,
    PLANT_PUMP_CONFIGURATION_SOFTWARE_DEFINED_BIT_RATE,
    PLANT_PUMP_CONFIGURATION_SOFTWARE_DEFINED_PARITY,
    PLANT_PUMP_CONFIGURATION_SOFTWARE_DEFINED_STOP_BIT, PLANT_PUMP_CONTROL_CONTROL_MODE,
    PLANT_PUMP_CONTROL_OPERATION_MODE, PLANT_PUMP_CONTROL_SETPOINT, PLANT_PUMP_DATA_ENERGY,
    PLANT_PUMP_DATA_MOTOR_CURRENT, PLANT_PUMP_DATA_OPERATION_TIME, PLANT_PUMP_DATA_POWER,
    PLANT_PUMP_DATA_RELATIVE_PERFORMANCE, PLANT_PUMP_STATUS_PUMPS_PRESENT,
    PLANT_PUMP_STATUS_SYSTEM_ACTIVE_FUNCTIONS,
};
use crate::mock::mock_flowmeter_group::{high_word, low_word};

verus! {

/// Whether `c` is a decimal digit.
pub open spec fn is_digit_char(c: char) -> bool {
    '0' <= c <= '9'
}

/// The value of the decimal digit `c`.
pub open spec fn digit_value(c: char) -> u8 {
    (c as int - '0' as int) as u8
}

/// The values of the decimal digits of `text`, in order; other characters
/// are skipped.
pub open spec fn digits_of(text: Seq<char>) -> Seq<u8>
    decreases text.len(),
{
    if text.len() == 0 {
        Seq::empty()
    } else if is_digit_char(text.last()) {
        digits_of(text.drop_last()).push(digit_value(text.last()))
    } else {
        digits_of(text.drop_last())
    }
}

/// The `i`-th digit of `digits`, or 0 past its end.
pub open spec fn digit_or_zero(digits: Seq<u8>, i: int) -> u8 {
    if 0 <= i < digits.len() {
        digits[i]
    } else {
        0
    }
}

/// The byte whose high 4 bits are `high` and whose low 4 bits are `low`.
pub open spec fn combined_digits(high: u8, low: u8) -> u8 {
    (high << 4u8) | low
}

/// The register holding the four binary-coded decimal digits of `digits`
/// from `start` on (0 past its end), first digit in the highest 4 bits.
pub open spec fn bcd_register(digits: Seq<u8>, start: int) -> u16 {
    (combined_digits(digit_or_zero(digits, start), digit_or_zero(digits, start + 1)) as int * 256
        + combined_digits(digit_or_zero(digits, start + 2), digit_or_zero(digits, start + 3)) as int) as u16
}

/// The CIM configuration registers in order: the registers that the
/// configuration does not set are zero, the GENIbus counters are sent high
/// word first, and the product software version and date are sent as their
/// first eight decimal digits in binary-coded decimal.
pub open spec fn cim_configuration_registers(
    configuration: RecirculationPumpCimConfiguration,
) -> Seq<u16> {
    let version = digits_of(configuration.product_software_version@);
    let date = digits_of(configuration.product_software_date@);
    seq![
        configuration.slave_minimum_reply_delay,
        0u16,
        configuration.software_defined_modbus_address,
        configuration.software_defined_bit_rate,
        configuration.auto_ack_control_bits,
        0u16,
        0u16,
        0u16,
        configuration.software_defined_parity,
        configuration.software_defined_stop_bit,
        0u16,
        configuration.watchdog,
        configuration.genibus_diode_off,
        0u16,
        0u16,
        0u16,
        0u16,
        0u16,
        0u16,
        0u16,
        configuration.genibus_crc_error_cnt,
        configuration.genibus_data_error_cnt,
        configuration.version_number,
        configuration.actual_modbus_address,
        high_word(configuration.genibus_tx_count),
        low_word(configuration.genibus_tx_count),
        high_word(configuration.genibus_rx_count),
        low_word(configuration.genibus_rx_count),
        0u16,
        configuration.unit_family,
        configuration.unit_type,
        configuration.unit_version,
        0u16,
        bcd_register(version, 0),
        bcd_register(version, 4),
        bcd_register(date, 0),
        bcd_register(date, 4),
    ]
}

/// The control registers in order; the modes are sent as their codes.
pub open spec fn control_registers(control: RecirculationPumpControl) -> Seq<u16> {
    seq![
        control.status,
        control.control_mode.spec_value() as u16,
        control.operation_mode.spec_value() as u16,
        control.setpoint,
        control.control_pump_1,
    ]
}

/// The status registers in order; the modes, alarm and warning are sent as
/// their codes and register 6 is zero.
pub open spec fn status_registers(status: RecirculationPumpStatus) -> Seq<u16> {
    seq![
        status.status,
        status.process_feedback,
        status.control_mode.spec_value() as u16,
        status.operation_mode.spec_value() as u16,
        status.alarm_code.spec_value() as u16,
        status.warning_code.spec_value() as u16,
        0u16,
        status.pumps_present as u16,
        status.pumps_running as u16,
        status.pumps_fault as u16,
        status.pumps_comm_fault as u16,
        status.system_active_functions,
    ]
}

/// The data registers in order: each measured value at its register (the
/// 32-bit values high word first), the others zero.
pub open spec fn data_registers(data: RecirculationPumpData) -> Seq<u16> {
    Seq::new(
        NUM_REGISTER_RECIRCULATION_PUMP_DATA as nat,
        |k: int|
            if k == 2 {
                data.relative_performance
            } else if k == 7 {
                data.actual_setpoint
            } else if k == 8 {
                data.motor_current
            } else if k == 11 {
                high_word(data.power)
            } else if k == 12 {
                low_word(data.power)
            } else if k == 26 {
                high_word(data.operation_time)
            } else if k == 27 {
                low_word(data.operation_time)
            } else if k == 31 {
                high_word(data.energy)
            } else if k == 32 {
                low_word(data.energy)
            } else if k == 42 {
                data.user_setpoint
            } else {
                0u16
            },
    )
}

/// Whether a read of `num` CIM configuration registers reaches only the
/// product software digits that `configuration` has: the version's first
/// four digits from register 34 on, all eight from register 35 on, and the
/// same for the date from registers 36 and 37 on.
pub open spec fn cim_request_has_digits(
    configuration: RecirculationPumpCimConfiguration,
    num: u16,
) -> bool {
    &&& num >= 34 ==> digits_of(configuration.product_software_version@).len() >= 4
    &&& num >= 35 ==> digits_of(configuration.product_software_version@).len() >= 8
    &&& num >= 36 ==> digits_of(configuration.product_software_date@).len() >= 4
    &&& num >= 37 ==> digits_of(configuration.product_software_date@).len() >= 8
}

/// Whether `pump` is the recirculation pump at `address` with the plant's
/// values.
pub open spec fn is_plant_recirculation_pump(pump: RecirculationPump, address: u8) -> bool {
    &&& pump.address == address
    &&& pump.cim_configuration matches Some(configuration) && {
        &&& configuration.slave_minimum_reply_delay == 0
        &&& configuration.software_defined_modbus_address == 0
        &&& configuration.software_defined_bit_rate
            == PLANT_PUMP_CONFIGURATION_SOFTWARE_DEFINED_BIT_RATE
        &&& configuration.auto_ack_control_bits
            == PLANT_PUMP_CONFIGURATION_AUTO_ACK_CONTROL_BITS
        &&& configuration.software_defined_parity
            == PLANT_PUMP_CONFIGURATION_SOFTWARE_DEFINED_PARITY
        &&& configuration.software_defined_stop_bit
            == PLANT_PUMP_CONFIGURATION_SOFTWARE_DEFINED_STOP_BIT
        &&& configuration.watchdog == 0
        &&& configuration.genibus_diode_off == 0
        &&& configuration.genibus_crc_error_cnt == 0
        &&& configuration.genibus_data_error_cnt == 0
        &&& configuration.version_number == 0
        &&& configuration.actual_modbus_address == address as u16
        &&& configuration.genibus_tx_count == PLANT_PUMP_CONFIGURATION_GENIBUS_TX_RX_COUNT
        &&& configuration.genibus_rx_count == PLANT_PUMP_CONFIGURATION_GENIBUS_TX_RX_COUNT
        &&& configuration.unit_family == 0
        &&& configuration.unit_type == 0
        &&& configuration.unit_version == 0
        &&& configuration.product_software_version@
            == PLANT_PUMP_CONFIGURATION_PRODUCT_SOFTWARE_VERSION@
        &&& configuration.product_software_date@
            == PLANT_PUMP_CONFIGURATION_PRODUCT_SOFTWARE_DATE@
    }
    &&& pump.control == Some(
        RecirculationPumpControl {
            status: 0,
            control_mode: PLANT_PUMP_CONTROL_CONTROL_MODE,
            operation_mode: PLANT_PUMP_CONTROL_OPERATION_MODE,
            setpoint: PLANT_PUMP_CONTROL_SETPOINT,
            control_pump_1: 0,
        },
    )
    &&& pump.status == Some(
        RecirculationPumpStatus {
            status: 0,
            process_feedback: PLANT_PUMP_CONTROL_SETPOINT,
            control_mode: PLANT_PUMP_CONTROL_CONTROL_MODE,
            operation_mode: PLANT_PUMP_CONTROL_OPERATION_MODE,
            alarm_code: AlarmWarningRecirculationPump::NoAlarm,
            warning_code: AlarmWarningRecirculationPump::NoAlarm,
            pumps_present: PLANT_PUMP_STATUS_PUMPS_PRESENT,
            pumps_running: PLANT_PUMP_STATUS_PUMPS_PRESENT,
            pumps_fault: 0,
            pumps_comm_fault: 0,
            system_active_functions: PLANT_PUMP_STATUS_SYSTEM_ACTIVE_FUNCTIONS,
        },
    )
    &&& pump.data == Some(
        RecirculationPumpData {
            relative_performance: PLANT_PUMP_DATA_RELATIVE_PERFORMANCE,
            actual_setpoint: PLANT_PUMP_CONTROL_SETPOINT,
            motor_current: PLANT_PUMP_DATA_MOTOR_CURRENT,
            power: PLANT_PUMP_DATA_POWER,
            operation_time: PLANT_PUMP_DATA_OPERATION_TIME,
            energy: PLANT_PUMP_DATA_ENERGY,
            user_setpoint: PLANT_PUMP_CONTROL_SETPOINT,
        },
    )
}

/// A simulated recirculation pump.
pub struct MockRecirculationPump {
    /// The pump's values.
    pub recirculation_pump: RecirculationPump,
}

impl MockRecirculationPump {
    /// The registers that the simulated pump answers with, from the register
    /// address `data_address` on: those of the block that starts there, or
    /// none (all zero) when that block is not set or no block starts there.
    pub open spec fn registers(&self, data_address: u16) -> Seq<u16> {
        let pump = self.recirculation_pump;
        if data_address == REGISTER_ADDRESS_RECIRCULATION_PUMP_CIM_CONFIGURATION {
            match pump.cim_configuration {
                Some(configuration) => cim_configuration_registers(configuration),
                None => Seq::empty(),
            }
        } else if data_address == REGISTER_ADDRESS_RECIRCULATION_PUMP_CONTROL {
            match pump.control {
                Some(control) => control_registers(control),
                None => Seq::empty(),
            }
        } else if data_address == REGISTER_ADDRESS_RECIRCULATION_PUMP_STATUS {
            match pump.status {
                Some(status) => status_registers(status),
                None => Seq::empty(),
            }
        } else if data_address == REGISTER_ADDRESS_RECIRCULATION_PUMP_DATA {
            match pump.data {
                Some(data) => data_registers(data),
                None => Seq::empty(),
            }
        } else {
            Seq::empty()
        }
    }

    /// A simulated recirculation pump at `address` with the plant's values.
    pub fn new(address: u8) -> (mock: MockRecirculationPump)
        ensures
            is_plant_recirculation_pump(mock.recirculation_pump, address),
    {
        MockRecirculationPump { recirculation_pump: Self::create_recirculation_pump(address) }
    }

    /// The recirculation pump at `address` with the plant's values.
    fn create_recirculation_pump(address: u8) -> (pump: RecirculationPump)
        ensures
            is_plant_recirculation_pump(pump, address),
    {
        let mut recirculation_pump = RecirculationPump::new(address);
        recirculation_pump.cim_configuration = Some(
            RecirculationPumpCimConfiguration {
                slave_minimum_reply_delay: 0,
                software_defined_modbus_address: 0,
                software_defined_bit_rate: PLANT_PUMP_CONFIGURATION_SOFTWARE_DEFINED_BIT_RATE,
                auto_ack_control_bits: PLANT_PUMP_CONFIGURATION_AUTO_ACK_CONTROL_BITS,
                software_defined_parity: PLANT_PUMP_CONFIGURATION_SOFTWARE_DEFINED_PARITY,
                software_defined_stop_bit: PLANT_PUMP_CONFIGURATION_SOFTWARE_DEFINED_STOP_BIT,
                watchdog: 0,
                genibus_diode_off: 0,
                genibus_crc_error_cnt: 0,
                genibus_data_error_cnt: 0,
                version_number: 0,
                actual_modbus_address: address as u16,
                genibus_tx_count: PLANT_PUMP_CONFIGURATION_GENIBUS_TX_RX_COUNT,
                genibus_rx_count: PLANT_PUMP_CONFIGURATION_GENIBUS_TX_RX_COUNT,
                unit_family: 0,
                unit_type: 0,
                unit_version: 0,
                product_software_version: PLANT_PUMP_CONFIGURATION_PRODUCT_SOFTWARE_VERSION.to_owned(),
                product_software_date: PLANT_PUMP_CONFIGURATION_PRODUCT_SOFTWARE_DATE.to_owned(),
            },
        );
        recirculation_pump.control = Some(
            RecirculationPumpControl {
                status: 0,
                control_mode: PLANT_PUMP_CONTROL_CONTROL_MODE,
                operation_mode: PLANT_PUMP_CONTROL_OPERATION_MODE,
                setpoint: PLANT_PUMP_CONTROL_SETPOINT,
                control_pump_1: 0,
            },
        );
        recirculation_pump.status = Some(
            RecirculationPumpStatus {
                status: 0,
                process_feedback: PLANT_PUMP_CONTROL_SETPOINT,
                control_mode: PLANT_PUMP_CONTROL_CONTROL_MODE,
                operation_mode: PLANT_PUMP_CONTROL_OPERATION_MODE,
                alarm_code: AlarmWarningRecirculationPump::NoAlarm,
                warning_code: AlarmWarningRecirculationPump::NoAlarm,
                pumps_present: PLANT_PUMP_STATUS_PUMPS_PRESENT,
                pumps_running: PLANT_PUMP_STATUS_PUMPS_PRESENT,
                pumps_fault: 0,
                pumps_comm_fault: 0,
                system_active_functions: PLANT_PUMP_STATUS_SYSTEM_ACTIVE_FUNCTIONS,
            },
        );
        recirculation_pump.data = Some(
            RecirculationPumpData {
                relative_performance: PLANT_PUMP_DATA_RELATIVE_PERFORMANCE,
                actual_setpoint: PLANT_PUMP_CONTROL_SETPOINT,
                motor_current: PLANT_PUMP_DATA_MOTOR_CURRENT,
                power: PLANT_PUMP_DATA_POWER,
                operation_time: PLANT_PUMP_DATA_OPERATION_TIME,
                energy: PLANT_PUMP_DATA_ENERGY,
                user_setpoint: PLANT_PUMP_CONTROL_SETPOINT,
            },
        );
        recirculation_pump
    }

    /// The pump's response to a read of `num` registers from the register
    /// address `data_address` on.
    pub fn request(&self, data_address: u16, num: u16) -> (frame: Vec<u8>)
        requires
            num <= 32767,
            data_address == REGISTER_ADDRESS_RECIRCULATION_PUMP_CIM_CONFIGURATION ==> (
            self.recirculation_pump.cim_configuration matches Some(configuration)
                ==> cim_request_has_digits(configuration, num)),
        ensures
            frame@ == register_response(
                self.recirculation_pump.address,
                num as nat,
                self.registers(data_address),
            ),
    {
        let pump = &self.recirculation_pump;
        let registers: Vec<u16> = if data_address
            == REGISTER_ADDRESS_RECIRCULATION_PUMP_CIM_CONFIGURATION {
            match &pump.cim_configuration {
                Some(configuration) => Self::get_frame_cim_configuration(configuration),
                None => Vec::new(),
            }
        } else if data_address == REGISTER_ADDRESS_RECIRCULATION_PUMP_CONTROL {
            match &pump.control {
                Some(control) => Self::get_frame_control(control),
                None => Vec::new(),
            }
        } else if data_address == REGISTER_ADDRESS_RECIRCULATION_PUMP_STATUS {
            match &pump.status {
                Some(status) => Self::get_frame_status(status),
                None => Vec::new(),
            }
        } else if data_address == REGISTER_ADDRESS_RECIRCULATION_PUMP_DATA {
            match &pump.data {
                Some(data) => Self::get_frame_data(data),
                None => Vec::new(),
            }
        } else {
            Vec::new()
        };
        register_response_frame(pump.address, num, registers.as_slice())
    }

    /// The values of the decimal digits of `s`, in order.
    pub fn get_digits_from_string(s: &str) -> (digits: Vec<u8>)
        ensures
            digits@ == digits_of(s@),
    {
        let length = s.unicode_len();
        let mut digits: Vec<u8> = Vec::new();
        let mut i: usize = 0;
        while i < length
            invariant
                i <= length,
                length == s@.len(),
                digits@ == digits_of(s@.subrange(0, i as int)),
            decreases length - i,
        {
            let c = s.get_char(i);
            assert(s@.subrange(0, i + 1).drop_last() =~= s@.subrange(0, i as int));
            if '0' <= c && c <= '9' {
                digits.push(((c as u32) - ('0' as u32)) as u8);
            }
            i = i + 1;
        }
        assert(s@.subrange(0, length as int) =~= s@);
        digits
    }

    /// The byte whose high 4 bits are `high` and whose low 4 bits are `low`.
    pub fn combine_digits(high: u8, low: u8) -> (combined: u8)
        ensures
            combined == combined_digits(high, low),
    {
        (high << 4u8) | low
    }

    /// The `i`-th digit of `digits`, or 0 past its end.
    fn digit_at(digits: &Vec<u8>, i: usize) -> (digit: u8)
        ensures
            digit == digit_or_zero(digits@, i as int),
    {
        if i < digits.len() {
            digits[i]
        } else {
            0
        }
    }

    /// The register holding the four binary-coded decimal digits of
    /// `digits` from `start` on.
    fn bcd_register_of(digits: &Vec<u8>, start: usize) -> (register: u16)
        requires
            start + 3 < usize::MAX,
        ensures
            register == bcd_register(digits@, start as int),
    {
        let high = Self::combine_digits(Self::digit_at(digits, start), Self::digit_at(digits, start + 1));
        let low = Self::combine_digits(
            Self::digit_at(digits, start + 2),
            Self::digit_at(digits, start + 3),
        );
        (high as u16) * 256 + (low as u16)
    }

    /// The CIM configuration registers.
    fn get_frame_cim_configuration(configuration: &RecirculationPumpCimConfiguration) -> (registers:
        Vec<u16>)
        ensures
            registers@ == cim_configuration_registers(*configuration),
    {
        let version = Self::get_digits_from_string(configuration.product_software_version.as_str());
        let date = Self::get_digits_from_string(configuration.product_software_date.as_str());
        let registers = vec![
            configuration.slave_minimum_reply_delay,
            0,
            configuration.software_defined_modbus_address,
            configuration.software_defined_bit_rate,
            configuration.auto_ack_control_bits,
            0,
            0,
            0,
            configuration.software_defined_parity,
            configuration.software_defined_stop_bit,
            0,
            configuration.watchdog,
            configuration.genibus_diode_off,
            0,
            0,
            0,
            0,
            0,
            0,
            0,
            configuration.genibus_crc_error_cnt,
            configuration.genibus_data_error_cnt,
            configuration.version_number,
            configuration.actual_modbus_address,
            (configuration.genibus_tx_count / 65536) as u16,
            (configuration.genibus_tx_count % 65536) as u16,
            (configuration.genibus_rx_count / 65536) as u16,
            (configuration.genibus_rx_count % 65536) as u16,
            0,
            configuration.unit_family,
            configuration.unit_type,
            configuration.unit_version,
            0,
            Self::bcd_register_of(&version, 0),
            Self::bcd_register_of(&version, 4),
            Self::bcd_register_of(&date, 0),
            Self::bcd_register_of(&date, 4),
        ];
        assert(registers@ =~= cim_configuration_registers(*configuration));
        registers
    }

    /// The control registers.
    fn get_frame_control(control: &RecirculationPumpControl) -> (registers: Vec<u16>)
        ensures
            registers@ == control_registers(*control),
    {
        let registers = vec![
            control.status,
            control.control_mode.value() as u16,
            control.operation_mode.value() as u16,
            control.setpoint,
            control.control_pump_1,
        ];
        assert(registers@ =~= control_registers(*control));
        registers
    }

    /// The status registers.
    fn get_frame_status(status: &RecirculationPumpStatus) -> (registers: Vec<u16>)
        ensures
            registers@ == status_registers(*status),
    {
        let registers = vec![
            status.status,
            status.process_feedback,
            status.control_mode.value() as u16,
            status.operation_mode.value() as u16,
            status.alarm_code.value() as u16,
            status.warning_code.value() as u16,
            0,
            status.pumps_present as u16,
            status.pumps_running as u16,
            status.pumps_fault as u16,
            status.pumps_comm_fault as u16,
            status.system_active_functions,
        ];
        assert(registers@ =~= status_registers(*status));
        registers
    }

    /// The data registers.
    fn get_frame_data(data: &RecirculationPumpData) -> (registers: Vec<u16>)
        ensures
            registers@ == data_registers(*data),
    {
        let mut registers: Vec<u16> = vec![0u16; 43];
        registers.set(2, data.relative_performance);
        registers.set(7, data.actual_setpoint);
        registers.set(8, data.motor_current);
        registers.set(11, (data.power / 65536) as u16);
        registers.set(12, (data.power % 65536) as u16);
        registers.set(26, (data.operation_time / 65536) as u16);
        registers.set(27, (data.operation_time % 65536) as u16);
        registers.set(31, (data.energy / 65536) as u16);
        registers.set(32, (data.energy % 65536) as u16);
        registers.set(42, data.user_setpoint);
        assert(registers@ =~= data_registers(*data));
        registers
    }
}

/// Whether `text` has the form "aa.bb.cc.dd" of a product software version,
/// with decimal digits.
pub open spec fn is_version_text(text: Seq<char>) -> bool {
    &&& text.len() == 11
    &&& forall|i: int|
        0 <= i < 11 ==> if i % 3 == 2 {
            #[trigger] text[i] == '.'
        } else {
            is_digit_char(text[i])
        }
}

/// Whether `text` has the form "dd/mm/yyyy" of a product software date,
/// with decimal digits.
pub open spec fn is_date_text(text: Seq<char>) -> bool {
    &&& text.len() == 10
    &&& forall|i: int|
        0 <= i < 10 ==> if i == 2 || i == 5 {
            #[trigger] text[i] == '/'
        } else {
            is_digit_char(text[i])
        }
}

/// The digits of a prefix of `text` one character longer.
proof fn lemma_digits_of_prefix(text: Seq<char>, n: int)
    requires
        0 <= n < text.len(),
    ensures
        digits_of(text.subrange(0, n + 1)) == if is_digit_char(text[n]) {
            digits_of(text.subrange(0, n)).push(digit_value(text[n]))
        } else {
            digits_of(text.subrange(0, n))
        },
{
    assert(text.subrange(0, n + 1).drop_last() =~= text.subrange(0, n));
}

/// The value of a decimal digit is below 10, and its digit character is the
/// digit itself.
proof fn lemma_digit_value(c: char)
    requires
        is_digit_char(c),
    ensures
        digit_value(c) < 10,
        digit_char(digit_value(c) as int) == c,
{
}

/// The text of the two 4-bit halves of a byte of two binary-coded decimal
/// digits is those two digits.
proof fn lemma_combined_digits_text(high: u8, low: u8)
    requires
        high < 10,
        low < 10,
    ensures
        nibbles_text(combined_digits(high, low)) == seq![digit_char(high as int), digit_char(low as int)],
{
    let byte = combined_digits(high, low);
    assert(((high << 4u8) | low) / 16 == high && ((high << 4u8) | low) % 16 == low) by (bit_vector)
        requires
            high < 10,
            low < 10,
    ;
    assert(decimal_text(byte / 16) =~= seq![digit_char(high as int)]);
    assert(decimal_text(byte % 16) =~= seq![digit_char(low as int)]);
}

/// The bytes of a binary-coded decimal register.
proof fn lemma_bcd_register_bytes(digits: Seq<u8>, start: int)
    ensures
        high_byte(bcd_register(digits, start)) == combined_digits(
            digit_or_zero(digits, start),
            digit_or_zero(digits, start + 1),
        ),
        low_byte(bcd_register(digits, start)) == combined_digits(
            digit_or_zero(digits, start + 2),
            digit_or_zero(digits, start + 3),
        ),
{
    let high = combined_digits(digit_or_zero(digits, start), digit_or_zero(digits, start + 1));
    let low = combined_digits(digit_or_zero(digits, start + 2), digit_or_zero(digits, start + 3));
    assert((high as int * 256 + low as int) / 256 == high as int) by (nonlinear_arith)
        requires
            0 <= low < 256,
    ;
    assert((high as int * 256 + low as int) % 256 == low as int) by (nonlinear_arith)
        requires
            0 <= low < 256,
    ;
}

/// The digits of a product software version text.
proof fn lemma_version_digits(text: Seq<char>)
    requires
        is_version_text(text),
    ensures
        digits_of(text) == seq![
            digit_value(text[0]),
            digit_value(text[1]),
            digit_value(text[3]),
            digit_value(text[4]),
            digit_value(text[6]),
            digit_value(text[7]),
            digit_value(text[9]),
            digit_value(text[10]),
        ],
{
    assert(text.subrange(0, 0) =~= Seq::<char>::empty());
    lemma_digits_of_prefix(text, 0);
    assert(is_digit_char(text[0]));
    lemma_digits_of_prefix(text, 1);
    assert(is_digit_char(text[1]));
    lemma_digits_of_prefix(text, 2);
    assert(text[2] == '.');
    lemma_digits_of_prefix(text, 3);
    assert(is_digit_char(text[3]));
    lemma_digits_of_prefix(text, 4);
    assert(is_digit_char(text[4]));
    lemma_digits_of_prefix(text, 5);
    assert(text[5] == '.');
    lemma_digits_of_prefix(text, 6);
    assert(is_digit_char(text[6]));
    lemma_digits_of_prefix(text, 7);
    assert(is_digit_char(text[7]));
    lemma_digits_of_prefix(text, 8);
    assert(text[8] == '.');
    lemma_digits_of_prefix(text, 9);
    assert(is_digit_char(text[9]));
    lemma_digits_of_prefix(text, 10);
    assert(is_digit_char(text[10]));
    assert(text.subrange(0, 11) =~= text);
    assert(digits_of(text.subrange(0, 3)) =~= seq![digit_value(text[0]), digit_value(text[1])]);
    assert(digits_of(text.subrange(0, 6)) =~= seq![
        digit_value(text[0]),
        digit_value(text[1]),
        digit_value(text[3]),
        digit_value(text[4]),
    ]);
    assert(digits_of(text.subrange(0, 9)) =~= seq![
        digit_value(text[0]),
        digit_value(text[1]),
        digit_value(text[3]),
        digit_value(text[4]),
        digit_value(text[6]),
        digit_value(text[7]),
    ]);
}

/// The digits of a product software date text.
proof fn lemma_date_digits(text: Seq<char>)
    requires
        is_date_text(text),
    ensures
        digits_of(text) == seq![
            digit_value(text[0]),
            digit_value(text[1]),
            digit_value(text[3]),
            digit_value(text[4]),
            digit_value(text[6]),
            digit_value(text[7]),
            digit_value(text[8]),
            digit_value(text[9]),
        ],
{
    assert(text.subrange(0, 0) =~= Seq::<char>::empty());
    lemma_digits_of_prefix(text, 0);
    assert(is_digit_char(text[0]));
    lemma_digits_of_prefix(text, 1);
    assert(is_digit_char(text[1]));
    lemma_digits_of_prefix(text, 2);
    assert(text[2] == '/');
    lemma_digits_of_prefix(text, 3);
    assert(is_digit_char(text[3]));
    lemma_digits_of_prefix(text, 4);
    assert(is_digit_char(text[4]));
    lemma_digits_of_prefix(text, 5);
    assert(text[5] == '/');
    lemma_digits_of_prefix(text, 6);
    assert(is_digit_char(text[6]));
    lemma_digits_of_prefix(text, 7);
    assert(is_digit_char(text[7]));
    lemma_digits_of_prefix(text, 8);
    assert(is_digit_char(text[8]));
    lemma_digits_of_prefix(text, 9);
    assert(is_digit_char(text[9]));
    assert(text.subrange(0, 10) =~= text);
    assert(digits_of(text.subrange(0, 3)) =~= seq![digit_value(text[0]), digit_value(text[1])]);
    assert(digits_of(text.subrange(0, 6)) =~= seq![
        digit_value(text[0]),
        digit_value(text[1]),
        digit_value(text[3]),
        digit_value(text[4]),
    ]);
}

/// A simulated pump's response to a read of its control registers is a
/// well-formed, correctly sealed response from which the control registers
/// read back unchanged.
pub proof fn lemma_control_response_reads_back(address: u8, control: RecirculationPumpControl)
    ensures
        is_register_response(
            register_response(
                address,
                NUM_REGISTER_RECIRCULATION_PUMP_CONTROL as nat,
                control_registers(control),
            ),
            NUM_REGISTER_RECIRCULATION_PUMP_CONTROL as nat,
        ),
        frame_crc_valid(
            register_response(
                address,
                NUM_REGISTER_RECIRCULATION_PUMP_CONTROL as nat,
                control_registers(control),
            ),
        ),
        control_of_response(
            register_response(
                address,
                NUM_REGISTER_RECIRCULATION_PUMP_CONTROL as nat,
                control_registers(control),
            ),
        ) == Some(control),
{
    let registers = control_registers(control);
    assert forall|k: int| 0 <= k < 5 implies register_at(register_response(address, 5, registers), k)
        == registers[k] by {
        lemma_register_response_reads_back(address, 5, registers, k);
    }
    lemma_register_response_reads_back(address, 5, registers, 0);
    lemma_control_mode_recirculation_pump_value_roundtrip(control.control_mode);
    lemma_operation_mode_recirculation_pump_value_roundtrip(control.operation_mode);
}

/// A simulated pump's response to a read of its status registers is a
/// well-formed, correctly sealed response from which the status registers
/// read back unchanged.
pub proof fn lemma_status_response_reads_back(address: u8, status: RecirculationPumpStatus)
    ensures
        is_register_response(
            register_response(
                address,
                NUM_REGISTER_RECIRCULATION_PUMP_STATUS as nat,
                status_registers(status),
            ),
            NUM_REGISTER_RECIRCULATION_PUMP_STATUS as nat,
        ),
        frame_crc_valid(
            register_response(
                address,
                NUM_REGISTER_RECIRCULATION_PUMP_STATUS as nat,
                status_registers(status),
            ),
        ),
        status_of_response(
            register_response(
                address,
                NUM_REGISTER_RECIRCULATION_PUMP_STATUS as nat,
                status_registers(status),
            ),
        ) == Some(status),
{
    let registers = status_registers(status);
    assert forall|k: int| 0 <= k < 12 implies register_at(
        register_response(address, 12, registers),
        k,
    ) == registers[k] by {
        lemma_register_response_reads_back(address, 12, registers, k);
    }
    lemma_register_response_reads_back(address, 12, registers, 0);
    lemma_control_mode_recirculation_pump_value_roundtrip(status.control_mode);
    lemma_operation_mode_recirculation_pump_value_roundtrip(status.operation_mode);
    lemma_alarm_warning_recirculation_pump_value_roundtrip(status.alarm_code);
    lemma_alarm_warning_recirculation_pump_value_roundtrip(status.warning_code);
}

/// A simulated pump's response to a read of its data registers is a
/// well-formed, correctly sealed response from which the data read back
/// unchanged.
pub proof fn lemma_data_response_reads_back(address: u8, data: RecirculationPumpData)
    ensures
        is_register_response(
            register_response(
                address,
                NUM_REGISTER_RECIRCULATION_PUMP_DATA as nat,
                data_registers(data),
            ),
            NUM_REGISTER_RECIRCULATION_PUMP_DATA as nat,
        ),
        frame_crc_valid(
            register_response(address, NUM_REGISTER_RECIRCULATION_PUMP_DATA as nat, data_registers(data)),
        ),
        data_of_response(
            register_response(address, NUM_REGISTER_RECIRCULATION_PUMP_DATA as nat, data_registers(data)),
        ) == data,
{
    let registers = data_registers(data);
    let frame = register_response(address, 43, registers);
    assert forall|k: int| 0 <= k < 43 implies register_at(frame, k) == registers[k] by {
        lemma_register_response_reads_back(address, 43, registers, k);
    }
    lemma_register_response_reads_back(address, 43, registers, 0);
    assert(register_at(frame, 11) == high_word(data.power));
    assert(register_at(frame, 12) == low_word(data.power));
    assert(register_at(frame, 26) == high_word(data.operation_time));
    assert(register_at(frame, 27) == low_word(data.operation_time));
    assert(register_at(frame, 31) == high_word(data.energy));
    assert(register_at(frame, 32) == low_word(data.energy));
    lemma_words_join(data.power);
    lemma_words_join(data.operation_time);
    lemma_words_join(data.energy);
    assert(register_at(frame, 2) == data.relative_performance);
    assert(register_at(frame, 7) == data.actual_setpoint);
    assert(register_at(frame, 8) == data.motor_current);
    assert(register_at(frame, 42) == data.user_setpoint);
}

/// A simulated pump's response to a read of its CIM configuration registers
/// is a well-formed, correctly sealed response from which the configuration
/// reads back unchanged, when its product software version and date have
/// the forms "aa.bb.cc.dd" and "dd/mm/yyyy".
pub proof fn lemma_cim_configuration_response_reads_back(
    address: u8,
    configuration: RecirculationPumpCimConfiguration,
)
    requires
        is_version_text(configuration.product_software_version@),
        is_date_text(configuration.product_software_date@),
    ensures
        is_register_response(
            register_response(
                address,
                NUM_REGISTER_RECIRCULATION_PUMP_CIM_CONFIGURATION as nat,
                cim_configuration_registers(configuration),
            ),
            NUM_REGISTER_RECIRCULATION_PUMP_CIM_CONFIGURATION as nat,
        ),
        frame_crc_valid(
            register_response(
                address,
                NUM_REGISTER_RECIRCULATION_PUMP_CIM_CONFIGURATION as nat,
                cim_configuration_registers(configuration),
            ),
        ),
        is_cim_configuration_of_response(
            configuration,
            register_response(
                address,
                NUM_REGISTER_RECIRCULATION_PUMP_CIM_CONFIGURATION as nat,
                cim_configuration_registers(configuration),
            ),
        ),
{
    let registers = cim_configuration_registers(configuration);
    let frame = register_response(address, 37, registers);
    assert forall|k: int| 0 <= k < 37 implies register_at(frame, k) == registers[k] by {
        lemma_register_response_reads_back(address, 37, registers, k);
    }
    lemma_register_response_reads_back(address, 37, registers, 33);
    lemma_register_response_reads_back(address, 37, registers, 34);
    lemma_register_response_reads_back(address, 37, registers, 35);
    lemma_register_response_reads_back(address, 37, registers, 36);
    assert(register_at(frame, 24) == high_word(configuration.genibus_tx_count));
    assert(register_at(frame, 25) == low_word(configuration.genibus_tx_count));
    assert(register_at(frame, 26) == high_word(configuration.genibus_rx_count));
    assert(register_at(frame, 27) == low_word(configuration.genibus_rx_count));
    lemma_words_join(configuration.genibus_tx_count);
    lemma_words_join(configuration.genibus_rx_count);

    let version = configuration.product_software_version@;
    let date = configuration.product_software_date@;
    lemma_version_text_reads_back(version, frame);
    lemma_date_text_reads_back(date, frame);
}

/// The product software version text of a response whose version bytes are
/// the binary-coded decimal registers of the digits of `version` is
/// `version`, when `version` has the form "aa.bb.cc.dd".
proof fn lemma_version_text_reads_back(version: Seq<char>, frame: Seq<u8>)
    requires
        is_version_text(version),
        frame.len() >= 77,
        frame[69] == high_byte(bcd_register(digits_of(version), 0)),
        frame[70] == low_byte(bcd_register(digits_of(version), 0)),
        frame[71] == high_byte(bcd_register(digits_of(version), 4)),
        frame[72] == low_byte(bcd_register(digits_of(version), 4)),
    ensures
        software_version_text(frame) == version,
{
    let version_digits = digits_of(version);
    lemma_version_digits(version);
    lemma_bcd_register_bytes(version_digits, 0);
    lemma_bcd_register_bytes(version_digits, 4);
    assert(is_digit_char(version[0]) && is_digit_char(version[1]) && is_digit_char(version[3])
        && is_digit_char(version[4]) && is_digit_char(version[6]) && is_digit_char(version[7])
        && is_digit_char(version[9]) && is_digit_char(version[10]));
    assert(version[2] == '.' && version[5] == '.' && version[8] == '.');
    lemma_digit_value(version[0]);
    lemma_digit_value(version[1]);
    lemma_digit_value(version[3]);
    lemma_digit_value(version[4]);
    lemma_digit_value(version[6]);
    lemma_digit_value(version[7]);
    lemma_digit_value(version[9]);
    lemma_digit_value(version[10]);
    lemma_combined_digits_text(digit_value(version[0]), digit_value(version[1]));
    lemma_combined_digits_text(digit_value(version[3]), digit_value(version[4]));
    lemma_combined_digits_text(digit_value(version[6]), digit_value(version[7]));
    lemma_combined_digits_text(digit_value(version[9]), digit_value(version[10]));
    assert(software_version_text(frame) =~= version);
}

/// The product software date text of a response whose date bytes are the
/// binary-coded decimal registers of the digits of `date` is `date`, when
/// `date` has the form "dd/mm/yyyy".
proof fn lemma_date_text_reads_back(date: Seq<char>, frame: Seq<u8>)
    requires
        is_date_text(date),
        frame.len() >= 77,
        frame[73] == high_byte(bcd_register(digits_of(date), 0)),
        frame[74] == low_byte(bcd_register(digits_of(date), 0)),
        frame[75] == high_byte(bcd_register(digits_of(date), 4)),
        frame[76] == low_byte(bcd_register(digits_of(date), 4)),
    ensures
        software_date_text(frame) == date,
{
    let date_digits = digits_of(date);
    lemma_date_digits(date);
    lemma_bcd_register_bytes(date_digits, 0);
    lemma_bcd_register_bytes(date_digits, 4);
    assert(is_digit_char(date[0]) && is_digit_char(date[1]) && is_digit_char(date[3])
        && is_digit_char(date[4]) && is_digit_char(date[6]) && is_digit_char(date[7])
        && is_digit_char(date[8]) && is_digit_char(date[9]));
    assert(date[2] == '/' && date[5] == '/');
    lemma_digit_value(date[0]);
    lemma_digit_value(date[1]);
    lemma_digit_value(date[3]);
    lemma_digit_value(date[4]);
    lemma_digit_value(date[6]);
    lemma_digit_value(date[7]);
    lemma_digit_value(date[8]);
    lemma_digit_value(date[9]);
    lemma_combined_digits_text(digit_value(date[0]), digit_value(date[1]));
    lemma_combined_digits_text(digit_value(date[3]), digit_value(date[4]));
    lemma_combined_digits_text(digit_value(date[6]), digit_value(date[7]));
    lemma_combined_digits_text(digit_value(date[8]), digit_value(date[9]));
    assert(software_date_text(frame) =~= date);
}

} // verus!
