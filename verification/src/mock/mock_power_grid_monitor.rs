use vstd::prelude::*;
use crate::constants::NUM_REGISTER_POWER_GRID_MONITOR;
use crate::daq::power_grid_monitor::{power_grid_monitor_of_response, PowerGridMonitor};
use crate::frame::{
    is_register_response, lemma_register_response_reads_back, register_at, register_or_zero,
    register_response, register_response_frame,
};
use crate::mock::mock_constants::{
    PLANT_POWER_GRID_MONITOR_CURRENT_AVG, PLANT_POWER_GRID_MONITOR_VOLTAGE_LL_AVG, PLANT_POWER_GRID_MONITOR_VOLTAGE_LN_AVG, PLANT_POWER_GRID_MONITOR_ACTIVE_POWER_TOTAL, PLANT_POWER_GRID_MONITOR_REACTIVE_POWER_TOTAL, PLANT_POWER_GRID_MONITOR_APPARENT_POWER_TOTAL, PLANT_POWER_GRID_MONITOR_POWER_FACTOR_TOTAL, PLANT_POWER_GRID_MONITOR_FREQUENCY,
};
use crate::mock::mock_flowmeter_group::{high_word, lemma_words_join, low_word};
use crate::utility::frame_crc_valid;

verus! {

/// The power grid monitor's registers in order: each measured value as two
/// registers, high word first, at the register of its address (the first
/// register is 3000); the others are zero.
pub open spec fn power_grid_monitor_registers(monitor: PowerGridMonitor) -> Seq<u16> {
    Seq::new(
        NUM_REGISTER_POWER_GRID_MONITOR as nat,
        |k: int|
            if k == 10 {
                high_word(monitor.current_avg)
            } else if k == 11 {
                low_word(monitor.current_avg)
            } else if k == 26 {
                high_word(monitor.voltage_ll_avg)
            } else if k == 27 {
                low_word(monitor.voltage_ll_avg)
            } else if k == 36 {
                high_word(monitor.voltage_ln_avg)
            } else if k == 37 {
                low_word(monitor.voltage_ln_avg)
            } else if k == 60 {
                high_word(monitor.active_power_total)
            } else if k == 61 {
                low_word(monitor.active_power_total)
            } else if k == 68 {
                high_word(monitor.reactive_power_total)
            } else if k == 69 {
                low_word(monitor.reactive_power_total)
            } else if k == 76 {
                high_word(monitor.apparent_power_total)
            } else if k == 77 {
                low_word(monitor.apparent_power_total)
            } else if k == 84 {
                high_word(monitor.power_factor_total)
            } else if k == 85 {
                low_word(monitor.power_factor_total)
            } else if k == 110 {
                high_word(monitor.frequency)
            } else if k == 111 {
                low_word(monitor.frequency)
            } else {
                0u16
            },
    )
}

/// The power grid monitor at `address` with the plant's measured values.
pub open spec fn plant_power_grid_monitor(address: u8) -> PowerGridMonitor {
    PowerGridMonitor {
        address,
        current_avg: PLANT_POWER_GRID_MONITOR_CURRENT_AVG,
        voltage_ll_avg: PLANT_POWER_GRID_MONITOR_VOLTAGE_LL_AVG,
        voltage_ln_avg: PLANT_POWER_GRID_MONITOR_VOLTAGE_LN_AVG,
        active_power_total: PLANT_POWER_GRID_MONITOR_ACTIVE_POWER_TOTAL,
        reactive_power_total: PLANT_POWER_GRID_MONITOR_REACTIVE_POWER_TOTAL,
        apparent_power_total: PLANT_POWER_GRID_MONITOR_APPARENT_POWER_TOTAL,
        power_factor_total: PLANT_POWER_GRID_MONITOR_POWER_FACTOR_TOTAL,
        frequency: PLANT_POWER_GRID_MONITOR_FREQUENCY,
    }
}

/// Whether a read of `num` registers would end right after the high word
/// of a measured value, the register counts for which the monitor's
/// simulation does not answer.
pub open spec fn cuts_measured_value(num: u16) -> bool {
    num == 10 || num == 26 || num == 36 || num == 60 || num == 68 || num == 76 || num == 84
        || num == 110
}

/// A simulated power grid monitor.
pub struct MockPowerGridMonitor {
    /// The monitor's values.
    pub power_grid_monitor: PowerGridMonitor,
}

impl MockPowerGridMonitor {
    /// A simulated power grid monitor at `address` with the plant's measured
    /// values.
    pub fn new(address: u8) -> (mock: MockPowerGridMonitor)
        ensures
            mock.power_grid_monitor == plant_power_grid_monitor(address),
    {
        let mut power_grid_monitor = PowerGridMonitor::new(address);
        power_grid_monitor.current_avg = PLANT_POWER_GRID_MONITOR_CURRENT_AVG;
        power_grid_monitor.voltage_ll_avg = PLANT_POWER_GRID_MONITOR_VOLTAGE_LL_AVG;
        power_grid_monitor.voltage_ln_avg = PLANT_POWER_GRID_MONITOR_VOLTAGE_LN_AVG;
        power_grid_monitor.active_power_total = PLANT_POWER_GRID_MONITOR_ACTIVE_POWER_TOTAL;
        power_grid_monitor.reactive_power_total = PLANT_POWER_GRID_MONITOR_REACTIVE_POWER_TOTAL;
        power_grid_monitor.apparent_power_total = PLANT_POWER_GRID_MONITOR_APPARENT_POWER_TOTAL;
        power_grid_monitor.power_factor_total = PLANT_POWER_GRID_MONITOR_POWER_FACTOR_TOTAL;
        power_grid_monitor.frequency = PLANT_POWER_GRID_MONITOR_FREQUENCY;
        MockPowerGridMonitor { power_grid_monitor }
    }

    /// The monitor's response to a read of its first `num` registers.
    pub fn request(&self, num: u16) -> (frame: Vec<u8>)
        requires
            num <= 32767,
            !cuts_measured_value(num),
        ensures
            frame@ == register_response(
                self.power_grid_monitor.address,
                num as nat,
                power_grid_monitor_registers(self.power_grid_monitor),
            ),
    {
        let monitor = &self.power_grid_monitor;
        let mut registers = [0u16; 112];
        registers[10] = (monitor.current_avg / 65536) as u16;
        registers[11] = (monitor.current_avg % 65536) as u16;
        registers[26] = (monitor.voltage_ll_avg / 65536) as u16;
        registers[27] = (monitor.voltage_ll_avg % 65536) as u16;
        registers[36] = (monitor.voltage_ln_avg / 65536) as u16;
        registers[37] = (monitor.voltage_ln_avg % 65536) as u16;
        registers[60] = (monitor.active_power_total / 65536) as u16;
        registers[61] = (monitor.active_power_total % 65536) as u16;
        registers[68] = (monitor.reactive_power_total / 65536) as u16;
        registers[69] = (monitor.reactive_power_total % 65536) as u16;
        registers[76] = (monitor.apparent_power_total / 65536) as u16;
        registers[77] = (monitor.apparent_power_total % 65536) as u16;
        registers[84] = (monitor.power_factor_total / 65536) as u16;
        registers[85] = (monitor.power_factor_total % 65536) as u16;
        registers[110] = (monitor.frequency / 65536) as u16;
        registers[111] = (monitor.frequency % 65536) as u16;
        assert(registers@ =~= power_grid_monitor_registers(*monitor));
        register_response_frame(monitor.address, num, registers.as_slice())
    }
}

/// A simulated power grid monitor's response to a read of all of its
/// registers is a well-formed, correctly sealed response from which the
/// monitor reads back unchanged.
pub proof fn lemma_power_grid_monitor_response_reads_back(monitor: PowerGridMonitor)
    ensures
        is_register_response(
            register_response(
                monitor.address,
                NUM_REGISTER_POWER_GRID_MONITOR as nat,
                power_grid_monitor_registers(monitor),
            ),
            NUM_REGISTER_POWER_GRID_MONITOR as nat,
        ),
        frame_crc_valid(
            register_response(
                monitor.address,
                NUM_REGISTER_POWER_GRID_MONITOR as nat,
                power_grid_monitor_registers(monitor),
            ),
        ),
        power_grid_monitor_of_response(
            register_response(
                monitor.address,
                NUM_REGISTER_POWER_GRID_MONITOR as nat,
                power_grid_monitor_registers(monitor),
            ),
        ) == monitor,
{
    let registers = power_grid_monitor_registers(monitor);
    let frame = register_response(monitor.address, 112, registers);
    lemma_register_response_reads_back(monitor.address, 112, registers, 0);
    lemma_register_response_reads_back(monitor.address, 112, registers, 10);
    lemma_register_response_reads_back(monitor.address, 112, registers, 11);
    assert(register_at(frame, 10) == high_word(monitor.current_avg));
    assert(register_at(frame, 11) == low_word(monitor.current_avg));
    lemma_words_join(monitor.current_avg);
    lemma_register_response_reads_back(monitor.address, 112, registers, 26);
    lemma_register_response_reads_back(monitor.address, 112, registers, 27);
    assert(register_at(frame, 26) == high_word(monitor.voltage_ll_avg));
    assert(register_at(frame, 27) == low_word(monitor.voltage_ll_avg));
    lemma_words_join(monitor.voltage_ll_avg);
    lemma_register_response_reads_back(monitor.address, 112, registers, 36);
    lemma_register_response_reads_back(monitor.address, 112, registers, 37);
    assert(register_at(frame, 36) == high_word(monitor.voltage_ln_avg));
    assert(register_at(frame, 37) == low_word(monitor.voltage_ln_avg));
    lemma_words_join(monitor.voltage_ln_avg);
    lemma_register_response_reads_back(monitor.address, 112, registers, 60);
    lemma_register_response_reads_back(monitor.address, 112, registers, 61);
    assert(register_at(frame, 60) == high_word(monitor.active_power_total));
    assert(register_at(frame, 61) == low_word(monitor.active_power_total));
    lemma_words_join(monitor.active_power_total);
    lemma_register_response_reads_back(monitor.address, 112, registers, 68);
    lemma_register_response_reads_back(monitor.address, 112, registers, 69);
    assert(register_at(frame, 68) == high_word(monitor.reactive_power_total));
    assert(register_at(frame, 69) == low_word(monitor.reactive_power_total));
    lemma_words_join(monitor.reactive_power_total);
    lemma_register_response_reads_back(monitor.address, 112, registers, 76);
    lemma_register_response_reads_back(monitor.address, 112, registers, 77);
    assert(register_at(frame, 76) == high_word(monitor.apparent_power_total));
    assert(register_at(frame, 77) == low_word(monitor.apparent_power_total));
    lemma_words_join(monitor.apparent_power_total);
    lemma_register_response_reads_back(monitor.address, 112, registers, 84);
    lemma_register_response_reads_back(monitor.address, 112, registers, 85);
    assert(register_at(frame, 84) == high_word(monitor.power_factor_total));
    assert(register_at(frame, 85) == low_word(monitor.power_factor_total));
    lemma_words_join(monitor.power_factor_total);
    lemma_register_response_reads_back(monitor.address, 112, registers, 110);
    lemma_register_response_reads_back(monitor.address, 112, registers, 111);
    assert(register_at(frame, 110) == high_word(monitor.frequency));
    assert(register_at(frame, 111) == low_word(monitor.frequency));
    lemma_words_join(monitor.frequency);
}

} // verus!
