use vstd::prelude::*;
use crate::constants::NUM_REGISTER_POWER_GRID_MONITOR;
use crate::frame::{is_register_response, lemma_u32_values_are_longs, long_at};
use crate::utility::get_values_from_u8_array;

verus! {

/// Measured electrical parameters of a power grid monitor.
///
/// The measurements are the IEEE 754 single-precision bit patterns of the
/// meter's registers; `f32::from_bits` gives their values.
#[derive(Debug, Clone, Copy, PartialEq, Eq, Structural)]
pub struct PowerGridMonitor {
    /// Address of the power grid monitor.
    pub address: u8,
    /// Average current in amperes.
    pub current_avg: u32,
    /// Average line-to-line voltage in volts.
    pub voltage_ll_avg: u32,
    /// Average line-to-neutral voltage in volts.
    pub voltage_ln_avg: u32,
    /// Total active power in kW.
    pub active_power_total: u32,
    /// Total reactive power in kVAR.
    pub reactive_power_total: u32,
    /// Total apparent power in kVA.
    pub apparent_power_total: u32,
    /// Total power factor register (the meter's encoding of the power factor
    /// with its quadrant; see `power_factor_of_register` in the application).
    pub power_factor_total: u32,
    /// Frequency in Hz.
    pub frequency: u32,
}

/// The power grid monitor that a well-formed response of its registers
/// describes. The register with address `a` starts at byte
/// `3 + 2 * (a - 3000)`.
pub open spec fn power_grid_monitor_of_response(frame: Seq<u8>) -> PowerGridMonitor {
    PowerGridMonitor {
        address: frame[0],
        current_avg: long_at(frame, 10),
        voltage_ll_avg: long_at(frame, 26),
        voltage_ln_avg: long_at(frame, 36),
        active_power_total: long_at(frame, 60),
        reactive_power_total: long_at(frame, 68),
        apparent_power_total: long_at(frame, 76),
        power_factor_total: long_at(frame, 84),
        frequency: long_at(frame, 110),
    }
}

impl PowerGridMonitor {
    /// A power grid monitor with the given address and all measured values
    /// zero.
    pub fn new(address: u8) -> (monitor: PowerGridMonitor)
        ensures
            monitor == (PowerGridMonitor {
                address,
                current_avg: 0,
                voltage_ll_avg: 0,
                voltage_ln_avg: 0,
                active_power_total: 0,
                reactive_power_total: 0,
                apparent_power_total: 0,
                power_factor_total: 0,
                frequency: 0,
            }),
    {
        PowerGridMonitor {
            address,
            current_avg: 0,
            voltage_ll_avg: 0,
            voltage_ln_avg: 0,
            active_power_total: 0,
            reactive_power_total: 0,
            apparent_power_total: 0,
            power_factor_total: 0,
            frequency: 0,
        }
    }

    /// The 32-bit big-endian value at `frame[start..start + 4]`.
    fn long_from_frame(frame: &[u8], start: usize) -> (value: u32)
        requires
            start % 2 == 1,
            start + 4 <= frame@.len(),
        ensures
            value == long_at(frame@, (start - 3) / 2),
    {
        proof {
            lemma_u32_values_are_longs(frame@, start as int, start + 4, 0);
        }
        let _length = frame.len();
        match get_values_from_u8_array::<u32, 1>(&frame[start..start + 4]) {
            Some(values) => values[0],
            None => 0,
        }
    }

    /// Create a `PowerGridMonitor` from a Modbus response to a read of the
    /// monitor's registers.
    ///
    /// Returns `None` when the frame's length or byte count does not match
    /// the monitor's registers. The checksum is not checked here.
    pub fn from_frame(frame: &[u8]) -> (monitor: Option<PowerGridMonitor>)
        ensures
            monitor == (if is_register_response(frame@, NUM_REGISTER_POWER_GRID_MONITOR as nat) {
                Some(power_grid_monitor_of_response(frame@))
            } else {
                None
            }),
    {
        let data_bytes: usize = 2 * (NUM_REGISTER_POWER_GRID_MONITOR as usize);
        let frame_length: usize = 5 + data_bytes;
        if (frame.len() != frame_length) || (frame[2] as usize != data_bytes) {
            return None;
        }
        let address = frame[0];
        // Register address: 3010
        let current_avg = Self::long_from_frame(frame, 23);
        // Register address: 3026
        let voltage_ll_avg = Self::long_from_frame(frame, 55);
        // Register address: 3036
        let voltage_ln_avg = Self::long_from_frame(frame, 75);
        // Register address: 3060
        let active_power_total = Self::long_from_frame(frame, 123);
        // Register address: 3068
        let reactive_power_total = Self::long_from_frame(frame, 139);
        // Register address: 3076
        let apparent_power_total = Self::long_from_frame(frame, 155);
        // Register address: 3084
        let power_factor_total = Self::long_from_frame(frame, 171);
        // Register address: 3110
        let frequency = Self::long_from_frame(frame, 223);
        Some(
            PowerGridMonitor {
                address,
                current_avg,
                voltage_ll_avg,
                voltage_ln_avg,
                active_power_total,
                reactive_power_total,
                apparent_power_total,
                power_factor_total,
                frequency,
            },
        )
    }
}

} // verus!
