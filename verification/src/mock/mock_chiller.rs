use vstd::prelude::*;
use crate::constants::NUM_REGISTER_CHILLER;
use crate::daq::chiller::{chiller_of_response, Chiller};
use crate::frame::{
    is_register_response, lemma_register_response_reads_back, register_or_zero,
    register_response, register_response_frame,
};
use crate::enums::HeartbeatChiller;
use crate::utility::frame_crc_valid;

verus! {

/// The plant temperature of 0.51 degrees Celsius, in whole degrees
/// Fahrenheit.
pub const PLANT_CHILLER_TEMPERATURE_FAHRENHEIT: u16 = 32;

/// The chiller's registers in order: a register the chiller does not report
/// is zero, and register 16 (17) holds the zone 1 (2) evaporator inlet
/// temperature in its high byte and the outlet temperature in its low byte.
pub open spec fn chiller_registers(chiller: Chiller) -> Seq<u16> {
    seq![
        chiller.temperature_setpoint,
        0u16,
        chiller.temperature_high_alarm,
        chiller.temperature_low_alarm,
        0u16,
        chiller.to_process_temperature,
        chiller.from_process_temperature,
        0u16,
        chiller.process_status,
        chiller.machine_status_1,
        chiller.machine_status_2,
        chiller.machine_status_3,
        0u16,
        0u16,
        chiller.heartbeat,
        0u16,
        (chiller.zone_1_temperature_evaporator_in as int * 256
            + chiller.zone_1_temperature_evaporator_out as int) as u16,
        (chiller.zone_2_temperature_evaporator_in as int * 256
            + chiller.zone_2_temperature_evaporator_out as int) as u16,
        0u16,
        0u16,
        0u16,
        0u16,
        chiller.zone_1_status,
        chiller.zone_2_status,
    ]
}

/// The chiller at `address` whose temperatures are the plant temperature.
pub open spec fn plant_chiller(address: u8) -> Chiller {
    Chiller {
        temperature_setpoint: PLANT_CHILLER_TEMPERATURE_FAHRENHEIT,
        to_process_temperature: PLANT_CHILLER_TEMPERATURE_FAHRENHEIT,
        from_process_temperature: PLANT_CHILLER_TEMPERATURE_FAHRENHEIT,
        zone_1_temperature_evaporator_in: PLANT_CHILLER_TEMPERATURE_FAHRENHEIT as u8,
        zone_1_temperature_evaporator_out: PLANT_CHILLER_TEMPERATURE_FAHRENHEIT as u8,
        zone_2_temperature_evaporator_in: PLANT_CHILLER_TEMPERATURE_FAHRENHEIT as u8,
        zone_2_temperature_evaporator_out: PLANT_CHILLER_TEMPERATURE_FAHRENHEIT as u8,
        ..Chiller::spec_new(address)
    }
}

/// A simulated chiller.
pub struct MockChiller {
    /// The chiller's values.
    pub chiller: Chiller,
    /// Heartbeat triggers since the sixteen-seconds bit last toggled.
    pub counter_heartbeat: u8,
}

/// The heartbeat register and counter after one trigger: the one-second bit
/// toggles, and on the sixteenth trigger since the counter was zero the
/// sixteen-seconds bit toggles too and the counter restarts from zero.
pub open spec fn heartbeat_step(heartbeat: u16, counter: u8) -> (u16, u8) {
    if counter >= 15 {
        (
            heartbeat ^ HeartbeatChiller::SixteenSeconds.spec_bit_value()
                ^ HeartbeatChiller::OneSecond.spec_bit_value(),
            0,
        )
    } else {
        (heartbeat ^ HeartbeatChiller::OneSecond.spec_bit_value(), (counter + 1) as u8)
    }
}

/// The heartbeat register and counter after `n` triggers.
pub open spec fn heartbeat_steps(heartbeat: u16, counter: u8, n: nat) -> (u16, u8)
    decreases n,
{
    if n == 0 {
        (heartbeat, counter)
    } else {
        let (next_heartbeat, next_counter) = heartbeat_step(heartbeat, counter);
        heartbeat_steps(next_heartbeat, next_counter, (n - 1) as nat)
    }
}

impl MockChiller {
    /// A simulated chiller at `address` whose temperatures are the plant
    /// temperature.
    pub fn new(address: u8) -> (mock: MockChiller)
        ensures
            mock.chiller == plant_chiller(address),
            mock.counter_heartbeat == 0,
    {
        let mut chiller = Chiller::new(address);
        let temperature = PLANT_CHILLER_TEMPERATURE_FAHRENHEIT;
        chiller.temperature_setpoint = temperature;
        chiller.to_process_temperature = temperature;
        chiller.from_process_temperature = temperature;
        chiller.zone_1_temperature_evaporator_in = temperature as u8;
        chiller.zone_1_temperature_evaporator_out = temperature as u8;
        chiller.zone_2_temperature_evaporator_in = temperature as u8;
        chiller.zone_2_temperature_evaporator_out = temperature as u8;
        MockChiller { chiller, counter_heartbeat: 0 }
    }

    /// Trigger the heartbeat: toggle the one-second bit, and every sixteenth
    /// trigger the sixteen-seconds bit. Call this every second.
    pub fn trigger_heartbeat(&mut self)
        ensures
            (final(self).chiller.heartbeat, final(self).counter_heartbeat) == heartbeat_step(
                old(self).chiller.heartbeat,
                old(self).counter_heartbeat,
            ),
            final(self).chiller == (Chiller {
                heartbeat: final(self).chiller.heartbeat,
                ..old(self).chiller
            }),
    {
        if self.counter_heartbeat >= 15 {
            self.counter_heartbeat = 0;
            self.chiller.heartbeat = self.chiller.heartbeat ^ HeartbeatChiller::SixteenSeconds.bit_value();
        } else {
            self.counter_heartbeat = self.counter_heartbeat + 1;
        }
        // Toggle the one-second bit.
        self.chiller.heartbeat = self.chiller.heartbeat ^ HeartbeatChiller::OneSecond.bit_value();
    }

    /// Set the temperature setpoint of the chiller (degrees Fahrenheit).
    pub fn set_temperature(&mut self, temperature: u16)
        ensures
            final(self).chiller == (Chiller { temperature_setpoint: temperature, ..old(self).chiller }),
            final(self).counter_heartbeat == old(self).counter_heartbeat,
    {
        self.chiller.temperature_setpoint = temperature;
    }

    /// The chiller's response to a read of its first `num` registers.
    pub fn request(&self, num: u16) -> (frame: Vec<u8>)
        requires
            num <= 32767,
        ensures
            frame@ == register_response(self.chiller.address, num as nat, chiller_registers(self.chiller)),
    {
        let chiller = &self.chiller;
        let zone_1: u16 = (chiller.zone_1_temperature_evaporator_in as u16) * 256
            + (chiller.zone_1_temperature_evaporator_out as u16);
        let zone_2: u16 = (chiller.zone_2_temperature_evaporator_in as u16) * 256
            + (chiller.zone_2_temperature_evaporator_out as u16);
        let registers: [u16; 24] = [
            chiller.temperature_setpoint,
            0,
            chiller.temperature_high_alarm,
            chiller.temperature_low_alarm,
            0,
            chiller.to_process_temperature,
            chiller.from_process_temperature,
            0,
            chiller.process_status,
            chiller.machine_status_1,
            chiller.machine_status_2,
            chiller.machine_status_3,
            0,
            0,
            chiller.heartbeat,
            0,
            zone_1,
            zone_2,
            0,
            0,
            0,
            0,
            chiller.zone_1_status,
            chiller.zone_2_status,
        ];
        assert(registers@ =~= chiller_registers(self.chiller));
        register_response_frame(chiller.address, num, registers.as_slice())
    }
}

/// The simulated chiller's response to a read of all of its registers is a
/// well-formed, correctly sealed response from which the chiller reads back
/// unchanged.
pub proof fn lemma_chiller_response_reads_back(chiller: Chiller)
    ensures
        is_register_response(
            register_response(chiller.address, NUM_REGISTER_CHILLER as nat, chiller_registers(chiller)),
            NUM_REGISTER_CHILLER as nat,
        ),
        frame_crc_valid(
            register_response(chiller.address, NUM_REGISTER_CHILLER as nat, chiller_registers(chiller)),
        ),
        chiller_of_response(
            register_response(chiller.address, NUM_REGISTER_CHILLER as nat, chiller_registers(chiller)),
        ) == chiller,
{
    let registers = chiller_registers(chiller);
    let frame = register_response(chiller.address, 24, registers);
    assert forall|k: int| 0 <= k < 24 implies register_at_is(frame, registers, k) by {
        lemma_register_response_reads_back(chiller.address, 24, registers, k);
    }
    assert(register_at_is(frame, registers, 16));
    assert(register_at_is(frame, registers, 17));
    lemma_register_response_reads_back(chiller.address, 24, registers, 0);
    let in_1 = chiller.zone_1_temperature_evaporator_in;
    let out_1 = chiller.zone_1_temperature_evaporator_out;
    let in_2 = chiller.zone_2_temperature_evaporator_in;
    let out_2 = chiller.zone_2_temperature_evaporator_out;
    assert(registers[16] == in_1 * 256 + out_1);
    assert(registers[17] == in_2 * 256 + out_2);
    assert(frame[35] == in_1);
    assert(frame[36] == out_1);
    assert(frame[37] == in_2);
    assert(frame[38] == out_2);
    assert(chiller_of_response(frame).temperature_setpoint == chiller.temperature_setpoint);
}

/// The register `k` of `frame` and its two bytes hold `registers[k]`.
spec fn register_at_is(frame: Seq<u8>, registers: Seq<u16>, k: int) -> bool {
    &&& crate::frame::register_at(frame, k) == register_or_zero(registers, k)
    &&& frame[3 + 2 * k] == crate::utility::high_byte(register_or_zero(registers, k))
    &&& frame[4 + 2 * k] == crate::utility::low_byte(register_or_zero(registers, k))
}

/// `heartbeat` with its one-second bit toggled when `one` holds and its
/// sixteen-seconds bit toggled when `sixteen` holds.
pub open spec fn heartbeat_toggled(heartbeat: u16, one: bool, sixteen: bool) -> u16 {
    heartbeat ^ (if one {
        HeartbeatChiller::OneSecond.spec_bit_value()
    } else {
        0u16
    }) ^ (if sixteen {
        HeartbeatChiller::SixteenSeconds.spec_bit_value()
    } else {
        0u16
    })
}

/// Toggling the heartbeat bits composes.
proof fn lemma_heartbeat_toggled_twice(heartbeat: u16, one: bool, sixteen: bool)
    ensures
        heartbeat_toggled(
            heartbeat ^ HeartbeatChiller::OneSecond.spec_bit_value(),
            one,
            sixteen,
        ) == heartbeat_toggled(heartbeat, !one, sixteen),
        heartbeat_toggled(
            heartbeat ^ HeartbeatChiller::SixteenSeconds.spec_bit_value()
                ^ HeartbeatChiller::OneSecond.spec_bit_value(),
            one,
            sixteen,
        ) == heartbeat_toggled(heartbeat, !one, !sixteen),
{
    assert(HeartbeatChiller::OneSecond.spec_bit_value() == 1u16) by (bit_vector);
    assert(HeartbeatChiller::SixteenSeconds.spec_bit_value() == 16u16) by (bit_vector);
    assert((heartbeat ^ 1u16) ^ (if one { 1u16 } else { 0u16 }) ^ (if sixteen { 16u16 } else { 0u16 })
        == heartbeat ^ (if !one { 1u16 } else { 0u16 }) ^ (if sixteen { 16u16 } else { 0u16 }))
        by (bit_vector);
    assert((heartbeat ^ 16u16 ^ 1u16) ^ (if one { 1u16 } else { 0u16 }) ^ (if sixteen { 16u16 } else { 0u16 })
        == heartbeat ^ (if !one { 1u16 } else { 0u16 }) ^ (if !sixteen { 16u16 } else { 0u16 }))
        by (bit_vector);
}

/// After `n` heartbeat triggers from a counter below 16, the one-second bit
/// has toggled `n` times, the sixteen-seconds bit once for each sixteenth
/// trigger counted from zero, and the counter is `(counter + n) % 16`.
pub proof fn lemma_heartbeat_steps(heartbeat: u16, counter: u8, n: nat)
    requires
        counter < 16,
    ensures
        heartbeat_steps(heartbeat, counter, n) == (
            heartbeat_toggled(heartbeat, n % 2 == 1, ((counter + n) / 16) % 2 == 1),
            ((counter + n) % 16) as u8,
        ),
    decreases n,
{
    if n == 0 {
        assert(heartbeat ^ 0u16 ^ 0u16 == heartbeat) by (bit_vector);
    } else {
        let (next_heartbeat, next_counter) = heartbeat_step(heartbeat, counter);
        lemma_heartbeat_steps(next_heartbeat, next_counter, (n - 1) as nat);
        lemma_heartbeat_toggled_twice(
            heartbeat,
            (n - 1) % 2 == 1,
            ((next_counter + (n - 1)) / 16) % 2 == 1,
        );
        if counter >= 15 {
            assert(((counter + n) / 16) == (n - 1) / 16 + 1);
        } else {
            assert(next_counter + (n - 1) == counter + n);
        }
    }
}

/// Thirty-two heartbeat triggers bring the heartbeat register and its
/// counter back to where they started.
pub proof fn lemma_heartbeat_period(heartbeat: u16, counter: u8)
    requires
        counter < 16,
    ensures
        heartbeat_steps(heartbeat, counter, 32) == (heartbeat, counter),
{
    lemma_heartbeat_steps(heartbeat, counter, 32);
    assert(heartbeat ^ 0u16 ^ 0u16 == heartbeat) by (bit_vector);
}

} // verus!
