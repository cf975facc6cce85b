use vstd::prelude::*;
use crate::mock::mock_constants::PLANT_PRESSURE;
use crate::mock::mock_pressure_transducer::{pressure_response, MockPressureTransducer};

verus! {

/// Pressure transducers connected as a group on one daisy-chained bus.
pub struct MockPressureTransducerGroup {
    /// The pressure transducers of the group.
    pub pressure_transducers: Vec<MockPressureTransducer>,
}

impl MockPressureTransducerGroup {
    /// A group of simulated pressure transducers, one at each of
    /// `addresses`, in order, each measuring the plant's pressure.
    pub fn new(addresses: &[u8]) -> (group: MockPressureTransducerGroup)
        ensures
            group.pressure_transducers@.len() == addresses@.len(),
            forall|i: int|
                0 <= i < addresses@.len() ==> (#[trigger] group.pressure_transducers@[i]).address
                    == addresses@[i] && group.pressure_transducers@[i].pressure == PLANT_PRESSURE,
    {
        let mut pressure_transducers: Vec<MockPressureTransducer> = Vec::new();
        let mut i: usize = 0;
        while i < addresses.len()
            invariant
                i <= addresses@.len(),
                pressure_transducers@.len() == i,
                forall|j: int|
                    0 <= j < i ==> (#[trigger] pressure_transducers@[j]).address == addresses@[j]
                        && pressure_transducers@[j].pressure == PLANT_PRESSURE,
            decreases addresses@.len() - i,
        {
            pressure_transducers.push(MockPressureTransducer::new(addresses[i]));
            i = i + 1;
        }
        MockPressureTransducerGroup { pressure_transducers }
    }

    /// The response of the `idx`-th pressure transducer of the group.
    pub fn request(&self, idx: usize) -> (frame: Vec<u8>)
        requires
            idx < self.pressure_transducers@.len(),
        ensures
            frame@ == pressure_response(
                self.pressure_transducers@[idx as int].address,
                self.pressure_transducers@[idx as int].pressure,
            ),
    {
        self.pressure_transducers[idx].request()
    }
}

} // verus!
