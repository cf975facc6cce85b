use vstd::prelude::*;
use crate::constants::NUM_REGISTER_FLOWMETER;
use crate::daq::flowmeter::{flowmeter_of_response, Flowmeter};
use crate::frame::{
    is_register_response, lemma_register_response_reads_back, register_or_zero,
    register_response, register_response_frame,
};
use crate::mock::mock_constants::{
    PLANT_FLOWMETER_FLOW_RATE, PLANT_FLOWMETER_NEGATIVE_TOTALIZER, PLANT_FLOWMETER_NET_TOTALIZER,
    PLANT_FLOWMETER_POSITIVE_TOTALIZER, PLANT_FLOWMETER_SIGNAL_STRENGTH,
};
use crate::utility::frame_crc_valid;

verus! {

/// The high 16 bits of `value`.
pub open spec fn high_word(value: u32) -> u16 {
    (value / 65536) as u16
}

/// The low 16 bits of `value`.
pub open spec fn low_word(value: u32) -> u16 {
    (value % 65536) as u16
}

/// The flowmeter's registers in order: each value as two registers, high
/// word first.
pub open spec fn flowmeter_registers(flowmeter: Flowmeter) -> Seq<u16> {
    seq![
        high_word(flowmeter.signal_strength),
        low_word(flowmeter.signal_strength),
        high_word(flowmeter.flow_rate),
        low_word(flowmeter.flow_rate),
        high_word(flowmeter.net_totalizer),
        low_word(flowmeter.net_totalizer),
        high_word(flowmeter.positive_totalizer),
        low_word(flowmeter.positive_totalizer),
        high_word(flowmeter.negative_totalizer),
        low_word(flowmeter.negative_totalizer),
    ]
}

/// The flowmeter that the simulated plant reports at `address`.
pub open spec fn plant_flowmeter(address: u8) -> Flowmeter {
    Flowmeter {
        address,
        signal_strength: PLANT_FLOWMETER_SIGNAL_STRENGTH,
        flow_rate: PLANT_FLOWMETER_FLOW_RATE,
        net_totalizer: PLANT_FLOWMETER_NET_TOTALIZER,
        positive_totalizer: PLANT_FLOWMETER_POSITIVE_TOTALIZER,
        negative_totalizer: PLANT_FLOWMETER_NEGATIVE_TOTALIZER,
    }
}

/// A group of simulated flowmeters connected to one daisy-chained bus.
pub struct MockFlowmeterGroup {
    /// The flowmeters of the group.
    pub flowmeters: Vec<Flowmeter>,
}

impl MockFlowmeterGroup {
    /// A group of simulated flowmeters at the given addresses, each with the
    /// plant's measured values.
    pub fn new(addresses: &[u8]) -> (group: MockFlowmeterGroup)
        ensures
            group.flowmeters@.len() == addresses@.len(),
            forall|i: int|
                0 <= i < addresses@.len() ==> group.flowmeters@[i] == plant_flowmeter(
                    #[trigger] addresses@[i],
                ),
    {
        let mut flowmeters: Vec<Flowmeter> = Vec::new();
        let length = addresses.len();
        let mut index: usize = 0;
        while index < length
            invariant
                index <= length,
                length == addresses@.len(),
                flowmeters@.len() == index,
                forall|i: int|
                    0 <= i < index ==> flowmeters@[i] == plant_flowmeter(#[trigger] addresses@[i]),
            decreases length - index,
        {
            let mut flowmeter = Flowmeter::new(addresses[index]);
            flowmeter.signal_strength = PLANT_FLOWMETER_SIGNAL_STRENGTH;
            flowmeter.flow_rate = PLANT_FLOWMETER_FLOW_RATE;
            flowmeter.positive_totalizer = PLANT_FLOWMETER_POSITIVE_TOTALIZER;
            flowmeter.negative_totalizer = PLANT_FLOWMETER_NEGATIVE_TOTALIZER;
            flowmeter.net_totalizer = PLANT_FLOWMETER_NET_TOTALIZER;
            flowmeters.push(flowmeter);
            index = index + 1;
        }
        MockFlowmeterGroup { flowmeters }
    }

    /// The response of the flowmeter with index `idx` to a read of its first
    /// `num` registers.
    pub fn request(&self, idx: usize, num: u16) -> (frame: Vec<u8>)
        requires
            idx < self.flowmeters@.len(),
            num <= 32767,
        ensures
            frame@ == register_response(
                self.flowmeters@[idx as int].address,
                num as nat,
                flowmeter_registers(self.flowmeters@[idx as int]),
            ),
    {
        let flowmeter = &self.flowmeters[idx];
        let registers: [u16; 10] = [
            (flowmeter.signal_strength / 65536) as u16,
            (flowmeter.signal_strength % 65536) as u16,
            (flowmeter.flow_rate / 65536) as u16,
            (flowmeter.flow_rate % 65536) as u16,
            (flowmeter.net_totalizer / 65536) as u16,
            (flowmeter.net_totalizer % 65536) as u16,
            (flowmeter.positive_totalizer / 65536) as u16,
            (flowmeter.positive_totalizer % 65536) as u16,
            (flowmeter.negative_totalizer / 65536) as u16,
            (flowmeter.negative_totalizer % 65536) as u16,
        ];
        assert(registers@ =~= flowmeter_registers(*flowmeter));
        register_response_frame(flowmeter.address, num, registers.as_slice())
    }
}

/// A value's high and low words put together give the value back.
pub proof fn lemma_words_join(value: u32)
    ensures
        (high_word(value) as int * 65536 + low_word(value) as int) as u32 == value,
{
    assert(value / 65536 < 65536) by (nonlinear_arith);
    assert((value / 65536) * 65536 + value % 65536 == value) by (nonlinear_arith);
}

/// A simulated flowmeter's response to a read of all of its registers is a
/// well-formed, correctly sealed response from which the flowmeter reads
/// back unchanged.
pub proof fn lemma_flowmeter_response_reads_back(flowmeter: Flowmeter)
    ensures
        is_register_response(
            register_response(flowmeter.address, NUM_REGISTER_FLOWMETER as nat, flowmeter_registers(flowmeter)),
            NUM_REGISTER_FLOWMETER as nat,
        ),
        frame_crc_valid(
            register_response(flowmeter.address, NUM_REGISTER_FLOWMETER as nat, flowmeter_registers(flowmeter)),
        ),
        flowmeter_of_response(
            register_response(flowmeter.address, NUM_REGISTER_FLOWMETER as nat, flowmeter_registers(flowmeter)),
        ) == flowmeter,
{
    let registers = flowmeter_registers(flowmeter);
    let frame = register_response(flowmeter.address, 10, registers);
    assert forall|k: int| 0 <= k < 10 implies crate::frame::register_at(frame, k)
        == register_or_zero(registers, k) by {
        lemma_register_response_reads_back(flowmeter.address, 10, registers, k);
    }
    lemma_register_response_reads_back(flowmeter.address, 10, registers, 0);
    assert(crate::frame::register_at(frame, 0) == high_word(flowmeter.signal_strength));
    assert(crate::frame::register_at(frame, 1) == low_word(flowmeter.signal_strength));
    lemma_words_join(flowmeter.signal_strength);
    lemma_words_join(flowmeter.flow_rate);
    lemma_words_join(flowmeter.net_totalizer);
    lemma_words_join(flowmeter.positive_totalizer);
    lemma_words_join(flowmeter.negative_totalizer);
}

} // verus!
