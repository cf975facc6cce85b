use vstd::prelude::*;
use crate::constants::CODE_READ_HOLDING_REGISTERS;
use crate::utility::{
    be_value, calculate_modbus_crc_and_update_frame, crc_payload, frame_crc_valid, high_byte,
    lemma_sealed_frame_is_valid, low_byte, sealed_frame, value_at, FromBeByteSlice,
};

verus! {

/// Whether `frame` has the shape of a response to a read of `num_register`
/// holding registers: address, function code, byte count, `2 * num_register`
/// data bytes and a 2-byte checksum, where the byte count matches.
pub open spec fn is_register_response(frame: Seq<u8>, num_register: nat) -> bool {
    &&& frame.len() == 5 + 2 * num_register
    &&& frame[2] as nat == 2 * num_register
}

/// The 16-bit big-endian value of the register with the given 0-based index
/// in the data of a register response.
pub open spec fn register_at(frame: Seq<u8>, index: int) -> u16 {
    (frame[3 + 2 * index] as int * 256 + frame[4 + 2 * index] as int) as u16
}

/// The 32-bit big-endian value of the two registers starting at the given
/// 0-based index in the data of a register response (high word first).
pub open spec fn long_at(frame: Seq<u8>, index: int) -> u32 {
    (register_at(frame, index) as int * 65536 + register_at(frame, index + 1) as int) as u32
}

/// Reading `u16` values from the data of a response gives its registers.
pub proof fn lemma_u16_values_are_registers(frame: Seq<u8>, start: int, end: int, i: int)
    requires
        0 <= start,
        start % 2 == 1,
        0 <= i,
        start + 2 * i + 2 <= end <= frame.len(),
    ensures
        value_at::<u16>(frame.subrange(start, end), i) == register_at(
            frame,
            (start - 3) / 2 + i,
        ),
{
    let data = frame.subrange(start, end);
    let bytes = data.subrange(i * 2, (i + 1) * 2);
    reveal_with_fuel(be_value, 3);
    assert(bytes.drop_last() =~= seq![bytes[0]]);
    assert(seq![bytes[0]].drop_last() =~= Seq::<u8>::empty());
}

/// Reading `u32` values from the data of a response gives pairs of registers.
pub proof fn lemma_u32_values_are_longs(frame: Seq<u8>, start: int, end: int, i: int)
    requires
        0 <= start,
        start % 2 == 1,
        0 <= i,
        start + 4 * i + 4 <= end <= frame.len(),
    ensures
        value_at::<u32>(frame.subrange(start, end), i) == long_at(
            frame,
            (start - 3) / 2 + 2 * i,
        ),
{
    let data = frame.subrange(start, end);
    let bytes = data.subrange(i * 4, (i + 1) * 4);
    reveal_with_fuel(be_value, 5);
    assert(bytes.drop_last().drop_last().drop_last() =~= seq![bytes[0]]);
    assert(seq![bytes[0]].drop_last() =~= Seq::<u8>::empty());
}


/// The register with index `k` of a response is the big-endian value of
/// bytes `3 + 2 * k` (high) and `4 + 2 * k` (low); its low byte is the
/// latter.
pub proof fn lemma_register_bytes(frame: Seq<u8>, k: int)
    requires
        0 <= k,
        4 + 2 * k < frame.len(),
    ensures
        register_at(frame, k) as int == frame[3 + 2 * k] as int * 256 + frame[4 + 2 * k] as int,
        register_at(frame, k) as u8 == frame[4 + 2 * k],
{
    let v = register_at(frame, k);
    let low = frame[4 + 2 * k];
    let high = frame[3 + 2 * k];
    assert(v as int == high as int * 256 + low as int);
    assert(v % 256 == low as int);
    assert(v as u8 == (v % 256) as u8) by (bit_vector);
}

/// The two registers from index `k` of a response form the big-endian
/// value of bytes `3 + 2 * k` to `6 + 2 * k`.
pub proof fn lemma_long_bytes(frame: Seq<u8>, k: int)
    requires
        0 <= k,
        6 + 2 * k < frame.len(),
    ensures
        long_at(frame, k) as int == frame[3 + 2 * k] as int * 16777216 + frame[4 + 2 * k] as int
            * 65536 + frame[5 + 2 * k] as int * 256 + frame[6 + 2 * k] as int,
{
    lemma_register_bytes(frame, k);
    lemma_register_bytes(frame, k + 1);
    let high = register_at(frame, k) as int;
    let low = register_at(frame, k + 1) as int;
    assert(0 <= high < 65536 && 0 <= low < 65536);
    assert(0 <= high * 65536 + low < 0x1_0000_0000) by (nonlinear_arith)
        requires
            0 <= high < 65536,
            0 <= low < 65536,
    ;
    assert(high * 65536 == frame[3 + 2 * k] as int * 16777216 + frame[4 + 2 * k] as int * 65536)
        by (nonlinear_arith)
        requires
            high == frame[3 + 2 * k] as int * 256 + frame[4 + 2 * k] as int,
    ;
}

/// The `k`-th register of `registers`, or 0 past its end.
pub open spec fn register_or_zero(registers: Seq<u16>, k: int) -> u16 {
    if 0 <= k < registers.len() {
        registers[k]
    } else {
        0
    }
}

/// The response to a read of `num` holding registers from the device at
/// `address`, before its checksum: the header, then each register
/// big-endian (the given registers, zero past their end), then two zero
/// bytes.
pub open spec fn unsealed_response(address: u8, num: nat, registers: Seq<u16>) -> Seq<u8> {
    Seq::new(
        (5 + 2 * num) as nat,
        |i: int|
            if i == 0 {
                address
            } else if i == 1 {
                CODE_READ_HOLDING_REGISTERS
            } else if i == 2 {
                (2 * num) as u8
            } else if i < 3 + 2 * num {
                if (i - 3) % 2 == 0 {
                    high_byte(register_or_zero(registers, (i - 3) / 2))
                } else {
                    low_byte(register_or_zero(registers, (i - 3) / 2))
                }
            } else {
                0u8
            },
    )
}

/// The response to a read of `num` holding registers, sealed with its
/// checksum.
pub open spec fn register_response(address: u8, num: nat, registers: Seq<u16>) -> Seq<u8> {
    sealed_frame(unsealed_response(address, num, registers))
}

/// Build the response of the device at `address` to a read of `num` holding
/// registers whose values are `registers` (zero past their end).
pub fn register_response_frame(address: u8, num: u16, registers: &[u16]) -> (frame: Vec<u8>)
    requires
        num <= 32767,
    ensures
        frame@ == register_response(address, num as nat, registers@),
{
    // Each register consists of 2 bytes.
    let data_bytes: u16 = num * 2;
    let length: usize = 5 + data_bytes as usize;
    let mut frame: Vec<u8> = vec![0u8; length];
    frame[0] = address;
    frame[1] = CODE_READ_HOLDING_REGISTERS;
    frame[2] = data_bytes as u8;
    let registers_length = registers.len();
    let mut k: usize = 0;
    while k < num as usize
        invariant
            k <= num,
            frame@.len() == 5 + 2 * num,
            registers_length == registers@.len(),
            forall|i: int|
                0 <= i < frame@.len() ==> #[trigger] frame@[i] == (if i < 3 + 2 * k || i >= 3
                    + 2 * num {
                    unsealed_response(address, num as nat, registers@)[i]
                } else {
                    0u8
                }),
        decreases num - k,
    {
        let register: u16 = if k < registers_length {
            registers[k]
        } else {
            0
        };
        frame.set(3 + 2 * k, (register / 256) as u8);
        frame.set(4 + 2 * k, (register % 256) as u8);
        k = k + 1;
    }
    assert(frame@ =~= unsealed_response(address, num as nat, registers@));
    calculate_modbus_crc_and_update_frame(frame.as_mut_slice());
    frame
}

/// A response built from registers is a well-formed, correctly sealed
/// response whose registers read back as the given ones (zero past their
/// end), as long as its byte count fits in one byte.
pub proof fn lemma_register_response_reads_back(
    address: u8,
    num: nat,
    registers: Seq<u16>,
    k: int,
)
    requires
        num <= 127,
        0 <= k < num,
    ensures
        is_register_response(register_response(address, num, registers), num),
        frame_crc_valid(register_response(address, num, registers)),
        register_response(address, num, registers)[0] == address,
        register_at(register_response(address, num, registers), k) == register_or_zero(
            registers,
            k,
        ),
        register_response(address, num, registers)[3 + 2 * k] == high_byte(
            register_or_zero(registers, k),
        ),
        register_response(address, num, registers)[4 + 2 * k] == low_byte(
            register_or_zero(registers, k),
        ),
{
    let unsealed = unsealed_response(address, num, registers);
    lemma_sealed_frame_is_valid(unsealed);
    let sealed = register_response(address, num, registers);
    assert(sealed[0] == crc_payload(unsealed)[0]);
    assert(sealed[2] == crc_payload(unsealed)[2]);
    assert(sealed[3 + 2 * k] == unsealed[3 + 2 * k]);
    assert(sealed[4 + 2 * k] == unsealed[4 + 2 * k]);
    assert((3 + 2 * k - 3) / 2 == k);
    assert((4 + 2 * k - 3) / 2 == k);
    assert((4 + 2 * k - 3) % 2 == 1);
}

} // verus!
