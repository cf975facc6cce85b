use vstd::prelude::*;
use vstd::std_specs::cmp::PartialEqSpec;
use crc::{Crc, CRC_16_MODBUS};

verus! {

/// The unsigned value of `bytes` read as a big-endian number.
pub open spec fn be_value(bytes: Seq<u8>) -> nat
    decreases bytes.len(),
{
    if bytes.len() == 0 {
        0
    } else {
        be_value(bytes.drop_last()) * 256 + bytes.last() as nat
    }
}

/// The `i`-th value of type `T` in `frame`, read from the `size` bytes that
/// start at `i * size`.
pub open spec fn value_at<T: FromBeByteSlice>(frame: Seq<u8>, i: int) -> T {
    T::spec_from_be(frame.subrange(i * T::spec_size(), (i + 1) * T::spec_size()))
}

/// Get the `T` values from a byte array. The byte array is expected to
/// contain `N` consecutive big-endian values of `T`.
///
/// Returns `None` when the length of `frame` is not `N * size_of::<T>()`.
pub fn get_values_from_u8_array<T: FromBeByteSlice, const N: usize>(frame: &[u8]) -> (res: Option<[T; N]>)
    ensures
        res is Some <==> frame@.len() == N * T::spec_size(),
        res matches Some(values) ==> forall|i: int|
            0 <= i < N ==> #[trigger] values[i] == value_at::<T>(frame@, i),
{
    let size = T::size();
    let length = frame.len();
    let total = match N.checked_mul(size) {
        Some(total) => total,
        None => {
            return None;
        },
    };
    if length != total {
        return None;
    }
    let mut values: [T; N] = [T::zero(); N];
    let mut index: usize = 0;
    while index < N
        invariant
            index <= N,
            size as nat == T::spec_size(),
            total == N * size,
            frame@.len() == total,
            forall|i: int| 0 <= i < index ==> #[trigger] values[i] == value_at::<T>(frame@, i),
        decreases N - index,
    {
        proof {
            assert((index + 1) * size <= N * size) by (nonlinear_arith)
                requires index + 1 <= N;
            assert((index + 1) * size == index * size + size) by (nonlinear_arith);
        }
        let start = index * size;
        let value = T::from_be_byte_slice(&frame[start..start + size]);
        values[index] = value;
        index = index + 1;
    }
    Some(values)
}

/// Get the index of the first element of `array` that equals `value`.
///
/// Returns `None` when no element equals `value`. Equality is that of
/// `T`'s `PartialEq`; where `T` obeys the standard specification of `==`,
/// the result is the first index whose element is equal to `value`.
pub fn get_index_from_array<T: PartialEq>(array: &[T], value: &T) -> (res: Option<usize>)
    ensures
        res matches Some(i) ==> i < array@.len(),
        T::obeys_eq_spec() ==> match res {
            Some(i) => {
                &&& array@[i as int].eq_spec(value)
                &&& forall|j: int| 0 <= j < i ==> !(#[trigger] array@[j]).eq_spec(value)
            },
            None => forall|j: int| 0 <= j < array@.len() ==> !(#[trigger] array@[j]).eq_spec(value),
        },
{
    let length = array.len();
    let mut index: usize = 0;
    while index < length
        invariant
            index <= length,
            length == array@.len(),
            T::obeys_eq_spec() ==> forall|j: int|
                0 <= j < index ==> !(#[trigger] array@[j]).eq_spec(value),
        decreases length - index,
    {
        if array[index] == *value {
            return Some(index);
        }
        index = index + 1;
    }
    None
}

/// The index of the first element of `array` equal to `value`, if any.
pub open spec fn first_index_of(array: Seq<u8>, value: u8) -> Option<int>
    decreases array.len(),
{
    if array.len() == 0 {
        None
    } else if array[0] == value {
        Some(0)
    } else {
        match first_index_of(array.drop_first(), value) {
            Some(i) => Some(i + 1),
            None => None,
        }
    }
}

/// The first index of `value` in `array` is the index whose element is
/// `value` and before which no element is.
proof fn lemma_first_index_of(array: Seq<u8>, value: u8, i: int)
    requires
        0 <= i <= array.len(),
        forall|j: int| 0 <= j < i ==> array[j] != value,
    ensures
        i < array.len() && array[i] == value ==> first_index_of(array, value) == Some(i),
        i == array.len() ==> first_index_of(array, value) is None,
    decreases array.len(),
{
    if array.len() > 0 && i > 0 {
        lemma_first_index_of(array.drop_first(), value, i - 1);
    }
}

/// The index of the first element of `array` equal to `value`, if any.
pub fn index_of(array: &[u8], value: u8) -> (index: Option<usize>)
    ensures
        match index {
            Some(i) => first_index_of(array@, value) == Some(i as int),
            None => first_index_of(array@, value) is None,
        },
{
    let index = get_index_from_array(array, &value);
    proof {
        match index {
            Some(i) => lemma_first_index_of(array@, value, i as int),
            None => lemma_first_index_of(array@, value, array@.len() as int),
        }
    }
    index
}

/// One shift of the reflected CRC-16/MODBUS register: shift right, and xor
/// the reflected polynomial 0xA001 in when the bit shifted out is set.
pub open spec fn crc16_modbus_shift(crc: u16) -> u16 {
    if crc % 2 == 1 {
        (crc / 2) ^ 0xA001u16
    } else {
        crc / 2
    }
}

/// The register after `n` shifts.
pub open spec fn crc16_modbus_shifts(crc: u16, n: nat) -> u16
    decreases n,
{
    if n == 0 {
        crc
    } else {
        crc16_modbus_shifts(crc16_modbus_shift(crc), (n - 1) as nat)
    }
}

/// The register after the bytes of `data` are fed in, from `crc`: each byte
/// is xored into the low byte, then the register is shifted eight times.
pub open spec fn crc16_modbus_from(crc: u16, data: Seq<u8>) -> u16
    decreases data.len(),
{
    if data.len() == 0 {
        crc
    } else {
        crc16_modbus_from(crc16_modbus_shifts(crc ^ (data[0] as u16), 8), data.drop_first())
    }
}

/// The CRC-16/MODBUS checksum of `data`: polynomial 0x8005 with input and
/// output reflected, initial value 0xFFFF and no final xor.
pub open spec fn crc16_modbus(data: Seq<u8>) -> u16 {
    crc16_modbus_from(0xFFFFu16, data)
}

/// Checksum of `data` with the `crc` crate's `Crc::<u16>::checksum`, using
/// the CRC-16/MODBUS algorithm of its catalog (width 16, polynomial 0x8005,
/// initial value 0xFFFF, input and output reflected, no final xor). The
/// contract states that the result is that checksum, `crc16_modbus(data)`.
#[verifier::external_body]
fn modbus_checksum(data: &[u8]) -> (checksum: u16)
    ensures
        checksum == crc16_modbus(data@),
{
    Crc::<u16>::new(&CRC_16_MODBUS).checksum(data)
}

/// The low byte of `value`.
pub open spec fn low_byte(value: u16) -> u8 {
    (value % 256) as u8
}

/// The high byte of `value`.
pub open spec fn high_byte(value: u16) -> u8 {
    (value / 256) as u8
}

/// The bytes of `frame` that the checksum covers: all but the last two.
pub open spec fn crc_payload(frame: Seq<u8>) -> Seq<u8> {
    frame.subrange(0, frame.len() - 2)
}

/// `frame` with its last two bytes replaced by the checksum of the rest,
/// low byte first.
pub open spec fn sealed_frame(frame: Seq<u8>) -> Seq<u8> {
    let checksum = crc16_modbus(crc_payload(frame));
    crc_payload(frame).push(low_byte(checksum)).push(high_byte(checksum))
}

/// Whether `frame` holds at least one byte of data and ends with the
/// checksum of that data, low byte first.
pub open spec fn frame_crc_valid(frame: Seq<u8>) -> bool {
    &&& frame.len() >= 3
    &&& frame[frame.len() - 2] as int + 256 * frame[frame.len() - 1] as int
        == crc16_modbus(crc_payload(frame)) as int
}

/// Calculate the Modbus cyclic redundancy check (CRC) checksum for the given
/// frame and write it into the frame's final two bytes, low byte first.
///
/// The frame must hold at least 3 bytes: 1 byte of data and 2 bytes for the
/// checksum.
pub fn calculate_modbus_crc_and_update_frame(frame: &mut [u8])
    requires
        old(frame)@.len() >= 3,
    ensures
        final(frame)@ == sealed_frame(old(frame)@),
{
    let length = frame.len();
    let checksum = modbus_checksum(&frame[0..length - 2]);
    frame[length - 2] = (checksum % 256) as u8;
    frame[length - 1] = (checksum / 256) as u8;
    assert(frame@ =~= sealed_frame(old(frame)@));
}

/// Verify the Modbus cyclic redundancy check (CRC) of a received frame.
///
/// Returns `true` when the frame holds at least 3 bytes and its last two
/// bytes are the checksum of the others, low byte first.
pub fn verify_modbus_crc(frame: &[u8]) -> (valid: bool)
    ensures
        valid == frame_crc_valid(frame@),
{
    let length = frame.len();
    if length < 3 {
        return false;
    }
    let received = (frame[length - 2] as u16) + 256 * (frame[length - 1] as u16);
    let calculated = modbus_checksum(&frame[0..length - 2]);
    received == calculated
}

/// A frame sealed with its checksum passes the checksum verification.
pub proof fn lemma_sealed_frame_is_valid(frame: Seq<u8>)
    requires
        frame.len() >= 3,
    ensures
        frame_crc_valid(sealed_frame(frame)),
        sealed_frame(frame).len() == frame.len(),
        crc_payload(sealed_frame(frame)) == crc_payload(frame),
{
    let sealed = sealed_frame(frame);
    assert(crc_payload(sealed) =~= crc_payload(frame));
}

/// Numeric types that can be read from a big-endian byte slice.
pub trait FromBeByteSlice: Copy + Sized {
    /// Number of bytes of one value.
    spec fn spec_size() -> nat;

    /// The value that the big-endian bytes `bytes` encode.
    spec fn spec_from_be(bytes: Seq<u8>) -> Self;

    /// Number of bytes needed to represent a single value.
    fn size() -> (n: usize)
        ensures
            n as nat == Self::spec_size(),
            0 < n <= 8,
    ;

    /// The value whose bytes are all zero.
    fn zero() -> (z: Self)
        ensures
            z == Self::spec_from_be(Seq::new(Self::spec_size(), |i: int| 0u8)),
    ;

    /// Parse a single value from a big-endian byte slice of length `size()`.
    fn from_be_byte_slice(bytes: &[u8]) -> (v: Self)
        requires
            bytes@.len() == Self::spec_size(),
        ensures
            v == Self::spec_from_be(bytes@),
    ;
}

impl FromBeByteSlice for u16 {
    open spec fn spec_size() -> nat {
        2
    }

    open spec fn spec_from_be(bytes: Seq<u8>) -> u16 {
        be_value(bytes) as u16
    }

    fn size() -> (n: usize) {
        2
    }

    fn zero() -> (z: u16) {
        proof {
            reveal_with_fuel(be_value, 3);
        }
        0
    }

    fn from_be_byte_slice(bytes: &[u8]) -> (v: u16) {
        proof {
            reveal_with_fuel(be_value, 3);
        }
        (bytes[0] as u16) * 256 + (bytes[1] as u16)
    }
}


impl FromBeByteSlice for u32 {
    open spec fn spec_size() -> nat {
        4
    }

    open spec fn spec_from_be(bytes: Seq<u8>) -> u32 {
        be_value(bytes) as u32
    }

    fn size() -> (n: usize) {
        4
    }

    fn zero() -> (z: u32) {
        proof {
            reveal_with_fuel(be_value, 5);
        }
        0
    }

    fn from_be_byte_slice(bytes: &[u8]) -> (v: u32) {
        proof {
            reveal_with_fuel(be_value, 5);
        }
        ((((bytes[0] as u32) * 256 + (bytes[1] as u32)) * 256 + (bytes[2] as u32)) * 256 + (bytes[3] as u32))
    }
}

impl FromBeByteSlice for u64 {
    open spec fn spec_size() -> nat {
        8
    }

    open spec fn spec_from_be(bytes: Seq<u8>) -> u64 {
        be_value(bytes) as u64
    }

    fn size() -> (n: usize) {
        8
    }

    fn zero() -> (z: u64) {
        proof {
            reveal_with_fuel(be_value, 9);
        }
        0
    }

    fn from_be_byte_slice(bytes: &[u8]) -> (v: u64) {
        proof {
            reveal_with_fuel(be_value, 9);
        }
        ((((((((bytes[0] as u64) * 256 + (bytes[1] as u64)) * 256 + (bytes[2] as u64)) * 256 + (bytes[3] as u64)) * 256 + (bytes[4] as u64)) * 256 + (bytes[5] as u64)) * 256 + (bytes[6] as u64)) * 256 + (bytes[7] as u64))
    }
}

impl FromBeByteSlice for i16 {
    open spec fn spec_size() -> nat {
        2
    }

    open spec fn spec_from_be(bytes: Seq<u8>) -> i16 {
        be_value(bytes) as i16
    }

    fn size() -> (n: usize) {
        2
    }

    fn zero() -> (z: i16) {
        proof {
            reveal_with_fuel(be_value, 3);
        }
        0
    }

    fn from_be_byte_slice(bytes: &[u8]) -> (v: i16) {
        proof {
            reveal_with_fuel(be_value, 3);
        }
        let u: u16 = ((bytes[0] as u16) * 256 + (bytes[1] as u16));
        u as i16
    }
}

impl FromBeByteSlice for i32 {
    open spec fn spec_size() -> nat {
        4
    }

    open spec fn spec_from_be(bytes: Seq<u8>) -> i32 {
        be_value(bytes) as i32
    }

    fn size() -> (n: usize) {
        4
    }

    fn zero() -> (z: i32) {
        proof {
            reveal_with_fuel(be_value, 5);
        }
        0
    }

    fn from_be_byte_slice(bytes: &[u8]) -> (v: i32) {
        proof {
            reveal_with_fuel(be_value, 5);
        }
        let u: u32 = ((((bytes[0] as u32) * 256 + (bytes[1] as u32)) * 256 + (bytes[2] as u32)) * 256 + (bytes[3] as u32));
        u as i32
    }
}

impl FromBeByteSlice for i64 {
    open spec fn spec_size() -> nat {
        8
    }

    open spec fn spec_from_be(bytes: Seq<u8>) -> i64 {
        be_value(bytes) as i64
    }

    fn size() -> (n: usize) {
        8
    }

    fn zero() -> (z: i64) {
        proof {
            reveal_with_fuel(be_value, 9);
        }
        0
    }

    fn from_be_byte_slice(bytes: &[u8]) -> (v: i64) {
        proof {
            reveal_with_fuel(be_value, 9);
        }
        let u: u64 = ((((((((bytes[0] as u64) * 256 + (bytes[1] as u64)) * 256 + (bytes[2] as u64)) * 256 + (bytes[3] as u64)) * 256 + (bytes[4] as u64)) * 256 + (bytes[5] as u64)) * 256 + (bytes[6] as u64)) * 256 + (bytes[7] as u64));
        u as i64
    }
}

} // verus!
