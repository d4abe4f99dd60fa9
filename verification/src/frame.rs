//! The message envelope shared by every module and by the bootloader
//! handshake: a fixed-length frame whose first six bytes are the header,
//! whose last byte is a checksum, and whose middle bytes are payload.
//!
//! The checksum is the 8-bit wrapping sum of every byte before it.

use vstd::prelude::*;
use vstd::arithmetic::div_mod::{lemma_add_mod_noop, lemma_mod_add_multiples_vanish,
    lemma_mod_equivalence, lemma_small_mod};
use crate::module::{CommunicationDirection, MessageType};

verus! {

/// Number of header bytes in every envelope: command, length-1, direction,
/// module id, message type, message index.
pub const HEADER_LENGTH: usize = 6;

/// Mathematical (unwrapped) sum of the first `n` bytes of `data`.
pub open spec fn byte_sum(data: Seq<u8>, n: int) -> nat
    decreases n,
{
    if n <= 0 {
        0
    } else {
        byte_sum(data, n - 1) + data[n - 1] as nat
    }
}

/// The 8-bit wrapping sum of the first `n` bytes of `data`: the value the
/// envelope carries as its checksum.
pub open spec fn checksum_spec(data: Seq<u8>, n: int) -> u8 {
    (byte_sum(data, n) % 256) as u8
}

/// A frame of message length `len` is valid exactly when its last message
/// byte equals the wrapping sum of all the bytes before it.
pub open spec fn frame_valid(data: Seq<u8>, len: int) -> bool {
    data[len - 1] == checksum_spec(data, len - 1)
}

/// `x % 256` written without the modulo, for sums of two bytes.
proof fn lemma_mod256_of_small(t: int)
    requires
        0 <= t < 512,
    ensures
        t % 256 == if t < 256 { t } else { t - 256 },
{
    if t < 256 {
        lemma_small_mod(t as nat, 256);
    } else {
        lemma_mod_add_multiples_vanish(t - 256, 256);
        lemma_small_mod((t - 256) as nat, 256);
    }
}

/// Adding one byte to a wrapped sum wraps the same way as adding it to the
/// unwrapped sum.
proof fn lemma_checksum_step(data: Seq<u8>, n: int)
    requires
        0 <= n < data.len(),
    ensures
        checksum_spec(data, n + 1) == (
            if checksum_spec(data, n) + data[n] < 256 {
                (checksum_spec(data, n) + data[n]) as u8
            } else {
                (checksum_spec(data, n) + data[n] - 256) as u8
            }
        ),
{
    let s = byte_sum(data, n) as int;
    let d = data[n] as int;
    assert(byte_sum(data, n + 1) == s + d);
    lemma_add_mod_noop(s, d, 256);
    lemma_small_mod(d as nat, 256);
    lemma_mod256_of_small(s % 256 + d);
}

/// The wrapping sum of the first `n` bytes depends only on those bytes.
pub proof fn lemma_checksum_agree(a: Seq<u8>, b: Seq<u8>, n: int)
    requires
        n <= a.len(),
        n <= b.len(),
        forall|i: int| 0 <= i < n ==> a[i] == b[i],
    ensures
        checksum_spec(a, n) == checksum_spec(b, n),
        byte_sum(a, n) == byte_sum(b, n),
    decreases n,
{
    if n > 0 {
        lemma_checksum_agree(a, b, n - 1);
    }
}

/// Replacing byte `i` shifts the unwrapped sum by exactly the difference of
/// the bytes.
proof fn lemma_byte_sum_update(data: Seq<u8>, n: int, i: int, b: u8)
    requires
        0 <= i < n <= data.len(),
    ensures
        byte_sum(data.update(i, b), n) + data[i] == byte_sum(data, n) + b,
    decreases n,
{
    if i == n - 1 {
        lemma_checksum_agree(data.update(i, b), data, n - 1);
    } else {
        lemma_byte_sum_update(data, n - 1, i, b);
    }
}

/// Law: writing the checksum into the checksum position and then validating
/// the frame with the same rule always succeeds.
pub proof fn lemma_build_then_validate(data: Seq<u8>, len: int)
    requires
        1 <= len <= data.len(),
    ensures
        frame_valid(data.update(len - 1, checksum_spec(data, len - 1)), len),
{
    let stamped = data.update(len - 1, checksum_spec(data, len - 1));
    lemma_checksum_agree(stamped, data, len - 1);
}

/// Law: changing any single non-checksum byte of a valid frame makes
/// validation fail.
pub proof fn lemma_mutation_detected(data: Seq<u8>, len: int, i: int, b: u8)
    requires
        1 <= len <= data.len(),
        0 <= i < len - 1,
        b != data[i],
        frame_valid(data, len),
    ensures
        !frame_valid(data.update(i, b), len),
{
    let mutated = data.update(i, b);
    let s = byte_sum(data, len - 1) as int;
    let m = byte_sum(mutated, len - 1) as int;
    lemma_byte_sum_update(data, len - 1, i, b);
    assert(m == s + b - data[i]);
    if checksum_spec(mutated, len - 1) == checksum_spec(data, len - 1) {
        assert(m % 256 == s % 256);
        lemma_mod_equivalence(m, s, 256);
        assert((m - s) % 256 == 0);
        let d = b - data[i];
        if d > 0 {
            lemma_small_mod(d as nat, 256);
        } else {
            lemma_mod_add_multiples_vanish(d, 256);
            lemma_small_mod((d + 256) as nat, 256);
        }
        assert(false);
    }
}

/// The 8-bit wrapping sum of bytes `0 .. length-1` of `data`, as carried in
/// the checksum position of a frame of message length `length`.
pub fn checksum(data: &[u8], length: usize) -> (r: u8)
    requires
        1 <= length <= data@.len(),
    ensures
        r == checksum_spec(data@, length - 1),
{
    let mut sum: u8 = 0;
    let mut i: usize = 0;
    while i < length - 1
        invariant
            1 <= length <= data@.len(),
            i <= length - 1,
            sum == checksum_spec(data@, i as int),
        decreases length - 1 - i,
    {
        proof {
            lemma_checksum_step(data@, i as int);
        }
        sum = sum.wrapping_add(data[i]);
        i += 1;
    }
    sum
}

/// The envelope of message length `len` stamped over `buf`: the six header
/// bytes replace bytes 0..5, payload bytes stay untouched, and the checksum
/// of everything before it lands at index `len - 1`.
pub open spec fn enveloped(
    buf: Seq<u8>,
    command: u8,
    direction: u8,
    module_id: u8,
    message_type: u8,
    message_index: u8,
    len: int,
) -> Seq<u8> {
    let headed = buf.update(0, command).update(1, (len - 1) as u8).update(2, direction).update(
        3,
        module_id,
    ).update(4, message_type).update(5, message_index);
    headed.update(len - 1, checksum_spec(headed, len - 1))
}

/// Stamps the envelope header and checksum for a message of length `length`
/// over `tx`, leaving the payload bytes `6 ..= length-2` and everything past
/// `length-1` untouched.  The result is a valid frame.
pub fn build_frame(
    tx: &mut Vec<u8>,
    command: u8,
    direction: CommunicationDirection,
    module_id: u8,
    message_type: MessageType,
    message_index: u8,
    length: usize,
) -> (r: u8)
    requires
        HEADER_LENGTH + 1 <= length <= old(tx)@.len(),
        length <= 256,
    ensures
        final(tx)@ == enveloped(
            old(tx)@,
            command,
            direction.code_spec(),
            module_id,
            message_type.code_spec(),
            message_index,
            length as int,
        ),
        final(tx)@.len() == old(tx)@.len(),
        frame_valid(final(tx)@, length as int),
        r == final(tx)@[length - 1],
{
    tx.set(0, command);
    tx.set(1, (length - 1) as u8);
    tx.set(2, direction.code());
    tx.set(3, module_id);
    tx.set(4, message_type.code());
    tx.set(5, message_index);
    let ghost headed = tx@;
    let check_sum = checksum(tx.as_slice(), length);
    tx.set(length - 1, check_sum);
    proof {
        lemma_checksum_agree(tx@, headed, length - 1);
    }
    check_sum
}

/// An all-zero payload of length `n`.
pub open spec fn zero_payload(n: int) -> Seq<u8> {
    Seq::new(n as nat, |j: int| 0u8)
}

/// A byte-for-byte copy of a transfer buffer.
pub fn copy_frame_buffer(src: &Vec<u8>) -> (r: Vec<u8>)
    ensures
        r@ == src@,
{
    let mut out: Vec<u8> = Vec::new();
    let mut i: usize = 0;
    while i < src.len()
        invariant
            i <= src@.len(),
            out@ == src@.take(i as int),
        decreases src@.len() - i,
    {
        out.push(src[i]);
        proof {
            assert(out@ =~= src@.take(i as int + 1));
        }
        i += 1;
    }
    proof {
        assert(src@.take(src@.len() as int) =~= src@);
    }
    out
}

/// The little-endian unsigned 16-bit value at offset `off` of a payload.
pub open spec fn le_u16_at(b: Seq<u8>, off: int) -> u16 {
    (b[off] as u16) | ((b[off + 1] as u16) << 8)
}

/// The 16-bit two's-complement reading of an unsigned 16-bit value.
pub open spec fn u16_to_i16(x: u16) -> i16 {
    if x <= 0x7fff {
        x as i16
    } else {
        (x - 0x10000) as i16
    }
}

/// The little-endian signed 16-bit value at offset `off` of a payload.
pub open spec fn le_i16_at(b: Seq<u8>, off: int) -> i16 {
    u16_to_i16(le_u16_at(b, off))
}

/// The little-endian unsigned 32-bit value at offset `off` of a payload.
pub open spec fn le_u32_at(b: Seq<u8>, off: int) -> u32 {
    (b[off] as u32) | ((b[off + 1] as u32) << 8) | ((b[off + 2] as u32) << 16) | ((b[off
        + 3] as u32) << 24)
}

/// The 32-bit two's-complement reading of an unsigned 32-bit value.
pub open spec fn u32_to_i32(x: u32) -> i32 {
    if x <= 0x7fffffff {
        x as i32
    } else {
        (x - 0x100000000) as i32
    }
}

/// The little-endian signed 32-bit value at offset `off` of a payload.
pub open spec fn le_i32_at(b: Seq<u8>, off: int) -> i32 {
    u32_to_i32(le_u32_at(b, off))
}

/// Reads the little-endian unsigned 16-bit value at `off`.
pub fn le_u16(b: &[u8], off: usize) -> (r: u16)
    requires
        off + 2 <= b@.len(),
    ensures
        r == le_u16_at(b@, off as int),
{
    (b[off] as u16) | ((b[off + 1] as u16) << 8)
}

/// Reads the little-endian signed 16-bit value at `off`.
pub fn le_i16(b: &[u8], off: usize) -> (r: i16)
    requires
        off + 2 <= b@.len(),
    ensures
        r == le_i16_at(b@, off as int),
{
    let x = le_u16(b, off);
    if x <= 0x7fff {
        x as i16
    } else {
        -((0xffffu16 - x) as i16) - 1
    }
}

/// Reads the little-endian unsigned 32-bit value at `off`.
pub fn le_u32(b: &[u8], off: usize) -> (r: u32)
    requires
        off + 4 <= b@.len(),
    ensures
        r == le_u32_at(b@, off as int),
{
    (b[off] as u32) | ((b[off + 1] as u32) << 8) | ((b[off + 2] as u32) << 16) | ((b[off
        + 3] as u32) << 24)
}

/// Reads the little-endian signed 32-bit value at `off`.
pub fn le_i32(b: &[u8], off: usize) -> (r: i32)
    requires
        off + 4 <= b@.len(),
    ensures
        r == le_i32_at(b@, off as int),
{
    let x = le_u32(b, off);
    if x <= 0x7fffffff {
        x as i32
    } else {
        -((0xffffffffu32 - x) as i32) - 1
    }
}

/// Byte `k` of the little-endian encoding of a signed 32-bit value.
pub open spec fn i32_le_byte(v: i32, k: int) -> u8 {
    ((v >> (8 * k)) & 0xff) as u8
}

/// Extracts byte `k` of the little-endian encoding of `v`.
pub fn i32_byte(v: i32, k: u32) -> (r: u8)
    requires
        k < 4,
    ensures
        r == i32_le_byte(v, k as int),
{
    proof {
        assert(0 <= (v >> (8 * k)) & 0xff < 256) by (bit_vector);
    }
    ((v >> (8 * k)) & 0xff) as u8
}

} // verus!
