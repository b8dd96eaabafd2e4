//! The read/write discipline over the parameter buffer.
//!
//! Host and guest exchange payloads through one window of the guest's linear
//! memory. The window starts at an offset negotiated once and is as long as the
//! payload in flight. Everything here is stated over plain byte sequences, so
//! that the rules can be read (and used) without an instance at hand.

use vstd::prelude::*;

verus! {

/// A window of `len` bytes at `offset` lies inside a memory of `capacity` bytes.
pub open spec fn window_fits(offset: int, len: int, capacity: int) -> bool {
    0 <= offset && 0 <= len && offset + len <= capacity
}

/// The `len` bytes of `memory` that start at `offset`.
pub open spec fn window(memory: Seq<u8>, offset: int, len: int) -> Seq<u8>
    recommends
        window_fits(offset, len, memory.len() as int),
{
    memory.subrange(offset, offset + len)
}

/// `memory` after `payload` has been written at `offset`: the window holds the
/// payload, every byte outside it is as before.
pub open spec fn staged(memory: Seq<u8>, offset: int, payload: Seq<u8>) -> Seq<u8>
    recommends
        window_fits(offset, payload.len() as int, memory.len() as int),
{
    Seq::new(
        memory.len(),
        |i: int|
            if offset <= i < offset + payload.len() {
                payload[i - offset]
            } else {
                memory[i]
            },
    )
}

/// The 32-bit word that tells the guest a payload length: the low 32 bits of
/// the length, read as a signed integer.
pub open spec fn length_word(len: int) -> int {
    let low = len % 0x1_0000_0000;
    if low <= 0x7fff_ffff {
        low
    } else {
        low - 0x1_0000_0000
    }
}

/// Where a window of `len` bytes at the guest offset `offset` starts, if it
/// lies inside a memory of `capacity` bytes.
pub fn window_start(offset: i32, len: usize, capacity: u64) -> (start: Option<u64>)
    ensures
        start is Some <==> window_fits(offset as int, len as int, capacity as int),
        start matches Some(s) ==> s == offset,
{
    if offset < 0 {
        return None;
    }
    let start: u64 = offset as u64;
    if start > capacity {
        return None;
    }
    if len as u64 > capacity - start {
        return None;
    }
    Some(start)
}

/// Computes [`length_word`].
pub fn guest_length(len: usize) -> (word: i32)
    ensures
        word == length_word(len as int),
{
    let low: u64 = (len as u64) % 0x1_0000_0000u64;
    if low <= 0x7fff_ffffu64 {
        low as i32
    } else {
        (low as i64 - 0x1_0000_0000i64) as i32
    }
}

/// Writing a payload and reading the same window back gives the payload.
pub proof fn lemma_staged_window(memory: Seq<u8>, offset: int, payload: Seq<u8>)
    requires
        window_fits(offset, payload.len() as int, memory.len() as int),
    ensures
        staged(memory, offset, payload).len() == memory.len(),
        window(staged(memory, offset, payload), offset, payload.len() as int) == payload,
{
    assert(window(staged(memory, offset, payload), offset, payload.len() as int) =~= payload);
}

/// Writing a payload changes no byte outside its window.
pub proof fn lemma_staged_frame(memory: Seq<u8>, offset: int, payload: Seq<u8>, i: int)
    requires
        window_fits(offset, payload.len() as int, memory.len() as int),
        0 <= i < memory.len(),
        i < offset || offset + payload.len() <= i,
    ensures
        staged(memory, offset, payload)[i] == memory[i],
{
}

/// A length that fits in 31 bits is its own word.
pub proof fn lemma_length_word_small(len: int)
    requires
        0 <= len <= 0x7fff_ffff,
    ensures
        length_word(len) == len,
{
}

} // verus!
