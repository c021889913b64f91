//! Unsigned LEB128 integers, the length prefix of every frame.
//!
//! The bytes are produced and read by the `integer-encoding` crate. This
//! module says what those bytes are and proves what the framing relies on.

use integer_encoding::VarInt;
use vstd::prelude::*;

verus! {

/// The most bytes that the encoding of a `u64` takes.
pub const MAX_LEN: usize = 10;

/// The encoding of `n`: seven bits per byte, least significant group
/// first, with the high bit set on every byte but the last.
pub open spec fn encoding(n: nat) -> Seq<u8>
    decreases n,
{
    if n < 128 {
        seq![n as u8]
    } else {
        seq![(128 + n % 128) as u8] + encoding(n / 128)
    }
}

/// The number that the low seven bits of the bytes of `s` spell, least
/// significant group first.
pub open spec fn payload(s: Seq<u8>) -> nat
    decreases s.len(),
{
    if s.len() == 0 {
        0
    } else {
        (s[0] % 128) as nat + 128 * payload(s.skip(1))
    }
}

/// The length of the shortest prefix of `s` that ends in a byte without the
/// high bit, if one of at most `budget` bytes exists.
pub open spec fn terminated(s: Seq<u8>, budget: nat) -> Option<nat>
    decreases s.len(),
{
    if s.len() == 0 || budget == 0 {
        None
    } else if s[0] < 128 {
        Some(1)
    } else {
        match terminated(s.skip(1), (budget - 1) as nat) {
            Some(k) => Some(k + 1),
            None => None,
        }
    }
}

/// What reading one integer from the front of `s` gives: the value and the
/// number of bytes read. Groups beyond the 64th bit are dropped. `None` when
/// none of the first ten bytes ends the integer.
pub open spec fn decoding(s: Seq<u8>) -> Option<(u64, usize)> {
    match terminated(s, 10) {
        Some(k) => Some(
            ((payload(s.take(k as int)) % 0x1_0000_0000_0000_0000) as u64, k as usize),
        ),
        None => None,
    }
}

/// `128` to the power `k`.
pub open spec fn pow128(k: nat) -> nat
    decreases k,
{
    if k == 0 {
        1
    } else {
        128 * pow128((k - 1) as nat)
    }
}

/// Writes the encoding of `value` to the front of `dst`.
///
/// Trusted: calls `<u64 as integer_encoding::VarInt>::encode_var`, which
/// stores `0x80 | (n as u8)` and shifts `n` right by seven while `n >= 0x80`,
/// then stores the last group and returns the number of bytes stored. It
/// panics when `dst` is shorter than the encoding; ten bytes hold any `u64`.
#[verifier::external_body]
pub(crate) fn write_varint(value: u64, dst: &mut [u8; 10]) -> (written: usize)
    ensures
        written == encoding(value as nat).len(),
        final(dst)@.take(written as int) == encoding(value as nat),
        final(dst)@.skip(written as int) == old(dst)@.skip(written as int),
{
    value.encode_var(dst)
}

/// Reads one integer from the front of `src`.
///
/// Trusted: calls `<u64 as integer_encoding::VarInt>::decode_var`, which
/// or-s the low seven bits of each byte, shifted by seven more each time,
/// into a `u64`, stops at the first byte without the high bit or after ten
/// bytes, and returns the value with the number of bytes read, or `None` if
/// the last byte read has the high bit or `src` is empty.
#[verifier::external_body]
pub(crate) fn read_varint(src: &[u8]) -> (r: Option<(u64, usize)>)
    ensures
        r == decoding(src@),
{
    u64::decode_var(src)
}

/// A number below `128^k` takes at most `k` bytes.
pub proof fn lemma_encoding_len(n: nat, k: nat)
    requires
        k >= 1,
        n < pow128(k),
    ensures
        1 <= encoding(n).len() <= k,
    decreases k,
{
    if n >= 128 {
        assert(k >= 2) by {
            reveal_with_fuel(pow128, 2);
        }
        lemma_encoding_len(n / 128, (k - 1) as nat);
    }
}

/// The encoding of a `u64` takes between one and ten bytes.
pub proof fn lemma_encoding_len_u64(n: u64)
    ensures
        1 <= encoding(n as nat).len() <= MAX_LEN,
{
    assert(pow128(10) == 0x40_0000_0000_0000_0000) by {
        reveal_with_fuel(pow128, 11);
    }
    lemma_encoding_len(n as nat, 10);
}

/// The groups of an encoding spell the number again.
pub proof fn lemma_payload_of_encoding(n: nat)
    ensures
        payload(encoding(n)) == n,
    decreases n,
{
    if n < 128 {
        let s = encoding(n);
        assert(s.skip(1).len() == 0);
        assert(payload(s.skip(1)) == 0);
    } else {
        lemma_payload_of_encoding(n / 128);
        let s = encoding(n);
        assert(s.skip(1) == encoding(n / 128));
        assert(s[0] == (128 + n % 128) as u8);
    }
}

/// Reading stops exactly at the end of an encoding, whatever follows it.
pub proof fn lemma_terminated_of_encoding(n: nat, rest: Seq<u8>, budget: nat)
    requires
        budget >= encoding(n).len(),
    ensures
        terminated(encoding(n) + rest, budget) == Some(encoding(n).len()),
    decreases n,
{
    let s = encoding(n) + rest;
    if n < 128 {
        assert(s[0] == n as u8);
    } else {
        let tail = encoding(n / 128);
        assert(encoding(n).len() == 1 + tail.len());
        lemma_terminated_of_encoding(n / 128, rest, (budget - 1) as nat);
        assert(s.skip(1) == tail + rest);
        assert(s[0] == (128 + n % 128) as u8);
    }
}

/// No proper prefix of an encoding ends an integer.
pub proof fn lemma_terminated_of_truncation(n: nat, k: int, budget: nat)
    requires
        0 <= k < encoding(n).len(),
    ensures
        terminated(encoding(n).take(k), budget) is None,
    decreases n,
{
    let s = encoding(n).take(k);
    if n >= 128 && k > 0 && budget > 0 {
        let tail = encoding(n / 128);
        assert(encoding(n).len() == 1 + tail.len());
        lemma_terminated_of_truncation(n / 128, k - 1, (budget - 1) as nat);
        assert(s.skip(1) == tail.take(k - 1));
        assert(s[0] == (128 + n % 128) as u8);
    }
}

/// Reading the encoding of `n`, followed by anything, gives `n` back and
/// stops where the encoding ends.
pub proof fn lemma_decoding_of_encoding(n: u64, rest: Seq<u8>)
    ensures
        decoding(encoding(n as nat) + rest) == Some((n, encoding(n as nat).len() as usize)),
{
    let e = encoding(n as nat);
    lemma_encoding_len_u64(n);
    lemma_terminated_of_encoding(n as nat, rest, 10);
    lemma_payload_of_encoding(n as nat);
    assert((e + rest).take(e.len() as int) == e);
}

/// Reading a proper prefix of an encoding gives nothing.
pub proof fn lemma_decoding_of_truncation(n: u64, k: int)
    requires
        0 <= k < encoding(n as nat).len(),
    ensures
        decoding(encoding(n as nat).take(k)) is None,
{
    lemma_terminated_of_truncation(n as nat, k, 10);
}

/// What was read lies within the first ten bytes of the input.
pub proof fn lemma_terminated_bounds(s: Seq<u8>, budget: nat)
    ensures
        terminated(s, budget) matches Some(k) ==> 1 <= k <= s.len() && k <= budget,
    decreases s.len(),
{
    if s.len() > 0 && budget > 0 && s[0] >= 128 {
        lemma_terminated_bounds(s.skip(1), (budget - 1) as nat);
    }
}

/// Bytes that follow a complete integer do not change what is read.
pub proof fn lemma_terminated_extends(s: Seq<u8>, more: Seq<u8>, budget: nat)
    requires
        terminated(s, budget) is Some,
    ensures
        terminated(s + more, budget) == terminated(s, budget),
    decreases s.len(),
{
    if s.len() > 0 && budget > 0 {
        assert((s + more)[0] == s[0]);
        if s[0] >= 128 {
            lemma_terminated_extends(s.skip(1), more, (budget - 1) as nat);
            assert((s + more).skip(1) == s.skip(1) + more);
        }
    }
}

/// Ten bytes with the high bit can never be completed.
pub proof fn lemma_terminated_exhausted(s: Seq<u8>, more: Seq<u8>, budget: nat)
    requires
        terminated(s, budget) is None,
        s.len() >= budget,
    ensures
        terminated(s + more, budget) is None,
    decreases budget,
{
    if budget > 0 {
        assert((s + more)[0] == s[0]);
        lemma_terminated_exhausted(s.skip(1), more, (budget - 1) as nat);
        assert((s + more).skip(1) == s.skip(1) + more);
    }
}

} // verus!
