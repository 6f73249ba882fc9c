//! A single-byte redundant boolean: logical `true` is stored as the all-ones
//! word `0xFF` and logical `false` as the all-zeros word `0x00`, so that the
//! intended value survives accidental bit flips and is recovered by a
//! majority vote over the eight bits.

use vstd::prelude::*;

verus! {

/// The number of set bits in an 8-bit word.
pub open spec fn popcount(w: u8) -> int {
    (w & 1) + ((w >> 1u8) & 1) + ((w >> 2u8) & 1) + ((w >> 3u8) & 1) + ((w >> 4u8) & 1) + ((w
        >> 5u8) & 1) + ((w >> 6u8) & 1) + ((w >> 7u8) & 1)
}

/// A word is canonical when every bit agrees: all zeros or all ones.
pub open spec fn is_canonical(w: u8) -> bool {
    w == 0x00u8 || w == 0xFFu8
}

/// The canonical form of a word under majority vote: all ones when strictly
/// more than half of the eight bits are set, all zeros otherwise. A word
/// with exactly four set bits resolves to all zeros.
pub open spec fn normalized(w: u8) -> u8 {
    if popcount(w) > 4 {
        0xFFu8
    } else {
        0x00u8
    }
}

/// The boolean meaning of a word: the outcome of the majority vote.
pub open spec fn word_as_bool(w: u8) -> bool {
    popcount(w) > 4
}

/// The canonical word that encodes a boolean.
pub open spec fn bool_as_word(b: bool) -> u8 {
    if b {
        0xFFu8
    } else {
        0x00u8
    }
}

/// A boolean stored redundantly across all eight bits of one byte.
///
/// A value built by `new` or `from_u8` is canonical (`0x00` or `0xFF`).
/// A value wrapped directly around an arbitrary word may be non-canonical;
/// `to_bool` still gives it a definite meaning by majority vote.
#[derive(Clone, Copy, Debug, PartialEq, Eq, Structural)]
pub struct HDBool(pub u8);

impl HDBool {
    /// Creates an `HDBool` from a normal bool.
    pub fn new(val: bool) -> (r: Self)
        ensures
            r.0 == bool_as_word(val),
            is_canonical(r.0),
    {
        HDBool(if val {
            u8::MAX
        } else {
            u8::MIN
        })
    }

    /// Creates an `HDBool` from a raw `u8`, refreshing it if it's imperfect.
    pub fn from_u8(raw: u8) -> (r: Self)
        ensures
            r.0 == normalized(raw),
            is_canonical(r.0),
    {
        HDBool(Self::refresh(raw))
    }

    /// Extracts the raw `u8` representation verbatim, without normalizing.
    pub fn as_u8(&self) -> (r: u8)
        ensures
            r == self.0,
    {
        self.0
    }

    /// Returns the normal bool form: the majority vote over the stored bits.
    pub fn to_bool(&self) -> (r: bool)
        ensures
            r == word_as_bool(self.0),
    {
        // any value other than 0xFF or 0x00 is first corrected
        match self.0 {
            0xFF => {
                proof {
                    assert(popcount(0xFFu8) == 8) by (bit_vector);
                }
                true
            },
            0x00 => {
                proof {
                    assert(popcount(0x00u8) == 0) by (bit_vector);
                }
                false
            },
            _ => Self::refresh(self.0) == u8::MAX,
        }
    }

    /// Refresh a raw `u8` into either 0xFF or 0x00 by majority vote, with
    /// exactly four set bits resolving to 0x00.
    pub fn refresh(raw: u8) -> (r: u8)
        ensures
            r == normalized(raw),
            is_canonical(r),
    {
        proof {
            assert((raw & 1) <= 1 && ((raw >> 1u8) & 1) <= 1 && ((raw >> 2u8) & 1) <= 1 && ((raw
                >> 3u8) & 1) <= 1 && ((raw >> 4u8) & 1) <= 1 && ((raw >> 5u8) & 1) <= 1 && ((raw
                >> 6u8) & 1) <= 1 && ((raw >> 7u8) & 1) <= 1) by (bit_vector);
        }
        let ones: u8 = (raw & 1) + ((raw >> 1u8) & 1) + ((raw >> 2u8) & 1) + ((raw >> 3u8) & 1) + (
        (raw >> 4u8) & 1) + ((raw >> 5u8) & 1) + ((raw >> 6u8) & 1) + ((raw >> 7u8) & 1);
        if ones > 4 {
            u8::MAX
        } else {
            u8::MIN
        }
    }
}

/// Normalization is idempotent: normalizing an already-canonical word
/// returns it unchanged, so a second pass changes nothing.
pub proof fn lemma_normalize_idempotent(w: u8)
    ensures
        normalized(normalized(w)) == normalized(w),
{
    assert(popcount(0xFFu8) == 8 && popcount(0x00u8) == 0) by (bit_vector);
}

/// Normalization always lands in the canonical range: every 8-bit word maps
/// to either 0x00 or 0xFF.
pub proof fn lemma_normalize_canonical(w: u8)
    ensures
        is_canonical(normalized(w)),
{
}

/// Round trip through the canonical encoding: the word that encodes a
/// boolean reads back as that boolean.
pub proof fn lemma_bool_round_trip(b: bool)
    ensures
        word_as_bool(bool_as_word(b)) == b,
{
    assert(popcount(0xFFu8) == 8 && popcount(0x00u8) == 0) by (bit_vector);
}

/// Normalization keeps the boolean meaning of a word: reading a normalized
/// word gives exactly the majority vote over the original word's bits.
pub proof fn lemma_normalize_keeps_meaning(w: u8)
    ensures
        word_as_bool(normalized(w)) == (popcount(w) > 4),
{
    assert(popcount(0xFFu8) == 8 && popcount(0x00u8) == 0) by (bit_vector);
}

/// Single-bit corruption tolerance: flipping any one bit of a canonical word
/// leaves the popcount on the same side of the majority threshold, so
/// normalization restores the original word.
pub proof fn lemma_single_flip_recovers(c: u8, k: u8)
    requires
        is_canonical(c),
        k < 8,
    ensures
        normalized(c ^ (1u8 << k)) == c,
{
    assert(c == 0x00u8 ==> popcount(c ^ (1u8 << k)) == 1) by (bit_vector)
        requires
            k < 8,
    ;
    assert(c == 0xFFu8 ==> popcount(c ^ (1u8 << k)) == 7) by (bit_vector)
        requires
            k < 8,
    ;
}

} // verus!
