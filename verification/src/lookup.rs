//! The cheap hand-rolled hash states used by the player lookup maps.
//!
//! Entity identifiers hash well already, so these states fold their
//! input with plain wrapping arithmetic instead of a general-purpose
//! hash function.

use vstd::prelude::*;

verus! {

/// The little-endian value of the first eight bytes of a sequence.
pub open spec fn le_u64(s: Seq<u8>) -> int {
    s[0] + 0x100 * (s[1] + 0x100 * (s[2] + 0x100 * (s[3] + 0x100 * (s[4] + 0x100 * (s[5] + 0x100
        * (s[6] + 0x100 * s[7]))))))
}

/// The multiplier each byte is spread by in the name hash.
pub const NAME_HASH_STEP: u64 = 7456393;

/// The name-hash state after folding in a sequence of bytes, one
/// spread-and-add per byte modulo the 64-bit space.
pub open spec fn name_hash(state: int, s: Seq<u8>) -> int
    decreases s.len(),
{
    if s.len() == 0 {
        state
    } else {
        (name_hash(state, s.drop_last()) + s.last() * NAME_HASH_STEP) % 0x1_0000_0000_0000_0000
    }
}

/// A hash state for identifiers that arrive as chunks of eight bytes,
/// summed with wrap-around.
#[derive(Debug, Copy, Clone, PartialEq, Eq, Structural)]
pub struct UuidHasher(pub u64);

impl UuidHasher {
    /// Folds the first eight bytes of the chunk into the state.
    pub fn write(&mut self, bytes: &[u8])
        requires
            bytes@.len() >= 8,
        ensures
            final(self).0 == (old(self).0 + le_u64(bytes@)) % 0x1_0000_0000_0000_0000,
    {
        let mut v: u64 = bytes[7] as u64;
        v = v * 0x100 + bytes[6] as u64;
        v = v * 0x100 + bytes[5] as u64;
        v = v * 0x100 + bytes[4] as u64;
        v = v * 0x100 + bytes[3] as u64;
        v = v * 0x100 + bytes[2] as u64;
        v = v * 0x100 + bytes[1] as u64;
        v = v * 0x100 + bytes[0] as u64;
        self.0 = self.0.wrapping_add(v);
    }

    /// The accumulated state.
    pub fn finish(&self) -> (r: u64)
        ensures
            r == self.0,
    {
        self.0
    }
}

impl Default for UuidHasher {
    /// A fresh state.
    fn default() -> (r: Self)
        ensures
            r.0 == 0,
    {
        Self(0)
    }
}

/// A hash state for player names, spreading each byte over the 64-bit
/// space with wrap-around.
#[derive(Debug, Copy, Clone, PartialEq, Eq, Structural)]
pub struct PlayerNameHasher(pub u64);

impl PlayerNameHasher {
    /// Folds a chunk of bytes into the state, byte by byte.
    pub fn write(&mut self, bytes: &[u8])
        ensures
            final(self).0 == name_hash(old(self).0 as int, bytes@),
    {
        let ghost s = bytes@;
        let mut i: usize = 0;
        while i < bytes.len()
            invariant
                i <= s.len(),
                bytes@ == s,
                self.0 == name_hash(old(self).0 as int, s.take(i as int)),
            decreases s.len() - i,
        {
            let spread = (bytes[i] as u64) * NAME_HASH_STEP;
            self.0 = self.0.wrapping_add(spread);
            i = i + 1;
            proof {
                let taken = s.take(i as int);
                assert(taken.drop_last() =~= s.take(i - 1));
                assert(taken.last() == s[i - 1]);
            }
        }
        proof {
            assert(s.take(s.len() as int) =~= s);
        }
    }

    /// The accumulated state.
    pub fn finish(&self) -> (r: u64)
        ensures
            r == self.0,
    {
        self.0
    }
}

impl Default for PlayerNameHasher {
    /// A fresh state.
    fn default() -> (r: Self)
        ensures
            r.0 == 0,
    {
        Self(0)
    }
}

} // verus!
