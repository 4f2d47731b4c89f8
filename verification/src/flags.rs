//! The bit-packed entity metadata flags of the downstream protocol.

use vstd::prelude::*;

verus! {

/// The entity is on fire.
pub const FLAG_ON_FIRE: u8 = 0x01;

/// The entity is crouching.
pub const FLAG_CROUCHING: u8 = 0x02;

/// The entity is sprinting.
pub const FLAG_SPRINTING: u8 = 0x08;

/// The entity is swimming.
pub const FLAG_SWIMMING: u8 = 0x10;

/// The entity is invisible.
pub const FLAG_INVISIBLE: u8 = 0x20;

/// The entity has the glowing outline.
pub const FLAG_GLOWING: u8 = 0x40;

/// The entity is flying with an elytra.
pub const FLAG_FLYING_WITH_ELYTRA: u8 = 0x80;

/// An entity's packed metadata flags.
#[derive(PartialEq, Eq, Structural, Copy, Clone, Debug)]
pub struct EntityFlags {
    /// The packed flag bits.
    pub value: u8,
}

impl EntityFlags {
    /// Creates an empty flag set.
    pub fn new() -> (r: Self)
        ensures
            r.value == 0,
    {
        Self { value: 0 }
    }

    /// Sets the given flag bits.
    pub fn insert(&mut self, mask: u8)
        ensures
            final(self).value == old(self).value | mask,
    {
        self.value = self.value | mask;
    }

    /// Clears the given flag bits.
    pub fn remove(&mut self, mask: u8)
        ensures
            final(self).value == old(self).value & !mask,
    {
        self.value = self.value & !mask;
    }

    /// Whether all the given flag bits are set.
    pub fn contains(&self, mask: u8) -> (r: bool)
        ensures
            r == (self.value & mask == mask),
    {
        self.value & mask == mask
    }
}

impl Default for EntityFlags {
    /// An empty flag set.
    fn default() -> (r: Self)
        ensures
            r.value == 0,
    {
        Self::new()
    }
}

} // verus!
