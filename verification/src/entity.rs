//! General entity components: visibility and targeting markers, flight
//! state, and entity identity.

use vstd::prelude::*;

verus! {

/// Marks an entity as visible to players.
#[derive(Debug)]
pub struct Visible;

/// Any living entity that is not a player, such as a zombie or a
/// skeleton.
#[derive(Debug)]
pub struct Npc;

/// Marks an entity as targetable by non-player entities.
#[derive(Debug)]
pub struct AiTargetable;

/// Marks an entity whose travel is resolved by raycasting.
#[derive(Debug, Default)]
pub struct RaycastTravel;

/// An entity's flight state.
#[derive(Debug, Copy, Clone, Default, PartialEq, Eq, Structural)]
pub struct Flight {
    /// Whether the entity is allowed to fly.
    pub allow: bool,
    /// Whether the entity is flying right now.
    pub is_flying: bool,
}

/// A universally unique entity identifier, held as its 128-bit value in
/// big-endian byte order.
#[derive(Copy, Clone, Debug, Hash, PartialEq, Eq, Structural)]
pub struct Uuid(pub u128);

impl Uuid {
    /// Draws a fresh random identifier.
    ///
    /// Relies on `uuid::Uuid::new_v4`: whatever the random remainder,
    /// every result carries version nibble 4 and the leading variant
    /// bits 10.
    #[verifier::external_body]
    pub fn new_v4() -> (r: Self)
        ensures
            (r.0 >> 76) & 0xf == 4,
            (r.0 >> 62) & 0x3 == 2,
    {
        Self(uuid::Uuid::new_v4().as_u128())
    }

    /// The version nibble of the identifier.
    pub fn version(&self) -> (r: u8)
        ensures
            r == ((self.0 >> 76) & 0xf) as u8,
    {
        ((self.0 >> 76) & 0xf) as u8
    }
}

} // verus!
