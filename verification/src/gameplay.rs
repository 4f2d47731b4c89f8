//! Per-player gameplay state whose rules are pure bookkeeping: vanishing
//! from other players' view, chat cooldowns, and damage timestamps.

use vstd::prelude::*;

use crate::flags::{EntityFlags, FLAG_INVISIBLE};

verus! {

/// Whether a player is hidden from other players.
#[derive(Debug, Default, Copy, Clone, PartialEq, Eq, Structural)]
pub struct Vanished(pub bool);

impl Vanished {
    /// Creates the component with the given visibility.
    pub fn new(is_vanished: bool) -> (r: Self)
        ensures
            r.0 == is_vanished,
    {
        Self(is_vanished)
    }

    /// Whether the player is hidden.
    pub fn is_vanished(&self) -> (r: bool)
        ensures
            r == self.0,
    {
        self.0
    }
}

/// What a vanish change does to an entity's metadata flags and to its
/// player-list visibility: vanishing sets the invisible flag and delists
/// the player, reappearing clears the flag and relists it.
pub fn vanish_flags_update(flags: EntityFlags, vanished: bool) -> (r: (EntityFlags, bool))
    ensures
        vanished ==> r.0.value == flags.value | FLAG_INVISIBLE,
        !vanished ==> r.0.value == flags.value & !FLAG_INVISIBLE,
        r.1 == !vanished,
{
    let mut updated = flags;
    if vanished {
        updated.insert(FLAG_INVISIBLE);
        (updated, false)
    } else {
        updated.remove(FLAG_INVISIBLE);
        (updated, true)
    }
}

/// The tick a player last took damage at.
#[derive(Debug, Default, Copy, Clone, PartialEq, Eq, Structural)]
pub struct LastDamaged {
    /// The tick of the last damage taken.
    pub tick: i64,
}

impl LastDamaged {
    /// Records this tick as the last damaging one if damage was taken.
    pub fn record(&mut self, took_damage: bool, current_tick: i64)
        ensures
            final(self).tick == if took_damage {
                current_tick
            } else {
                old(self).tick
            },
    {
        if took_damage {
            self.tick = current_tick;
        }
    }

    /// How many ticks have passed since the last damage.
    pub fn ticks_since(&self, current_tick: i64) -> (r: i64)
        requires
            0 <= self.tick <= current_tick,
        ensures
            r == current_tick - self.tick,
    {
        current_tick - self.tick
    }
}

/// How many ticks a player must wait between chat messages.
pub const CHAT_COOLDOWN_TICKS: i64 = 60;

/// What happens to one chat message.
#[derive(Debug, Copy, Clone, PartialEq, Eq, Structural)]
pub enum ChatVerdict {
    /// The sender is still cooling down for this many more ticks; the
    /// message is not relayed.
    Rejected {
        /// Ticks left until the sender may chat again.
        remaining_ticks: i64,
    },
    /// The message is relayed and the sender's cooldown restarts.
    Accepted {
        /// The tick at which the new cooldown expires.
        new_expires: i64,
    },
}

/// The tick at which a player's chat cooldown expires.
#[derive(Debug, Default, PartialEq, Eq, Structural)]
pub struct ChatCooldown {
    /// The expiry tick.
    pub expires: i64,
}

impl ChatCooldown {
    /// Decides one chat message: rejected while the cooldown is running,
    /// otherwise accepted with the cooldown restarted from this tick.
    pub fn on_chat(&mut self, current_tick: i64) -> (r: ChatVerdict)
        requires
            0 <= current_tick,
            current_tick + CHAT_COOLDOWN_TICKS <= i64::MAX,
            0 <= old(self).expires,
        ensures
            old(self).expires > current_tick ==> r == (ChatVerdict::Rejected {
                remaining_ticks: (old(self).expires - current_tick) as i64,
            }) && final(self).expires == old(self).expires,
            old(self).expires <= current_tick ==> r == (ChatVerdict::Accepted {
                new_expires: (current_tick + CHAT_COOLDOWN_TICKS) as i64,
            }) && final(self).expires == current_tick + CHAT_COOLDOWN_TICKS,
    {
        if self.expires > current_tick {
            ChatVerdict::Rejected { remaining_ticks: self.expires - current_tick }
        } else {
            self.expires = current_tick + CHAT_COOLDOWN_TICKS;
            ChatVerdict::Accepted { new_expires: self.expires }
        }
    }
}

} // verus!
