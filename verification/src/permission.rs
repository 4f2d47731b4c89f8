//! Permission groups and their stored byte codes.

use vstd::prelude::*;

verus! {

/// A player's permission group.
#[derive(Copy, Clone, Debug, PartialEq, Eq, Structural)]
pub enum Group {
    /// Banned from the server.
    Banned,
    /// An ordinary player.
    Normal,
    /// A moderator.
    Moderator,
    /// An administrator.
    Admin,
}

/// The byte code a group is stored under.
pub open spec fn group_code(g: Group) -> u8 {
    match g {
        Group::Banned => 0,
        Group::Normal => 1,
        Group::Moderator => 2,
        Group::Admin => 3,
    }
}

/// The group a stored byte decodes to, if any.
pub open spec fn group_of_code(value: u8) -> Option<Group> {
    if value == 0 {
        Some(Group::Banned)
    } else if value == 1 {
        Some(Group::Normal)
    } else if value == 2 {
        Some(Group::Moderator)
    } else if value == 3 {
        Some(Group::Admin)
    } else {
        None
    }
}

impl Group {
    /// The byte code this group is stored under.
    pub fn to_u8(self) -> (r: u8)
        ensures
            r == group_code(self),
    {
        match self {
            Group::Banned => 0,
            Group::Normal => 1,
            Group::Moderator => 2,
            Group::Admin => 3,
        }
    }

    /// Decodes a stored byte; bytes above the last group decode to
    /// nothing.
    pub fn from_u8(value: u8) -> (r: Option<Group>)
        ensures
            r == group_of_code(value),
    {
        if value == 0 {
            Some(Group::Banned)
        } else if value == 1 {
            Some(Group::Normal)
        } else if value == 2 {
            Some(Group::Moderator)
        } else if value == 3 {
            Some(Group::Admin)
        } else {
            None
        }
    }
}

impl Default for Group {
    /// A player starts as an ordinary player.
    fn default() -> (r: Self)
        ensures
            r == Group::Normal,
    {
        Group::Normal
    }
}

/// Encoding then decoding a group gives the group back, and a byte that
/// decodes gives its own code back: the stored form loses nothing.
pub proof fn lemma_group_code_round_trip(g: Group, value: u8)
    ensures
        group_of_code(group_code(g)) == Some(g),
        group_of_code(value) matches Some(h) ==> group_code(h) == value,
{
}

} // verus!
