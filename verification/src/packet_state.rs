//! Components marking a player's packet state. A player carries at most
//! one state component at a time; it may carry none during a state
//! transition.

use vstd::prelude::*;

verus! {

/// Marks players who are in the handshake state.
#[derive(Debug)]
pub struct Handshake;

/// Marks players who are in the status state.
#[derive(Debug)]
pub struct Status;

/// Marks players who are in the login state.
#[derive(Debug)]
pub struct Login;

/// Marks players who are in the play state.
#[derive(Debug)]
pub struct Play;

} // verus!
