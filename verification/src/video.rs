//! How the looping video player reacts to messages of its pipeline bus.
use vstd::prelude::*;

verus! {

/// The kinds of bus message the player tells apart.
#[derive(PartialEq, Eq, Structural, Clone, Copy, Debug)]
pub enum BusMessage {
    EndOfStream,
    Error,
    Other,
}

/// What the player does for a bus message.
#[derive(PartialEq, Eq, Structural, Clone, Copy, Debug)]
pub enum BusAction {
    /// Seek back to the start, so that the video loops.
    Restart,
    /// Report the error.
    Report,
    /// Nothing.
    Ignore,
}

/// The player's reaction to a bus message, and whether the bus watch stays
/// installed: once the player is gone, nothing is done and the watch is
/// removed.
pub fn bus_reaction(player_alive: bool, msg: BusMessage) -> (r: (BusAction, bool))
    ensures
        !player_alive ==> r == (BusAction::Ignore, false),
        player_alive ==> r.1,
        player_alive && msg == BusMessage::EndOfStream ==> r.0 == BusAction::Restart,
        player_alive && msg == BusMessage::Error ==> r.0 == BusAction::Report,
        player_alive && msg == BusMessage::Other ==> r.0 == BusAction::Ignore,
{
    if !player_alive {
        return (BusAction::Ignore, false);
    }
    match msg {
        BusMessage::EndOfStream => (BusAction::Restart, true),
        BusMessage::Error => (BusAction::Report, true),
        BusMessage::Other => (BusAction::Ignore, true),
    }
}

} // verus!
