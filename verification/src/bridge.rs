//! The signal bridge: what the thread that relays a session's events does
//! with each event, so that any burst of output becomes one refresh.

use crate::engine::{event_is_exit, is_exit_event};
use alacritty_terminal::event::Event;
use vstd::prelude::*;

verus! {

/// What the relay does after one wait on the engine's channel.
#[derive(Debug, Clone, Copy, PartialEq, Eq, Structural)]
pub struct RelayStep {
    /// Set the flag that asks the display for a refresh.
    pub mark_dirty: bool,
    /// End the relay.
    pub stop: bool,
}

/// The step for what a wait returned: `Some(exit)` for an event, where
/// `exit` tells that the process is gone, and `None` for a channel whose
/// other end is closed. Every event marks the display dirty, the last one
/// too; the relay ends after the exit and on a closed channel.
pub open spec fn relay_decision(received: Option<bool>) -> RelayStep {
    match received {
        Some(exit) => RelayStep { mark_dirty: true, stop: exit },
        None => RelayStep { mark_dirty: false, stop: true },
    }
}

/// Computes `relay_decision`.
pub fn decide_relay(received: Option<bool>) -> (step: RelayStep)
    ensures
        step == relay_decision(received),
{
    match received {
        Some(exit) => RelayStep { mark_dirty: true, stop: exit },
        None => RelayStep { mark_dirty: false, stop: true },
    }
}

/// The step for what a wait on the engine's channel returned: an event, or
/// nothing where the channel is closed.
pub fn relay_step(received: Option<&Event>) -> (step: RelayStep)
    ensures
        step == relay_decision(
            match received {
                Some(event) => Some(is_exit_event(*event)),
                None => None,
            },
        ),
{
    match received {
        Some(event) => decide_relay(Some(event_is_exit(event))),
        None => decide_relay(None),
    }
}

} // verus!
