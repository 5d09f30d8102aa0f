//! The run loop's exit decision.
//!
//! The event loop is cooperative and single-threaded: each polled event is
//! reduced to one disposition, and the only way execution proceeds from
//! running to tearing down is a terminal signal — an explicit close request
//! or the designated cancel key.

use vstd::prelude::*;

verus! {

/// A window event reduced to what the run loop inspects.
#[derive(Clone, Copy, Debug, PartialEq, Eq, Structural)]
pub enum LoopEvent {
    /// The window was asked to close.
    CloseRequested,
    /// The designated cancel key was pressed.
    CancelKeyPressed,
    /// Any other key was pressed.
    OtherKeyPressed,
    /// Any other event.
    Other,
}

/// What the run loop does after one polled event.
#[derive(Clone, Copy, Debug, PartialEq, Eq, Structural)]
pub enum Disposition {
    /// Keep polling.
    Continue,
    /// Leave the loop; teardown follows.
    Stop,
}

/// The events that end the run.
pub open spec fn is_terminal(event: LoopEvent) -> bool {
    event is CloseRequested || event is CancelKeyPressed
}

/// Decides the disposition of one polled event: stop on a close request or
/// the cancel key, continue on everything else.
pub fn handle_event(event: LoopEvent) -> (r: Disposition)
    ensures
        r is Stop <==> is_terminal(event),
{
    match event {
        LoopEvent::CloseRequested => Disposition::Stop,
        LoopEvent::CancelKeyPressed => Disposition::Stop,
        LoopEvent::OtherKeyPressed => Disposition::Continue,
        LoopEvent::Other => Disposition::Continue,
    }
}

/// The iteration on which a run over the given event sequence exits: the
/// index of the first terminal event, or `None` when no event stops it.
pub fn first_stop(events: &Vec<LoopEvent>) -> (r: Option<usize>)
    ensures
        match r {
            Some(i) => {
                &&& 0 <= i < events@.len()
                &&& is_terminal(events@[i as int])
                &&& forall|j: int| 0 <= j < i ==> !is_terminal(#[trigger] events@[j])
            },
            None => forall|j: int|
                0 <= j < events@.len() ==> !is_terminal(#[trigger] events@[j]),
        },
{
    let mut i: usize = 0;
    while i < events.len()
        invariant
            0 <= i <= events@.len(),
            forall|j: int| 0 <= j < i ==> !is_terminal(#[trigger] events@[j]),
        decreases events@.len() - i,
    {
        let stop = match handle_event(events[i]) {
            Disposition::Stop => true,
            Disposition::Continue => false,
        };
        if stop {
            return Some(i);
        }
        i += 1;
    }
    None
}

} // verus!
