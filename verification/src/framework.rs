//! The frame loop of an example: what it does with each event of the window
//! system.

use vstd::prelude::*;

verus! {

/// An event of the window system, as far as the frame loop tells events
/// apart.
#[derive(Clone, Copy, Debug, PartialEq, Eq, Structural, Hash)]
pub enum EventKind {
    /// The window was resized.
    Resized,
    /// The user asked to close the window.
    CloseRequested,
    /// The escape key went down.
    EscapePressed,
    /// Any other event of the window.
    OtherWindowEvent,
    /// An event that is not of the window.
    NotAWindowEvent,
}

/// What the frame loop does with an event.
#[derive(Clone, Copy, Debug, PartialEq, Eq, Structural, Hash)]
pub enum LoopStep {
    /// Log the new size.
    Log,
    /// Leave the loop after this round.
    Stop,
    /// Hand the event to the example.
    Update,
    /// Do nothing.
    Skip,
}

/// The step for each kind of event. A resize is logged and not handed on;
/// a close request and the escape key end the loop; every other event of the
/// window goes to the example; all else is skipped.
pub open spec fn step_for(kind: EventKind) -> LoopStep {
    match kind {
        EventKind::Resized => LoopStep::Log,
        EventKind::CloseRequested | EventKind::EscapePressed => LoopStep::Stop,
        EventKind::OtherWindowEvent => LoopStep::Update,
        EventKind::NotAWindowEvent => LoopStep::Skip,
    }
}

/// Decides what the frame loop does with an event of kind `kind`.
pub fn on_event(kind: EventKind) -> (step: LoopStep)
    ensures
        step == step_for(kind),
{
    match kind {
        EventKind::Resized => LoopStep::Log,
        EventKind::CloseRequested | EventKind::EscapePressed => LoopStep::Stop,
        EventKind::OtherWindowEvent => LoopStep::Update,
        EventKind::NotAWindowEvent => LoopStep::Skip,
    }
}

} // verus!
