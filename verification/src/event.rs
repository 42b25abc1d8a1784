//! Application-visible session state and the structural events that the
//! runtime side of the driver publishes to per-tick consumers.

use vstd::prelude::*;

use crate::math::ViewPose;

verus! {

/// Coarse application-facing state of the XR session, derived from the
/// runtime-reported session lifecycle states.
#[derive(Clone, Copy, Debug, PartialEq, Eq, Structural)]
pub enum XRState {
    /// No frames are owed: initial state, or the session was stopped.
    Paused,
    /// The frame loop is synchronized with the runtime and frames are owed.
    Running,
    /// Running, and the application additionally receives XR input.
    RunningFocused,
    /// The session is over (or being lost) and must not be restarted.
    Exiting,
}

/// The render-target surface for the views has been (re)configured.
#[derive(Clone, Copy, Debug, PartialEq, Eq, Structural)]
pub struct XRViewSurfaceCreated {
    pub width: u32,
    pub height: u32,
}

/// The per-eye views have been located for the first time.
#[derive(Clone, Debug)]
pub struct XRViewsCreated {
    pub views: Vec<ViewPose>,
}

/// A structural event produced on the runtime side of the driver and consumed
/// once per tick by an independent subsystem.
#[derive(Clone, Debug)]
pub enum XREvent {
    ViewSurfaceCreated(XRViewSurfaceCreated),
    ViewsCreated(XRViewsCreated),
}

/// A first-in-first-out queue decoupling runtime-originated structural events
/// from their per-tick consumers. Drained once per tick.
#[derive(Debug)]
pub struct EventQueue {
    events: Vec<XREvent>,
}

impl EventQueue {
    /// What the queue currently holds, oldest first.
    pub closed spec fn view(&self) -> Seq<XREvent> {
        self.events@
    }

    pub fn new() -> (q: EventQueue)
        ensures
            q@ =~= Seq::<XREvent>::empty(),
    {
        EventQueue { events: Vec::new() }
    }

    /// Enqueue one event behind everything already pending.
    pub fn push(&mut self, e: XREvent)
        ensures
            final(self)@ =~= old(self)@.push(e),
    {
        self.events.push(e);
    }

    /// Hand out every pending event, oldest first, leaving the queue empty.
    pub fn drain(&mut self) -> (drained: Vec<XREvent>)
        ensures
            drained@ =~= old(self)@,
            final(self)@ =~= Seq::<XREvent>::empty(),
    {
        let mut drained: Vec<XREvent> = Vec::new();
        core::mem::swap(&mut drained, &mut self.events);
        drained
    }

    pub fn len(&self) -> (n: usize)
        ensures
            n == self@.len(),
    {
        self.events.len()
    }
}

} // verus!
