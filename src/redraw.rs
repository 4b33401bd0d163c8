use vstd::prelude::*;

verus! {

/// A point in time, counted in nanoseconds on the event loop's monotonic clock.
#[derive(Clone, Copy, Debug, PartialEq, Eq, Structural)]
pub struct Instant(pub u64);

/// The redraw state of a window.
#[derive(Clone, Copy, Debug, PartialEq, Eq, Structural)]
pub enum RedrawRequest {
    /// A frame callback was requested from the compositor and a commit issued.
    NextFrame,
    /// A timer wake at the given instant will promote the window.
    At(Instant),
    /// No redraw is scheduled.
    Wait,
}

impl RedrawRequest {
    /// The state after `request` is made while in `self`: a pending frame
    /// request is never downgraded, anything else is replaced.
    pub open spec fn after_request(self, request: RedrawRequest) -> RedrawRequest {
        if self is NextFrame {
            self
        } else {
            request
        }
    }

    /// Whether a timer firing at `now` promotes this state to a frame request.
    pub open spec fn is_due(self, now: Instant) -> bool {
        match self {
            RedrawRequest::At(at) => at.0 <= now.0,
            _ => false,
        }
    }

    /// Whether a timer firing at `now` promotes this state.
    pub fn due(&self, now: Instant) -> (r: bool)
        ensures
            r == self.is_due(now),
    {
        match self {
            RedrawRequest::At(at) => at.0 <= now.0,
            _ => false,
        }
    }

    /// Whether this is the idle state.
    pub fn is_wait(&self) -> (r: bool)
        ensures
            r == (*self is Wait),
    {
        matches!(self, RedrawRequest::Wait)
    }
}

/// Once a frame has been requested, no later request changes the state
/// until the frame callback resets it.
pub proof fn lemma_next_frame_is_kept(request: RedrawRequest)
    ensures
        RedrawRequest::NextFrame.after_request(request) == RedrawRequest::NextFrame,
{
}

} // verus!
