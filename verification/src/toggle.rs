//! The "this endpoint is the default" toggle: the second consumer of
//! default-changed notifications.
//!
//! An endpoint-facing widget shows a toggle that is lit exactly when that
//! endpoint is the direction's current default.  Like the selector, the
//! toggle is written programmatically on every default-changed notification
//! and may also be flipped by the user, so the same re-entrancy guard
//! discipline applies: the programmatic write is wrapped in a guard, and a
//! toggled event observed while the guard is set asks for nothing.

use crate::tracker::DefaultEndpointTracker;
use vstd::prelude::*;

verus! {

/// State of the toggle control, with its non-notifying write primitive.
pub struct ToggleState {
    active: bool,
}

impl ToggleState {
    /// Whether the toggle is currently lit.
    pub closed spec fn spec_active(&self) -> bool {
        self.active
    }

    /// A fresh toggle is unlit.
    pub fn new() -> (r: ToggleState)
        ensures
            !r.spec_active(),
    {
        ToggleState { active: false }
    }

    /// Programmatic write: changes the toggle without re-triggering the
    /// user-input event.
    pub fn set_active_no_send(&mut self, active: bool)
        ensures
            final(self).spec_active() == active,
    {
        self.active = active;
    }

    /// Whether the toggle is currently lit.
    pub fn active(&self) -> (r: bool)
        ensures
            r == self.spec_active(),
    {
        self.active
    }
}

/// Guarded synchronization between the tracked default and one endpoint's
/// toggle.
pub struct DefaultToggleSync {
    bound_id: u32,
    suppress_feedback: bool,
}

impl DefaultToggleSync {
    /// The bound id of the endpoint this toggle belongs to.
    pub closed spec fn spec_bound_id(&self) -> u32 {
        self.bound_id
    }

    /// The re-entrancy guard: true only for the duration of a programmatic
    /// toggle write.
    pub closed spec fn spec_suppress(&self) -> bool {
        self.suppress_feedback
    }

    /// A sync for the endpoint with bound id `bound_id`, guard clear.
    pub fn new(bound_id: u32) -> (r: DefaultToggleSync)
        ensures
            r.spec_bound_id() == bound_id,
            !r.spec_suppress(),
    {
        DefaultToggleSync { bound_id, suppress_feedback: false }
    }

    /// User-driven toggled event: asks the owner to publish a "make this
    /// endpoint the configured default" request — unless the guard is set,
    /// in which case the event is the echo of a programmatic write and asks
    /// for nothing.
    pub fn on_toggled(&self) -> (emit: bool)
        ensures
            emit == !self.spec_suppress(),
    {
        !self.suppress_feedback
    }

    /// Default-changed notification: lights the toggle exactly when this
    /// endpoint is now the default, under the guard; the toggled event a
    /// best-effort control may deliver for the write asks for nothing.
    pub fn on_default_changed(
        &mut self,
        tracker: &DefaultEndpointTracker,
        toggle: &mut ToggleState,
    ) -> (emit: bool)
        requires
            !old(self).spec_suppress(),
        ensures
            final(self).spec_bound_id() == old(self).spec_bound_id(),
            !final(self).spec_suppress(),
            final(toggle).spec_active() == (old(self).spec_bound_id() == tracker.spec_current()),
            !emit,
    {
        self.suppress_feedback = true;
        toggle.set_active_no_send(self.bound_id == tracker.current());
        // the control may deliver its toggled event even for this
        // non-notifying write; hand it to the guard
        let emit = self.on_toggled();
        self.suppress_feedback = false;
        emit
    }
}

} // verus!
