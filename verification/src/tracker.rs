//! The currently configured default endpoint id for one direction.

use vstd::prelude::*;

verus! {

/// Sentinel id meaning "no default endpoint is configured".
///
/// Endpoint ids are bound ids handed out by the session; the session never
/// hands out `u32::MAX`, which is therefore free to mean "unset".
pub const UNSET_ID: u32 = u32::MAX;

/// Holds the default endpoint id for one direction.
///
/// The value is a single `u32` (not a multi-field struct) so that a read
/// interleaved with a notification can never observe a torn value.  It is
/// mutated only by [`DefaultEndpointTracker::on_changed`], driven by the
/// external default-endpoint-changed notification; consumers only read it.
pub struct DefaultEndpointTracker {
    current: u32,
}

impl DefaultEndpointTracker {
    /// The tracked id; [`UNSET_ID`] while no notification has arrived.
    pub closed spec fn spec_current(&self) -> u32 {
        self.current
    }

    /// True once a real default endpoint id is known.
    pub open spec fn spec_has_default(&self) -> bool {
        self.spec_current() != UNSET_ID
    }

    /// A fresh tracker reports "no default known yet" until the first
    /// notification arrives.
    pub fn new() -> (r: DefaultEndpointTracker)
        ensures
            r.spec_current() == UNSET_ID,
            !r.spec_has_default(),
    {
        DefaultEndpointTracker { current: UNSET_ID }
    }

    /// External default-changed notification: replaces the tracked id
    /// unconditionally, even when the new value equals the old one.
    pub fn on_changed(&mut self, id: u32)
        ensures
            final(self).spec_current() == id,
    {
        self.current = id;
    }

    /// The current default endpoint id, [`UNSET_ID`] when none is configured.
    pub fn current(&self) -> (r: u32)
        ensures
            r == self.spec_current(),
    {
        self.current
    }

    /// Whether a real default endpoint id is currently configured.
    pub fn has_default(&self) -> (r: bool)
        ensures
            r == self.spec_has_default(),
    {
        self.current != UNSET_ID
    }
}

} // verus!
