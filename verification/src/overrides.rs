//! Per-stream explicit routing override, derived from shared metadata events.
//!
//! The session publishes routing choices as key/value metadata.  One store
//! instance belongs to one stream: it filters the event firehose by the
//! stream's bound id and the `target.` key namespace itself — the source is
//! not required to pre-filter — and keeps the last published target id.
//! A missing, empty or malformed value withdraws the override; that is a
//! first-class state ("follow the default"), never an error.

use crate::text::{key_in_target_namespace, key_matches_namespace, parse_target_id, spec_parse_dec};
use vstd::prelude::*;

verus! {

/// The state change that one accepted metadata event carries: the new
/// explicit target, or `None` when the override is withdrawn, with an
/// optional companion serial for diagnostics when ids are reused.
#[derive(Clone, Copy, Debug, PartialEq, Eq)]
pub struct OverrideUpdate {
    pub target: Option<u32>,
    pub serial: Option<u64>,
}

/// View of an optional metadata value as an optional character sequence.
pub open spec fn spec_opt_view(value: Option<&str>) -> Option<Seq<char>> {
    match value {
        Some(v) => Some(v@),
        None => None,
    }
}

/// What one metadata event means to the stream with bound id `bound_id`:
/// `Some(update)` when the event's subject is that stream and its key lies in
/// the `target.` namespace, `None` (ignore, no state change) otherwise.  The
/// value must parse as a decimal target id; anything else withdraws the
/// override.  The metadata channel carries no serial, so none is recorded.
pub open spec fn spec_event_update(
    bound_id: u32,
    subject_id: u32,
    key: Seq<char>,
    value: Option<Seq<char>>,
) -> Option<OverrideUpdate> {
    if subject_id == bound_id && key_matches_namespace(key) {
        Some(
            OverrideUpdate {
                target: match value {
                    Some(s) => spec_parse_dec(s),
                    None => None,
                },
                serial: None,
            },
        )
    } else {
        None
    }
}

/// The explicit routing override of one stream.
///
/// Exclusively owned by that stream's controller; mutated only through
/// [`RoutingOverrideStore::on_metadata_changed`].
pub struct RoutingOverrideStore {
    bound_id: u32,
    override_target: Option<u32>,
    override_serial: Option<u64>,
}

impl RoutingOverrideStore {
    /// The bound id of the stream this store belongs to.
    pub closed spec fn spec_bound_id(&self) -> u32 {
        self.bound_id
    }

    /// The current explicit target id, `None` when no override is set.
    pub closed spec fn spec_target(&self) -> Option<u32> {
        self.override_target
    }

    /// The companion serial of the current override, if one is known.
    pub closed spec fn spec_serial(&self) -> Option<u64> {
        self.override_serial
    }

    /// A fresh store for the stream with bound id `bound_id`, with no
    /// override set.
    pub fn new(bound_id: u32) -> (r: RoutingOverrideStore)
        ensures
            r.spec_bound_id() == bound_id,
            r.spec_target() is None,
            r.spec_serial() is None,
    {
        RoutingOverrideStore { bound_id, override_target: None, override_serial: None }
    }

    /// Classifies one metadata event without changing any state: the update
    /// it carries for this stream, or `None` when the event is not about
    /// this stream's routing target.
    pub fn resolve(&self, subject_id: u32, key: &str, value: Option<&str>) -> (r: Option<
        OverrideUpdate,
    >)
        ensures
            r == spec_event_update(self.spec_bound_id(), subject_id, key@, spec_opt_view(value)),
    {
        if subject_id != self.bound_id {
            return None;
        }
        if !key_in_target_namespace(key) {
            return None;
        }
        let target = match value {
            Some(v) => parse_target_id(v),
            None => None,
        };
        Some(OverrideUpdate { target, serial: None })
    }

    /// Metadata-changed notification: applies the update the event carries,
    /// if any; every other event leaves the store untouched.
    pub fn on_metadata_changed(&mut self, subject_id: u32, key: &str, value: Option<&str>)
        ensures
            final(self).spec_bound_id() == old(self).spec_bound_id(),
            match spec_event_update(
                old(self).spec_bound_id(),
                subject_id,
                key@,
                spec_opt_view(value),
            ) {
                Some(u) => final(self).spec_target() == u.target
                    && final(self).spec_serial() == u.serial,
                None => final(self).spec_target() == old(self).spec_target()
                    && final(self).spec_serial() == old(self).spec_serial(),
            },
    {
        match self.resolve(subject_id, key, value) {
            Some(u) => {
                self.override_target = u.target;
                self.override_serial = u.serial;
            },
            None => {},
        }
    }

    /// The current override: the explicit target id and its companion
    /// serial, or `None` when the stream follows the default.
    pub fn current(&self) -> (r: Option<(u32, Option<u64>)>)
        ensures
            r == match self.spec_target() {
                Some(t) => Some((t, self.spec_serial())),
                None => None::<(u32, Option<u64>)>,
            },
    {
        match self.override_target {
            Some(t) => Some((t, self.override_serial)),
            None => None,
        }
    }

    /// The current explicit target id, `None` when no override is set.
    pub fn target(&self) -> (r: Option<u32>)
        ensures
            r == self.spec_target(),
    {
        self.override_target
    }
}

} // verus!
