//! The reactive core: keeps the user-facing selector consistent with the
//! effective route while the user may also write to the selector.
//!
//! Two strictly separated write paths meet at the selector control:
//! upstream-driven writes (default changed, override changed, registry
//! membership changed) push the freshly resolved route into the control with
//! a non-notifying write, and user-driven writes turn a chosen position into
//! an outbound override request.  A boolean re-entrancy guard is set for the
//! duration of every programmatic write: a selection-changed event observed
//! while the guard is set is ignored entirely, so a control whose
//! non-notifying write is only best-effort can never start a feedback loop.

use crate::overrides::RoutingOverrideStore;
use crate::registry::{spec_id_at, EndpointRegistry};
use crate::resolver::{resolve, spec_resolve, EffectiveRoute};
use crate::text::{dec_repr, render_target_id};
use crate::tracker::{DefaultEndpointTracker, UNSET_ID};
use vstd::prelude::*;

verus! {

/// Audio flow category; endpoints, defaults and routes are partitioned by
/// direction.
#[derive(Clone, Copy, Debug, PartialEq, Eq)]
pub enum Direction {
    Output,
    Input,
}

/// The label under which routing requests for this direction are published.
pub fn direction_label(direction: Direction) -> (r: &'static str)
    ensures
        direction is Output ==> r@ == "output"@,
        direction is Input ==> r@ == "input"@,
{
    match direction {
        Direction::Output => "output",
        Direction::Input => "input",
    }
}

/// Selection state of the user-facing selector control.
///
/// Index 0 is the synthetic "Default" entry; index `p + 1` shows the
/// endpoint at registry position `p`.  This models the one piece of control
/// state the engine drives; rendering is not its concern.
pub struct Selector {
    selected: usize,
}

impl Selector {
    /// The currently selected index.
    pub closed spec fn spec_selected(&self) -> usize {
        self.selected
    }

    /// A fresh control shows the synthetic "Default" entry.
    pub fn new() -> (r: Selector)
        ensures
            r.spec_selected() == 0,
    {
        Selector { selected: 0 }
    }

    /// Programmatic write: changes the selection without re-triggering the
    /// user-input event.
    pub fn set_selected_no_send(&mut self, index: usize)
        ensures
            final(self).spec_selected() == index,
    {
        self.selected = index;
    }

    /// The currently selected index.
    pub fn selected(&self) -> (r: usize)
        ensures
            r == self.spec_selected(),
    {
        self.selected
    }
}

/// Outbound routing request, published fire-and-forget to the session's
/// metadata channel: set the stream's explicit target, or clear it so the
/// stream follows the default again.  Its effect is observed only later, as
/// a metadata-changed echo through the normal upstream path.
#[derive(Clone, Copy, Debug, PartialEq, Eq)]
pub struct OutboundRequest {
    pub subject_id: u32,
    pub direction: Direction,
    pub target: Option<u32>,
}

/// The metadata value an outbound request carries: the target id in
/// decimal, or nothing for "clear the override".
pub fn request_value(request: &OutboundRequest) -> (r: Option<String>)
    ensures
        match request.target {
            Some(t) => r matches Some(s) && s@ == dec_repr(t as nat),
            None => r is None,
        },
{
    match request.target {
        Some(t) => Some(render_target_id(t)),
        None => None,
    }
}

/// The selector index that an effective route maps to: the synthetic
/// "Default" entry at index 0 for `FollowDefault` and `Unset`, the entry
/// after the target's registry position for a locatable explicit target, and
/// no write at all (`None`) while an explicit target is still absent from
/// the registry — the pending choice stays visible as it is.
pub open spec fn spec_selector_index(route: EffectiveRoute) -> Option<usize> {
    match route {
        EffectiveRoute::Explicit { position, .. } => match position {
            Some(p) => Some((p + 1) as usize),
            None => None,
        },
        EffectiveRoute::FollowDefault { .. } => Some(0),
        EffectiveRoute::Unset => Some(0),
    }
}

/// The selector position after one upstream-driven synchronization, given
/// the upstream state and the position shown before.
pub open spec fn spec_selector_after(
    default_id: u32,
    override_target: Option<u32>,
    order: Seq<u32>,
    selected: usize,
) -> usize {
    match spec_selector_index(spec_resolve(default_id, override_target, order)) {
        Some(index) => index,
        None => selected,
    }
}

/// One stream's selector synchronization state machine.
///
/// Constructed once per stream-facing widget, with the shared registry and
/// default tracker passed in by reference at each event.  The owner must run
/// one initial synchronization right after subscribing to the upstream
/// sources — the registry and tracker may hold no valid data yet at
/// construction, which is tolerated — and must unsubscribe from all of them
/// when the widget is torn down.
pub struct SelectorSyncController {
    subject_id: u32,
    direction: Direction,
    suppress_feedback: bool,
}

impl SelectorSyncController {
    /// The bound id of the stream this controller routes.
    pub closed spec fn spec_subject_id(&self) -> u32 {
        self.subject_id
    }

    /// The direction of the stream this controller routes.
    pub closed spec fn spec_direction(&self) -> Direction {
        self.direction
    }

    /// The re-entrancy guard: true only for the duration of a programmatic
    /// selector write.
    pub closed spec fn spec_suppress(&self) -> bool {
        self.suppress_feedback
    }

    /// A controller for the stream with bound id `subject_id`, idle, with
    /// the re-entrancy guard clear.
    pub fn new(subject_id: u32, direction: Direction) -> (r: SelectorSyncController)
        ensures
            r.spec_subject_id() == subject_id,
            r.spec_direction() == direction,
            !r.spec_suppress(),
    {
        SelectorSyncController { subject_id, direction, suppress_feedback: false }
    }

    /// The selector write for `route`, if the route calls for one.
    fn selector_index_for(route: &EffectiveRoute) -> (r: Option<usize>)
        requires
            route matches EffectiveRoute::Explicit { position: Some(p), .. } ==> p < usize::MAX,
        ensures
            r == spec_selector_index(*route),
    {
        match route {
            EffectiveRoute::Explicit { position: Some(p), .. } => Some(*p + 1),
            EffectiveRoute::Explicit { position: None, .. } => None,
            EffectiveRoute::FollowDefault { .. } => Some(0),
            EffectiveRoute::Unset => Some(0),
        }
    }

    /// User-driven selection-changed event.
    ///
    /// Ignored entirely while the re-entrancy guard is set.  Otherwise,
    /// index 0 asks to clear the override (follow the default again), and
    /// any other index asks to route to the endpoint at registry position
    /// `index - 1`, resolved against the current snapshot; an index beyond
    /// the registry asks for nothing.  The request is fire-and-forget: the
    /// controller returns to idle at once and re-affirms the selection only
    /// when the request echoes back through the metadata channel.
    pub fn on_selection_changed(&self, chosen: usize, registry: &EndpointRegistry) -> (r: Option<
        OutboundRequest,
    >)
        ensures
            r == spec_selection_response(*self, chosen, registry@),
    {
        if self.suppress_feedback {
            return None;
        }
        if chosen == 0 {
            return Some(
                OutboundRequest {
                    subject_id: self.subject_id,
                    direction: self.direction,
                    target: None,
                },
            );
        }
        match registry.id_at(chosen - 1) {
            Some(id) => Some(
                OutboundRequest {
                    subject_id: self.subject_id,
                    direction: self.direction,
                    target: Some(id),
                },
            ),
            None => None,
        }
    }

    /// Upstream notification (default changed, override changed, registry
    /// membership changed) or the one deferred initial synchronization:
    /// resolves the effective route against the current snapshots and pushes
    /// the resulting index into the selector with the non-notifying write.
    ///
    /// The re-entrancy guard is set around the write, and the change event
    /// that a best-effort control may deliver for it is routed through the
    /// guard; the returned echo is proven to carry no outbound request, so a
    /// sync-driven write can never publish an override.
    pub fn handle_upstream_event(
        &mut self,
        tracker: &DefaultEndpointTracker,
        store: &RoutingOverrideStore,
        registry: &EndpointRegistry,
        selector: &mut Selector,
    ) -> (echo: Option<OutboundRequest>)
        requires
            !old(self).spec_suppress(),
        ensures
            final(self).spec_subject_id() == old(self).spec_subject_id(),
            final(self).spec_direction() == old(self).spec_direction(),
            !final(self).spec_suppress(),
            final(selector).spec_selected() == spec_selector_after(
                tracker.spec_current(),
                store.spec_target(),
                registry@,
                old(selector).spec_selected(),
            ),
            echo is None,
    {
        self.suppress_feedback = true;
        let override_target = store.target();
        let route = resolve(tracker.current(), override_target, registry);
        proof {
            registry.lemma_len_bound();
            match override_target {
                Some(t) => registry@.index_of_first_ensures(t),
                None => registry@.index_of_first_ensures(tracker.spec_current()),
            }
        }
        let index = Self::selector_index_for(&route);
        let echo = match index {
            Some(p) => {
                selector.set_selected_no_send(p);
                // the control may deliver its change event even for this
                // non-notifying write; hand it to the guard
                self.on_selection_changed(p, registry)
            },
            None => None,
        };
        self.suppress_feedback = false;
        echo
    }
}

/// The request a selection-changed event produces: none while the guard is
/// set; a clear request for index 0; a set request for the endpoint at
/// registry position `chosen - 1` when that position exists; none otherwise.
pub open spec fn spec_selection_response(
    ctl: SelectorSyncController,
    chosen: usize,
    order: Seq<u32>,
) -> Option<OutboundRequest> {
    if ctl.spec_suppress() {
        None
    } else if chosen == 0 {
        Some(
            OutboundRequest {
                subject_id: ctl.spec_subject_id(),
                direction: ctl.spec_direction(),
                target: None,
            },
        )
    } else {
        match spec_id_at(order, chosen - 1) {
            Some(id) => Some(
                OutboundRequest {
                    subject_id: ctl.spec_subject_id(),
                    direction: ctl.spec_direction(),
                    target: Some(id),
                },
            ),
            None => None,
        }
    }
}

/// Idempotent notification: synchronizing twice from the same upstream state
/// leaves the selector where the first synchronization put it — a duplicate
/// notification causes no visible change (and, by
/// [`SelectorSyncController::handle_upstream_event`], no outbound request
/// either time).
pub proof fn lemma_notification_idempotent(
    default_id: u32,
    override_target: Option<u32>,
    order: Seq<u32>,
    selected: usize,
)
    ensures
        spec_selector_after(
            default_id,
            override_target,
            order,
            spec_selector_after(default_id, override_target, order, selected),
        ) == spec_selector_after(default_id, override_target, order, selected),
{
}

/// No feedback loop: while the re-entrancy guard is set — as it is for the
/// duration of every programmatic selector write — a selection-changed event
/// produces no outbound request.
pub proof fn lemma_guard_blocks_feedback(
    ctl: SelectorSyncController,
    chosen: usize,
    order: Seq<u32>,
)
    requires
        ctl.spec_suppress(),
    ensures
        spec_selection_response(ctl, chosen, order) is None,
{
}

/// Unset-default safety at the selector: with no default configured and no
/// override set, synchronization drives the selector to index 0, the
/// synthetic "Default" entry.
pub proof fn lemma_unset_default_selects_zero(order: Seq<u32>, selected: usize)
    ensures
        spec_selector_after(UNSET_ID, None, order, selected) == 0,
{
}

} // verus!
