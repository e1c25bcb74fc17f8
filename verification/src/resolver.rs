//! Pure resolution of default, override and registry into one effective route.

use crate::registry::{lemma_remove_then_reinsert, spec_position_of, EndpointRegistry};
use crate::tracker::UNSET_ID;
use vstd::prelude::*;

verus! {

/// The one route a stream effectively follows, derived on every upstream
/// event and never persisted.
///
/// A `position` is `None` whenever the referenced id is not currently in the
/// registry — a valid transient state (the endpoint may be about to appear or
/// was just removed), not an error.
#[derive(Clone, Copy, Debug, PartialEq, Eq)]
pub enum EffectiveRoute {
    /// An explicit per-stream target override is set.
    Explicit { target: u32, position: Option<usize> },
    /// No override: the stream follows the direction's default endpoint.
    FollowDefault { default_id: u32, position: Option<usize> },
    /// No override and no default configured.
    Unset,
}

/// Resolution rule: an explicit override always wins, even when its target
/// is presently absent from the registry; otherwise a configured default is
/// followed; otherwise the route is unset.
pub open spec fn spec_resolve(
    default_id: u32,
    override_target: Option<u32>,
    order: Seq<u32>,
) -> EffectiveRoute {
    match override_target {
        Some(t) => EffectiveRoute::Explicit { target: t, position: spec_position_of(order, t) },
        None => if default_id != UNSET_ID {
            EffectiveRoute::FollowDefault {
                default_id,
                position: spec_position_of(order, default_id),
            }
        } else {
            EffectiveRoute::Unset
        },
    }
}

/// Combines the tracked default, the stream's override and the current
/// registry snapshot into the effective route.  Positions are looked up
/// fresh here, never cached, so no stale position can be reported.
pub fn resolve(default_id: u32, override_target: Option<u32>, registry: &EndpointRegistry) -> (r:
    EffectiveRoute)
    ensures
        r == spec_resolve(default_id, override_target, registry@),
{
    match override_target {
        Some(t) => EffectiveRoute::Explicit { target: t, position: registry.position_of(t) },
        None => {
            if default_id != UNSET_ID {
                EffectiveRoute::FollowDefault {
                    default_id,
                    position: registry.position_of(default_id),
                }
            } else {
                EffectiveRoute::Unset
            }
        },
    }
}

/// Override precedence: whenever an override is set to `target`, resolution
/// yields `Explicit` for that target — whatever the default currently is,
/// including when the default equals the target, and whether or not the
/// target is presently in the registry.
pub proof fn lemma_override_precedence(default_id: u32, target: u32, order: Seq<u32>)
    ensures
        spec_resolve(default_id, Some(target), order) == (EffectiveRoute::Explicit {
            target,
            position: spec_position_of(order, target),
        }),
{
}

/// Unset-default safety: with the default unset and no override, resolution
/// yields `Unset` — never a made-up endpoint.
pub proof fn lemma_unset_default_resolves_unset(order: Seq<u32>)
    ensures
        spec_resolve(UNSET_ID, None, order) == EffectiveRoute::Unset,
{
}

/// Removal consistency: removing the id that is the current explicit target
/// makes the next resolution report `position: None` for it, and re-inserting
/// the same id restores a valid position (at the end of the order).
pub proof fn lemma_removal_consistency(default_id: u32, target: u32, order: Seq<u32>)
    requires
        order.len() <= usize::MAX,
        order.no_duplicates(),
        order.contains(target),
    ensures
        spec_resolve(default_id, Some(target), order.remove_value(target))
            == (EffectiveRoute::Explicit { target, position: None }),
        spec_resolve(default_id, Some(target), order.remove_value(target).push(target))
            == (EffectiveRoute::Explicit {
            target,
            position: Some(order.remove_value(target).len() as usize),
        }),
{
    lemma_remove_then_reinsert(order, target);
}

} // verus!
