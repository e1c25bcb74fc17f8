//! Tests for the leaf components: registry, tracker, text handling,
//! override store and resolver.

use routesync::overrides::RoutingOverrideStore;
use routesync::registry::EndpointRegistry;
use routesync::resolver::{resolve, EffectiveRoute};
use routesync::text::{key_in_target_namespace, parse_target_id, render_target_id};
use routesync::tracker::{DefaultEndpointTracker, UNSET_ID};

#[test]
fn registry_insert_is_idempotent() {
    let mut reg = EndpointRegistry::new();
    reg.insert(10);
    reg.insert(10);
    assert_eq!(reg.len(), 1);
    assert_eq!(reg.position_of(10), Some(0));
}

#[test]
fn registry_position_inverse() {
    let mut reg = EndpointRegistry::new();
    reg.insert(10);
    reg.insert(20);
    reg.insert(30);
    for id in [10, 20, 30] {
        let pos = reg.position_of(id).unwrap();
        assert_eq!(reg.id_at(pos), Some(id));
    }
}

#[test]
fn registry_remove_shifts_later_positions() {
    let mut reg = EndpointRegistry::new();
    reg.insert(10);
    reg.insert(20);
    reg.insert(30);
    reg.remove(20);
    assert_eq!(reg.len(), 2);
    assert_eq!(reg.position_of(20), None);
    assert_eq!(reg.position_of(10), Some(0));
    assert_eq!(reg.position_of(30), Some(1));
    assert_eq!(reg.id_at(1), Some(30));
}

#[test]
fn registry_remove_absent_is_noop() {
    let mut reg = EndpointRegistry::new();
    reg.insert(10);
    reg.remove(99);
    assert_eq!(reg.len(), 1);
    assert_eq!(reg.position_of(10), Some(0));
}

#[test]
fn registry_reinsertion_restores_position() {
    let mut reg = EndpointRegistry::new();
    reg.insert(10);
    reg.insert(20);
    reg.remove(20);
    assert_eq!(reg.position_of(20), None);
    reg.insert(20);
    assert_eq!(reg.position_of(20), Some(1));
    assert_eq!(reg.id_at(1), Some(20));
}

#[test]
fn tracker_starts_unset() {
    let tracker = DefaultEndpointTracker::new();
    assert_eq!(tracker.current(), UNSET_ID);
    assert!(!tracker.has_default());
}

#[test]
fn tracker_replaces_unconditionally() {
    let mut tracker = DefaultEndpointTracker::new();
    tracker.on_changed(10);
    assert_eq!(tracker.current(), 10);
    assert!(tracker.has_default());
    tracker.on_changed(10);
    assert_eq!(tracker.current(), 10);
    tracker.on_changed(UNSET_ID);
    assert!(!tracker.has_default());
}

#[test]
fn parse_plain_decimal() {
    assert_eq!(parse_target_id("20"), Some(20));
    assert_eq!(parse_target_id("0"), Some(0));
    assert_eq!(parse_target_id("007"), Some(7));
}

#[test]
fn parse_limits() {
    assert_eq!(parse_target_id("4294967295"), Some(u32::MAX));
    assert_eq!(parse_target_id("4294967296"), None);
    assert_eq!(parse_target_id("99999999999999999999"), None);
}

#[test]
fn parse_rejects_malformed() {
    assert_eq!(parse_target_id(""), None);
    assert_eq!(parse_target_id("2x"), None);
    assert_eq!(parse_target_id("-1"), None);
    assert_eq!(parse_target_id(" 20"), None);
    assert_eq!(parse_target_id("abc"), None);
}

#[test]
fn render_decimal() {
    assert_eq!(render_target_id(0), "0");
    assert_eq!(render_target_id(20), "20");
    assert_eq!(render_target_id(4294967295), "4294967295");
}

#[test]
fn render_parse_round_trip() {
    for id in [0, 1, 9, 10, 42, 1000, u32::MAX] {
        assert_eq!(parse_target_id(&render_target_id(id)), Some(id));
    }
}

#[test]
fn key_namespace_match() {
    assert!(key_in_target_namespace("target.node"));
    assert!(key_in_target_namespace("target.object"));
    assert!(key_in_target_namespace("target."));
    assert!(key_in_target_namespace("media.target.node"));
    assert!(!key_in_target_namespace("target"));
    assert!(!key_in_target_namespace("node.volume"));
    assert!(!key_in_target_namespace(""));
}

#[test]
fn store_accepts_matching_event() {
    let mut store = RoutingOverrideStore::new(33);
    store.on_metadata_changed(33, "target.node", Some("20"));
    assert_eq!(store.current(), Some((20, None)));
    assert_eq!(store.target(), Some(20));
}

#[test]
fn store_filters_by_subject_and_key() {
    let mut store = RoutingOverrideStore::new(33);
    store.on_metadata_changed(44, "target.node", Some("20"));
    assert_eq!(store.current(), None);
    store.on_metadata_changed(33, "node.volume", Some("20"));
    assert_eq!(store.current(), None);
    // classification alone changes nothing either
    assert!(store.resolve(33, "target.node", Some("20")).is_some());
    assert_eq!(store.current(), None);
}

#[test]
fn store_malformed_value_clears() {
    let mut store = RoutingOverrideStore::new(33);
    store.on_metadata_changed(33, "target.node", Some("20"));
    assert_eq!(store.target(), Some(20));
    store.on_metadata_changed(33, "target.node", Some("garbage"));
    assert_eq!(store.target(), None);
}

#[test]
fn store_absent_value_clears() {
    let mut store = RoutingOverrideStore::new(33);
    store.on_metadata_changed(33, "target.node", Some("20"));
    assert_eq!(store.target(), Some(20));
    store.on_metadata_changed(33, "target.node", None);
    assert_eq!(store.target(), None);
    assert_eq!(store.current(), None);
}

#[test]
fn resolver_override_precedence() {
    let mut reg = EndpointRegistry::new();
    reg.insert(10);
    reg.insert(20);
    // override wins over any default, including one equal to the target
    let r = resolve(10, Some(20), &reg);
    assert_eq!(r, EffectiveRoute::Explicit { target: 20, position: Some(1) });
    let r = resolve(20, Some(20), &reg);
    assert_eq!(r, EffectiveRoute::Explicit { target: 20, position: Some(1) });
    let r = resolve(UNSET_ID, Some(20), &reg);
    assert_eq!(r, EffectiveRoute::Explicit { target: 20, position: Some(1) });
}

#[test]
fn resolver_unset_default() {
    let reg = EndpointRegistry::new();
    assert_eq!(resolve(UNSET_ID, None, &reg), EffectiveRoute::Unset);
}

#[test]
fn resolver_follows_known_default() {
    let mut reg = EndpointRegistry::new();
    reg.insert(10);
    reg.insert(20);
    let r = resolve(10, None, &reg);
    assert_eq!(r, EffectiveRoute::FollowDefault { default_id: 10, position: Some(0) });
}

#[test]
fn resolver_reports_absent_ids_as_pending() {
    let mut reg = EndpointRegistry::new();
    reg.insert(10);
    // explicit target not yet enumerated
    let r = resolve(10, Some(77), &reg);
    assert_eq!(r, EffectiveRoute::Explicit { target: 77, position: None });
    // default not currently known
    let r = resolve(99, None, &reg);
    assert_eq!(r, EffectiveRoute::FollowDefault { default_id: 99, position: None });
}

#[test]
fn resolver_after_removal_of_effective_target() {
    let mut reg = EndpointRegistry::new();
    reg.insert(10);
    reg.insert(20);
    reg.remove(20);
    let r = resolve(10, Some(20), &reg);
    assert_eq!(r, EffectiveRoute::Explicit { target: 20, position: None });
    reg.insert(20);
    let r = resolve(10, Some(20), &reg);
    assert_eq!(r, EffectiveRoute::Explicit { target: 20, position: Some(1) });
}
