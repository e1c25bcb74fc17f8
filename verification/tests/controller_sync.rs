//! End-to-end scenarios through the selector synchronization controller.

use routesync::controller::{
    direction_label, request_value, Direction, OutboundRequest, Selector, SelectorSyncController,
};
use routesync::overrides::RoutingOverrideStore;
use routesync::registry::EndpointRegistry;
use routesync::toggle::{DefaultToggleSync, ToggleState};
use routesync::tracker::DefaultEndpointTracker;

fn two_endpoint_setup() -> (EndpointRegistry, DefaultEndpointTracker, RoutingOverrideStore) {
    let mut reg = EndpointRegistry::new();
    reg.insert(10); // endpoint A
    reg.insert(20); // endpoint B
    let mut tracker = DefaultEndpointTracker::new();
    tracker.on_changed(10);
    let store = RoutingOverrideStore::new(33);
    (reg, tracker, store)
}

#[test]
fn end_to_end_output_routing() {
    let (reg, tracker, store) = two_endpoint_setup();
    let mut ctl = SelectorSyncController::new(33, Direction::Output);
    let mut sel = Selector::new();

    // follow-default maps to the synthetic "Default" entry at index 0
    let echo = ctl.handle_upstream_event(&tracker, &store, &reg, &mut sel);
    assert_eq!(echo, None);
    assert_eq!(sel.selected(), 0);

    // the user picks index 2: registry position 1, endpoint B = 20
    let request = ctl.on_selection_changed(2, &reg);
    let request = request.expect("a request is owed for a valid choice");
    assert_eq!(
        request,
        OutboundRequest { subject_id: 33, direction: Direction::Output, target: Some(20) }
    );
    assert_eq!(direction_label(request.direction), "output");
    assert_eq!(request_value(&request).as_deref(), Some("20"));
}

#[test]
fn sync_emits_no_request() {
    let (mut reg, mut tracker, mut store) = two_endpoint_setup();
    let mut ctl = SelectorSyncController::new(33, Direction::Output);
    let mut sel = Selector::new();
    assert_eq!(ctl.handle_upstream_event(&tracker, &store, &reg, &mut sel), None);
    store.on_metadata_changed(33, "target.node", Some("20"));
    assert_eq!(ctl.handle_upstream_event(&tracker, &store, &reg, &mut sel), None);
    tracker.on_changed(20);
    assert_eq!(ctl.handle_upstream_event(&tracker, &store, &reg, &mut sel), None);
    reg.remove(10);
    assert_eq!(ctl.handle_upstream_event(&tracker, &store, &reg, &mut sel), None);
}

#[test]
fn duplicate_notification_is_idempotent() {
    let (reg, mut tracker, store) = two_endpoint_setup();
    let mut ctl = SelectorSyncController::new(33, Direction::Output);
    let mut sel = Selector::new();

    tracker.on_changed(10);
    let echo = ctl.handle_upstream_event(&tracker, &store, &reg, &mut sel);
    assert_eq!(echo, None);
    let first = sel.selected();

    // the same value delivered again: no visible change, no request
    tracker.on_changed(10);
    let echo = ctl.handle_upstream_event(&tracker, &store, &reg, &mut sel);
    assert_eq!(echo, None);
    assert_eq!(sel.selected(), first);
}

#[test]
fn unset_default_shows_default_entry() {
    let reg = EndpointRegistry::new();
    let tracker = DefaultEndpointTracker::new();
    let store = RoutingOverrideStore::new(33);
    let mut ctl = SelectorSyncController::new(33, Direction::Output);
    let mut sel = Selector::new();
    let echo = ctl.handle_upstream_event(&tracker, &store, &reg, &mut sel);
    assert_eq!(echo, None);
    assert_eq!(sel.selected(), 0);
}

#[test]
fn override_moves_selector_and_clearing_reverts_it() {
    let (reg, tracker, mut store) = two_endpoint_setup();
    let mut ctl = SelectorSyncController::new(33, Direction::Output);
    let mut sel = Selector::new();

    // override set to B (=20): selector shows position 1 + 1 = 2
    store.on_metadata_changed(33, "target.node", Some("20"));
    ctl.handle_upstream_event(&tracker, &store, &reg, &mut sel);
    assert_eq!(sel.selected(), 2);

    // the override is withdrawn: back to follow-default, index 0
    store.on_metadata_changed(33, "target.node", None);
    assert_eq!(store.current(), None);
    ctl.handle_upstream_event(&tracker, &store, &reg, &mut sel);
    assert_eq!(sel.selected(), 0);
}

#[test]
fn pending_explicit_target_keeps_selection() {
    let (mut reg, tracker, mut store) = two_endpoint_setup();
    let mut ctl = SelectorSyncController::new(33, Direction::Output);
    let mut sel = Selector::new();

    store.on_metadata_changed(33, "target.node", Some("20"));
    ctl.handle_upstream_event(&tracker, &store, &reg, &mut sel);
    assert_eq!(sel.selected(), 2);

    // the effective target disappears: the choice stays visible as pending
    reg.remove(20);
    ctl.handle_upstream_event(&tracker, &store, &reg, &mut sel);
    assert_eq!(sel.selected(), 2);

    // it re-appears (now at the end): the selector follows its new position
    reg.insert(20);
    ctl.handle_upstream_event(&tracker, &store, &reg, &mut sel);
    assert_eq!(sel.selected(), 2);
}

#[test]
fn user_choice_of_default_entry_clears_override() {
    let (reg, _tracker, _store) = two_endpoint_setup();
    let ctl = SelectorSyncController::new(33, Direction::Output);
    let request = ctl.on_selection_changed(0, &reg);
    let request = request.expect("a clear request is owed for index 0");
    assert_eq!(
        request,
        OutboundRequest { subject_id: 33, direction: Direction::Output, target: None }
    );
    assert_eq!(request_value(&request), None);
}

#[test]
fn user_choice_beyond_registry_asks_nothing() {
    let (reg, _tracker, _store) = two_endpoint_setup();
    let ctl = SelectorSyncController::new(33, Direction::Output);
    assert_eq!(ctl.on_selection_changed(5, &reg), None);
}

#[test]
fn input_direction_label() {
    assert_eq!(direction_label(Direction::Input), "input");
}

#[test]
fn default_toggle_follows_default() {
    let mut tracker = DefaultEndpointTracker::new();
    let mut sync = DefaultToggleSync::new(10);
    let mut toggle = ToggleState::new();

    tracker.on_changed(10);
    let emit = sync.on_default_changed(&tracker, &mut toggle);
    assert!(!emit, "a programmatic toggle write may not ask for a request");
    assert!(toggle.active());

    tracker.on_changed(20);
    let emit = sync.on_default_changed(&tracker, &mut toggle);
    assert!(!emit);
    assert!(!toggle.active());
}

#[test]
fn user_toggle_asks_for_default_change() {
    let sync = DefaultToggleSync::new(10);
    assert!(sync.on_toggled());
}
