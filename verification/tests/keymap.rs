use polybius::keycode::qmk::{MO, OSL, TG, TO};
use polybius::keycode::{HidKeycode, KeyAction, Keycode, SystemKeycode};
use polybius::keymap::{Keymap, Layered, Simple};
use polybius::system::{RequestQueue, CLEAR_KEYBOARD_BUT_MODS};

const KC_A: Keycode = Keycode::Hid(HidKeycode::A);
const KC_B: Keycode = Keycode::Hid(HidKeycode::B);
const KC_TRNS: Keycode = Keycode::System(SystemKeycode::Transparent);
const KC_NO: Keycode = Keycode::System(SystemKeycode::NoOp);

fn one_key_layers(entries: &[Keycode]) -> Vec<Vec<Vec<Keycode>>> {
    entries.iter().map(|kc| vec![vec![*kc]]).collect()
}

#[test]
fn simple_lookup() {
    let table = vec![vec![KC_A, KC_B], vec![KC_B, KC_A]];
    let keymap = Simple::new(table);
    assert_eq!(keymap.get(0, 0), KC_A);
    assert_eq!(keymap.get(0, 1), KC_B);
    assert_eq!(keymap.get(1, 0), KC_B);
    assert_eq!(keymap.get(1, 1), KC_A);
}

#[test]
fn simple_ignores_key_events() {
    let mut keymap = Simple::new(vec![vec![KC_A]]);
    let mut requests = RequestQueue::new();
    keymap.key_event(TG(1), KeyAction::Pressed, &mut requests);
    assert_eq!(keymap.get(0, 0), KC_A);
    assert_eq!(requests.try_recv(), None);
}

#[test]
fn layer_priority() {
    // Layer 2 is transparent at the key, layer 1 says A, layer 0 says B.
    let mut keymap = Layered::new(one_key_layers(&[KC_B, KC_A, KC_TRNS]));
    keymap.enable_layer(1);
    keymap.enable_layer(2);
    // The highest enabled non-transparent entry wins.
    assert_eq!(keymap.get(0, 0), KC_A);
    keymap.disable_layer(1);
    keymap.disable_layer(2);
    // With only layer 0 enabled, its entry wins.
    assert_eq!(keymap.get(0, 0), KC_B);
}

#[test]
fn all_transparent_resolves_to_noop() {
    let mut keymap = Layered::new(one_key_layers(&[KC_TRNS, KC_TRNS]));
    keymap.enable_layer(1);
    assert_eq!(keymap.get(0, 0), KC_NO);
}

#[test]
fn disabled_layers_are_skipped() {
    let keymap = Layered::new(one_key_layers(&[KC_B, KC_A]));
    // Layer 1 holds A but is disabled.
    assert_eq!(keymap.get(0, 0), KC_B);
}

#[test]
fn momentary_round_trip() {
    let mut keymap = Layered::new(one_key_layers(&[KC_B, KC_A, KC_A, KC_A]));
    let mut requests = RequestQueue::new();
    assert!(!keymap.is_layer_enabled(3));
    keymap.key_event(MO(3), KeyAction::Pressed, &mut requests);
    assert!(keymap.is_layer_enabled(3));
    keymap.key_event(MO(3), KeyAction::Released, &mut requests);
    assert!(!keymap.is_layer_enabled(3));
    assert!(keymap.is_layer_enabled(0));
}

#[test]
fn toggle_double_press() {
    let mut keymap = Layered::new(one_key_layers(&[KC_B, KC_A, KC_A]));
    let mut requests = RequestQueue::new();
    assert!(!keymap.is_layer_enabled(2));
    keymap.key_event(TG(2), KeyAction::Pressed, &mut requests);
    keymap.key_event(TG(2), KeyAction::Released, &mut requests);
    assert!(keymap.is_layer_enabled(2));
    keymap.key_event(TG(2), KeyAction::Pressed, &mut requests);
    keymap.key_event(TG(2), KeyAction::Released, &mut requests);
    assert!(!keymap.is_layer_enabled(2));
}

#[test]
fn switch_to_is_exclusive() {
    let mut keymap = Layered::new(one_key_layers(&[KC_B, KC_A, KC_A]));
    let mut requests = RequestQueue::new();
    assert!(keymap.is_layer_enabled(0));
    keymap.key_event(TO(2), KeyAction::Pressed, &mut requests);
    // The mask is exactly layer 2: layer 0 was disabled as a side effect.
    assert!(keymap.is_layer_enabled(2));
    assert!(!keymap.is_layer_enabled(0));
    assert!(!keymap.is_layer_enabled(1));
    // Release is a no-op for an exclusive switch.
    keymap.key_event(TO(2), KeyAction::Released, &mut requests);
    assert!(keymap.is_layer_enabled(2));
    assert!(!keymap.is_layer_enabled(0));
}

#[test]
fn oneshot_is_reserved() {
    let mut keymap = Layered::new(one_key_layers(&[KC_B, KC_A]));
    let mut requests = RequestQueue::new();
    keymap.key_event(OSL(1), KeyAction::Pressed, &mut requests);
    assert!(!keymap.is_layer_enabled(1));
    assert_eq!(requests.try_recv(), None);
}

#[test]
fn layer_changes_raise_clear_requests() {
    let mut keymap = Layered::new(one_key_layers(&[KC_B, KC_A, KC_A, KC_A]));
    let mut requests = RequestQueue::new();
    assert_eq!(requests.try_recv(), None);
    keymap.key_event(MO(1), KeyAction::Pressed, &mut requests);
    assert_eq!(requests.try_recv(), Some(CLEAR_KEYBOARD_BUT_MODS));
    assert_eq!(requests.try_recv(), None);
    keymap.key_event(MO(1), KeyAction::Released, &mut requests);
    assert_eq!(requests.try_recv(), Some(CLEAR_KEYBOARD_BUT_MODS));
    keymap.key_event(TG(2), KeyAction::Pressed, &mut requests);
    assert_eq!(requests.try_recv(), Some(CLEAR_KEYBOARD_BUT_MODS));
    // An exclusive switch does not raise a request.
    keymap.key_event(TO(2), KeyAction::Pressed, &mut requests);
    assert_eq!(requests.try_recv(), None);
}

#[test]
fn non_layer_keycodes_do_nothing() {
    let mut keymap = Layered::new(one_key_layers(&[KC_B, KC_A]));
    let mut requests = RequestQueue::new();
    keymap.key_event(KC_A, KeyAction::Pressed, &mut requests);
    keymap.key_event(Keycode::User(3), KeyAction::Pressed, &mut requests);
    assert!(keymap.is_layer_enabled(0));
    assert!(!keymap.is_layer_enabled(1));
    assert_eq!(requests.try_recv(), None);
}

#[test]
fn highest_layer_toggle() {
    let mut keymap = Layered::new(one_key_layers(&[KC_B]));
    let mut requests = RequestQueue::new();
    // Layer 31 is the highest index the mask can hold; it has no table
    // entry here, so resolution still falls back to layer 0.
    keymap.key_event(TG(31), KeyAction::Pressed, &mut requests);
    assert!(keymap.is_layer_enabled(31));
    assert_eq!(keymap.get(0, 0), KC_B);
}
