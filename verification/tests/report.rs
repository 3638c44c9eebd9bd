use polybius::keycode::{HidKeycode, KeyAction, Keycode, LayerAction, LayerKeycode};
use polybius::uplink::HidReport;

fn slots(report: &HidReport) -> [u8; 6] {
    [
        report.slot(0),
        report.slot(1),
        report.slot(2),
        report.slot(3),
        report.slot(4),
        report.slot(5),
    ]
}

#[test]
fn new_report_is_empty() {
    let report = HidReport::new();
    assert_eq!(report.modifier(), 0);
    assert_eq!(slots(&report), [0, 0, 0, 0, 0, 0]);
}

#[test]
fn press_fills_first_free_slot() {
    let mut report = HidReport::new();
    assert!(report.key_event(Keycode::Hid(HidKeycode::A), KeyAction::Pressed));
    assert_eq!(slots(&report), [0x04, 0, 0, 0, 0, 0]);
    assert!(report.key_event(Keycode::Hid(HidKeycode::B), KeyAction::Pressed));
    assert_eq!(slots(&report), [0x04, 0x05, 0, 0, 0, 0]);
    assert_eq!(report.modifier(), 0);
}

#[test]
fn repeated_press_changes_nothing() {
    let mut report = HidReport::new();
    assert!(report.key_event(Keycode::Hid(HidKeycode::A), KeyAction::Pressed));
    assert!(!report.key_event(Keycode::Hid(HidKeycode::A), KeyAction::Pressed));
    assert_eq!(slots(&report), [0x04, 0, 0, 0, 0, 0]);
}

#[test]
fn release_compacts_slots() {
    let mut report = HidReport::new();
    report.key_event(Keycode::Hid(HidKeycode::A), KeyAction::Pressed);
    report.key_event(Keycode::Hid(HidKeycode::B), KeyAction::Pressed);
    report.key_event(Keycode::Hid(HidKeycode::C), KeyAction::Pressed);
    assert!(report.key_event(Keycode::Hid(HidKeycode::A), KeyAction::Released));
    // Later slots shift down one place; the last slot becomes free.
    assert_eq!(slots(&report), [0x05, 0x06, 0, 0, 0, 0]);
}

#[test]
fn release_of_unreported_key_changes_nothing() {
    let mut report = HidReport::new();
    report.key_event(Keycode::Hid(HidKeycode::A), KeyAction::Pressed);
    assert!(!report.key_event(Keycode::Hid(HidKeycode::B), KeyAction::Released));
    assert_eq!(slots(&report), [0x04, 0, 0, 0, 0, 0]);
}

#[test]
fn seventh_press_is_dropped() {
    let mut report = HidReport::new();
    let keys = [
        HidKeycode::A,
        HidKeycode::B,
        HidKeycode::C,
        HidKeycode::D,
        HidKeycode::E,
        HidKeycode::F,
    ];
    for key in keys {
        assert!(report.key_event(Keycode::Hid(key), KeyAction::Pressed));
    }
    assert!(!report.key_event(Keycode::Hid(HidKeycode::G), KeyAction::Pressed));
    assert_eq!(slots(&report), [0x04, 0x05, 0x06, 0x07, 0x08, 0x09]);
}

#[test]
fn modifiers_use_the_modifier_byte() {
    let mut report = HidReport::new();
    assert!(report.key_event(Keycode::Hid(HidKeycode::LeftControl), KeyAction::Pressed));
    assert_eq!(report.modifier(), 0b0000_0001);
    assert!(report.key_event(Keycode::Hid(HidKeycode::RightGui), KeyAction::Pressed));
    assert_eq!(report.modifier(), 0b1000_0001);
    assert_eq!(slots(&report), [0, 0, 0, 0, 0, 0]);
    assert!(report.key_event(Keycode::Hid(HidKeycode::LeftControl), KeyAction::Released));
    assert_eq!(report.modifier(), 0b1000_0000);
}

#[test]
fn non_hid_keycodes_leave_the_report_alone() {
    let mut report = HidReport::new();
    report.key_event(Keycode::Hid(HidKeycode::A), KeyAction::Pressed);
    let lk = LayerKeycode::new(LayerAction::Momentary, 1);
    assert!(!report.key_event(Keycode::Layer(lk), KeyAction::Pressed));
    assert!(!report.key_event(Keycode::User(9), KeyAction::Pressed));
    assert_eq!(slots(&report), [0x04, 0, 0, 0, 0, 0]);
}

#[test]
fn clear_keeps_modifiers() {
    let mut report = HidReport::new();
    report.key_event(Keycode::Hid(HidKeycode::LeftShift), KeyAction::Pressed);
    report.key_event(Keycode::Hid(HidKeycode::A), KeyAction::Pressed);
    report.key_event(Keycode::Hid(HidKeycode::B), KeyAction::Pressed);
    report.clear_keyboard_but_mods();
    assert_eq!(report.modifier(), 0b0000_0010);
    assert_eq!(slots(&report), [0, 0, 0, 0, 0, 0]);
}
