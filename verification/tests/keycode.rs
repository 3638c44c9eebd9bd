use polybius::keycode::qmk::{MO, OSL, TG, TO};
use polybius::keycode::{HidKeycode, KeyAction, Keycode, LayerAction, LayerKeycode, SystemKeycode};

#[test]
fn key_action_queries() {
    assert!(KeyAction::Pressed.is_pressed());
    assert!(!KeyAction::Pressed.is_released());
    assert!(KeyAction::Released.is_released());
    assert!(!KeyAction::Released.is_pressed());
}

#[test]
fn layer_keycode_round_trip() {
    let actions = [
        LayerAction::Momentary,
        LayerAction::Oneshot,
        LayerAction::Toggle,
        LayerAction::To,
    ];
    for action in actions {
        for layer in [0u8, 1, 5, 31] {
            let lk = LayerKeycode::new(action, layer);
            assert_eq!(lk.action(), action);
            assert_eq!(lk.layer(), layer);
        }
    }
}

#[test]
fn qmk_layer_constructors() {
    for layer in [0u8, 3, 31] {
        for (keycode, action) in [
            (MO(layer), LayerAction::Momentary),
            (OSL(layer), LayerAction::Oneshot),
            (TG(layer), LayerAction::Toggle),
            (TO(layer), LayerAction::To),
        ] {
            match keycode {
                Keycode::Layer(lk) => {
                    assert_eq!(lk.action(), action);
                    assert_eq!(lk.layer(), layer);
                },
                _ => panic!("expected a layer keycode"),
            }
        }
    }
}

#[test]
fn hid_usage_codes() {
    // Spot checks against the Keyboard/Keypad page of the HID usage tables.
    assert_eq!(HidKeycode::ErrorRollOver.code(), 0x01);
    assert_eq!(HidKeycode::A.code(), 0x04);
    assert_eq!(HidKeycode::Z.code(), 0x1d);
    assert_eq!(HidKeycode::Num1.code(), 0x1e);
    assert_eq!(HidKeycode::Num0.code(), 0x27);
    assert_eq!(HidKeycode::Space.code(), 0x2c);
    assert_eq!(HidKeycode::CapsLock.code(), 0x39);
    assert_eq!(HidKeycode::F12.code(), 0x45);
    assert_eq!(HidKeycode::ExSel.code(), 0xa4);
    // The table has a reserved gap before the extended keypad block.
    assert_eq!(HidKeycode::Keypad00.code(), 0xb0);
    assert_eq!(HidKeycode::KeypadHexadecimal.code(), 0xdd);
    // Another reserved gap before the modifiers.
    assert_eq!(HidKeycode::LeftControl.code(), 0xe0);
    assert_eq!(HidKeycode::LeftShift.code(), 0xe1);
    assert_eq!(HidKeycode::RightGui.code(), 0xe7);
}

#[test]
fn keycode_conversions() {
    assert_eq!(
        Keycode::from(HidKeycode::A),
        Keycode::Hid(HidKeycode::A)
    );
    assert_eq!(
        Keycode::from(SystemKeycode::Reset),
        Keycode::System(SystemKeycode::Reset)
    );
    let lk = LayerKeycode::new(LayerAction::Toggle, 2);
    assert_eq!(Keycode::from(lk), Keycode::Layer(lk));
}

#[test]
fn keycode_equality() {
    assert_eq!(Keycode::User(7), Keycode::User(7));
    assert_ne!(Keycode::User(7), Keycode::User(8));
    assert_ne!(
        Keycode::System(SystemKeycode::NoOp),
        Keycode::System(SystemKeycode::Transparent)
    );
}
