//! Constructors for layer keycodes, named as QMK/TMK name them.

#![allow(non_snake_case)]

use vstd::prelude::*;
use crate::keycode::{Keycode, LayerAction, LayerKeycode};

verus! {

/// A momentary layer switch: the layer is enabled while the key is held.
pub fn MO(layer: u8) -> (r: Keycode)
    requires
        layer < 32,
    ensures
        r matches Keycode::Layer(lk) && lk.spec_action() == LayerAction::Momentary
            && lk.spec_layer() == layer,
{
    Keycode::Layer(LayerKeycode::new(LayerAction::Momentary, layer))
}

/// A one-shot layer switch: reserved; the resolution engine treats it as a
/// no-op until a semantic is chosen.
pub fn OSL(layer: u8) -> (r: Keycode)
    requires
        layer < 32,
    ensures
        r matches Keycode::Layer(lk) && lk.spec_action() == LayerAction::Oneshot
            && lk.spec_layer() == layer,
{
    Keycode::Layer(LayerKeycode::new(LayerAction::Oneshot, layer))
}

/// A layer toggle: each press flips whether the layer is enabled.
pub fn TG(layer: u8) -> (r: Keycode)
    requires
        layer < 32,
    ensures
        r matches Keycode::Layer(lk) && lk.spec_action() == LayerAction::Toggle
            && lk.spec_layer() == layer,
{
    Keycode::Layer(LayerKeycode::new(LayerAction::Toggle, layer))
}

/// An exclusive layer switch: a press makes the layer the only enabled one.
pub fn TO(layer: u8) -> (r: Keycode)
    requires
        layer < 32,
    ensures
        r matches Keycode::Layer(lk) && lk.spec_action() == LayerAction::To && lk.spec_layer()
            == layer,
{
    Keycode::Layer(LayerKeycode::new(LayerAction::To, layer))
}

} // verus!
