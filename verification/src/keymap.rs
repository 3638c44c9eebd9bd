//! Mapping physical keys to keycodes.
//!
//! A keymap resolves a key position to the keycode it currently means, and
//! reacts to the layer-control keycodes that change what positions mean.

use vstd::prelude::*;
use crate::keycode::{KeyAction, Keycode, LayerAction, SystemKeycode};
use crate::system::{clear_keyboard_but_mods, RequestQueue, CLEAR_KEYBOARD_BUT_MODS, REQUEST_QUEUE_CAPACITY};

verus! {

/// Whether a layer is enabled in a 32-bit layer mask.
pub open spec fn layer_enabled(mask: u32, layer: u32) -> bool {
    mask & (1u32 << layer) != 0
}

/// How a key event changes a layer mask: momentary layers follow the key,
/// toggles flip on press, an exclusive switch replaces the whole mask on
/// press, and a one-shot layer is reserved and changes nothing.
pub open spec fn mask_after_key_event(mask: u32, keycode: Keycode, action: KeyAction) -> u32 {
    match keycode {
        Keycode::Layer(lk) => match lk.spec_action() {
            LayerAction::Momentary => if action is Pressed {
                mask | (1u32 << (lk.spec_layer() as u32))
            } else {
                mask & !(1u32 << (lk.spec_layer() as u32))
            },
            LayerAction::Oneshot => mask,
            LayerAction::Toggle => if action is Pressed {
                mask ^ (1u32 << (lk.spec_layer() as u32))
            } else {
                mask
            },
            LayerAction::To => if action is Pressed {
                1u32 << (lk.spec_layer() as u32)
            } else {
                mask
            },
        },
        _ => mask,
    }
}

/// Whether a key event asks the uplink's non-modifier keys to be cleared:
/// exactly the events that enable, disable or toggle a layer.
pub open spec fn key_event_raises_clear(keycode: Keycode, action: KeyAction) -> bool {
    keycode matches Keycode::Layer(lk) && match lk.spec_action() {
        LayerAction::Momentary => true,
        LayerAction::Oneshot => false,
        LayerAction::Toggle => action is Pressed,
        LayerAction::To => false,
    }
}

/// A keymap: what each position means right now, and how the meaning reacts
/// to dispatched key events.
/// Verified implementations override the spec observers with their real
/// state; the defaults describe an empty keymap that never reacts, so
/// implementations outside the proofs need only supply the executable
/// methods.
pub trait Keymap: Sized {
    /// The number of rows this keymap covers.
    open spec fn spec_rows(&self) -> int {
        0
    }

    /// The number of columns this keymap covers.
    open spec fn spec_cols(&self) -> int {
        0
    }

    /// Structural well-formedness.
    open spec fn wf(&self) -> bool {
        true
    }

    /// The keycode a position resolves to.
    open spec fn spec_get(&self, row: int, col: int) -> Keycode {
        Keycode::System(SystemKeycode::NoOp)
    }

    /// The keymap after reacting to one key event.
    open spec fn spec_key_event(&self, keycode: Keycode, action: KeyAction) -> Self {
        *self
    }

    /// Whether reacting to this event raises a request to clear the
    /// uplink's non-modifier keys; never, by default.
    open spec fn spec_raises_clear(&self, keycode: Keycode, action: KeyAction) -> bool {
        false
    }

    /// Law: reacting to a key event keeps the keymap well-formed and keeps
    /// its dimensions.
    proof fn key_event_preserves_wf(&self, keycode: Keycode, action: KeyAction)
        requires
            self.wf(),
        ensures
            self.spec_key_event(keycode, action).wf(),
            self.spec_key_event(keycode, action).spec_rows() == self.spec_rows(),
            self.spec_key_event(keycode, action).spec_cols() == self.spec_cols(),
    ;

    /// Resolves the keycode currently meant by the key at (row, col).
    fn get(&self, row: usize, col: usize) -> (r: Keycode)
        requires
            self.wf(),
            row < self.spec_rows(),
            col < self.spec_cols(),
        ensures
            r == self.spec_get(row as int, col as int),
    ;

    /// Reacts to a dispatched key event; an event that changes which layers
    /// are enabled raises a request to clear the uplink's non-modifier keys,
    /// dropped only when the queue is full.
    fn key_event(&mut self, keycode: Keycode, action: KeyAction, requests: &mut RequestQueue)
        requires
            old(self).wf(),
        ensures
            *final(self) == old(self).spec_key_event(keycode, action),
            final(requests).view() == if old(self).spec_raises_clear(keycode, action) && old(
                requests,
            ).view().len() < REQUEST_QUEUE_CAPACITY {
                old(requests).view().push(CLEAR_KEYBOARD_BUT_MODS)
            } else {
                old(requests).view()
            },
    ;
}

/// A single, fixed table of keycodes: every position always means its table
/// entry, and key events change nothing.
pub struct Simple {
    table: Vec<Vec<Keycode>>,
}

impl Simple {
    /// The table, row by row.
    pub closed spec fn spec_table(&self) -> Vec<Vec<Keycode>> {
        self.table
    }

    /// Wraps a rectangular table of keycodes.
    pub fn new(table: Vec<Vec<Keycode>>) -> (r: Self)
        requires
            forall|i: int|
                0 <= i < table@.len() ==> #[trigger] table@[i]@.len() == table@[0]@.len(),
        ensures
            r.wf(),
            r.spec_table() == table,
            r.spec_rows() == table@.len(),
            table@.len() > 0 ==> r.spec_cols() == table@[0]@.len(),
    {
        Simple { table }
    }
}

impl Keymap for Simple {
    open spec fn spec_rows(&self) -> int {
        self.spec_table()@.len() as int
    }

    open spec fn spec_cols(&self) -> int {
        if self.spec_table()@.len() == 0 {
            0
        } else {
            self.spec_table()@[0]@.len() as int
        }
    }

    open spec fn wf(&self) -> bool {
        forall|i: int|
            0 <= i < self.spec_table()@.len() ==> #[trigger] self.spec_table()@[i]@.len()
                == self.spec_cols()
    }

    open spec fn spec_get(&self, row: int, col: int) -> Keycode {
        self.spec_table()@[row]@[col]
    }

    open spec fn spec_key_event(&self, keycode: Keycode, action: KeyAction) -> Self {
        *self
    }

    proof fn key_event_preserves_wf(&self, keycode: Keycode, action: KeyAction) {
    }

    fn get(&self, row: usize, col: usize) -> (r: Keycode) {
        self.table[row][col]
    }

    fn key_event(&mut self, keycode: Keycode, action: KeyAction, requests: &mut RequestQueue) {
    }
}

/// What a stack of layers resolves to at (row, col), considering only the
/// layers below `top`: the entry of the highest enabled layer that is not
/// `Transparent`, or the no-op keycode when every layer falls through.
pub open spec fn resolve_above(
    layers: Seq<Vec<Vec<Keycode>>>,
    mask: u32,
    top: int,
    row: int,
    col: int,
) -> Keycode
    decreases top,
{
    if top <= 0 {
        Keycode::System(SystemKeycode::NoOp)
    } else if layer_enabled(mask, (top - 1) as u32) && layers[top - 1]@[row]@[col] != Keycode::System(
        SystemKeycode::Transparent,
    ) {
        layers[top - 1]@[row]@[col]
    } else {
        resolve_above(layers, mask, top - 1, row, col)
    }
}

/// A keymap of stacked layers selected by a 32-bit mask.
///
/// Resolution walks the enabled layers from the highest index down and
/// returns the first entry that is not `Transparent`; higher layers opaquely
/// override lower ones except where they explicitly fall through. Layer 0 is
/// enabled when the keymap is built.
pub struct Layered {
    layer_mask: u32,
    layers: Vec<Vec<Vec<Keycode>>>,
}

impl Layered {
    /// The enabled-layer mask, one bit per layer index.
    pub closed spec fn spec_mask(&self) -> u32 {
        self.layer_mask
    }

    /// The layer tables: `spec_layers()@[layer]@[row]@[col]` is an entry.
    pub closed spec fn spec_layers(&self) -> Vec<Vec<Vec<Keycode>>> {
        self.layers
    }

    /// Builds a layered keymap over the given tables, with only layer 0
    /// enabled.
    ///
    /// The stack holds at most 32 layers (one mask bit each), and every
    /// layer must have the same rectangular shape.
    pub fn new(layers: Vec<Vec<Vec<Keycode>>>) -> (r: Self)
        requires
            layers@.len() <= 32,
            forall|l: int|
                0 <= l < layers@.len() ==> #[trigger] layers@[l]@.len() == layers@[0]@.len(),
            forall|l: int, i: int|
                0 <= l < layers@.len() && 0 <= i < layers@[l]@.len()
                    ==> #[trigger] layers@[l]@[i]@.len() == layers@[0]@[0]@.len(),
        ensures
            r.wf(),
            r.spec_mask() == 1u32,
            r.spec_layers() == layers,
    {
        Layered { layer_mask: 1, layers }
    }

    /// Whether the given layer is enabled in the mask.
    pub fn is_layer_enabled(&self, layer: u8) -> (r: bool)
        requires
            layer < 32,
        ensures
            r == layer_enabled(self.spec_mask(), layer as u32),
    {
        (self.layer_mask & (1u32 << (layer as u32))) != 0
    }

    /// Enables the given layer, leaving every other layer alone.
    pub fn enable_layer(&mut self, layer: u8)
        requires
            layer < 32,
        ensures
            final(self).spec_mask() == old(self).spec_mask() | (1u32 << (layer as u32)),
            final(self).spec_layers() == old(self).spec_layers(),
    {
        self.layer_mask = self.layer_mask | (1u32 << (layer as u32));
    }

    /// Disables the given layer, leaving every other layer alone.
    pub fn disable_layer(&mut self, layer: u8)
        requires
            layer < 32,
        ensures
            final(self).spec_mask() == old(self).spec_mask() & !(1u32 << (layer as u32)),
            final(self).spec_layers() == old(self).spec_layers(),
    {
        self.layer_mask = self.layer_mask & !(1u32 << (layer as u32));
    }

    /// Flips whether the given layer is enabled, leaving every other layer
    /// alone.
    pub fn toggle_layer(&mut self, layer: u8)
        requires
            layer < 32,
        ensures
            final(self).spec_mask() == old(self).spec_mask() ^ (1u32 << (layer as u32)),
            final(self).spec_layers() == old(self).spec_layers(),
    {
        self.layer_mask = self.layer_mask ^ (1u32 << (layer as u32));
    }
}

impl Keymap for Layered {
    open spec fn spec_rows(&self) -> int {
        if self.spec_layers()@.len() == 0 {
            0
        } else {
            self.spec_layers()@[0]@.len() as int
        }
    }

    open spec fn spec_cols(&self) -> int {
        if self.spec_layers()@.len() == 0 || self.spec_layers()@[0]@.len() == 0 {
            0
        } else {
            self.spec_layers()@[0]@[0]@.len() as int
        }
    }

    open spec fn wf(&self) -> bool {
        &&& self.spec_layers()@.len() <= 32
        &&& forall|l: int|
            0 <= l < self.spec_layers()@.len() ==> #[trigger] self.spec_layers()@[l]@.len()
                == self.spec_rows()
        &&& forall|l: int, i: int|
            0 <= l < self.spec_layers()@.len() && 0 <= i < self.spec_layers()@[l]@.len()
                ==> #[trigger] self.spec_layers()@[l]@[i]@.len() == self.spec_cols()
    }

    open spec fn spec_get(&self, row: int, col: int) -> Keycode {
        resolve_above(
            self.spec_layers()@,
            self.spec_mask(),
            self.spec_layers()@.len() as int,
            row,
            col,
        )
    }

    closed spec fn spec_key_event(&self, keycode: Keycode, action: KeyAction) -> Self {
        Layered {
            layer_mask: mask_after_key_event(self.layer_mask, keycode, action),
            layers: self.layers,
        }
    }

    open spec fn spec_raises_clear(&self, keycode: Keycode, action: KeyAction) -> bool {
        key_event_raises_clear(keycode, action)
    }

    proof fn key_event_preserves_wf(&self, keycode: Keycode, action: KeyAction) {
    }

    #[verifier::loop_isolation(false)]
    fn get(&self, row: usize, col: usize) -> (r: Keycode) {
        let mut i: usize = self.layers.len();
        while i > 0
            invariant
                i <= self.layers@.len(),
                self.spec_get(row as int, col as int) == resolve_above(
                    self.layers@,
                    self.layer_mask,
                    i as int,
                    row as int,
                    col as int,
                ),
            decreases i,
        {
            i = i - 1;
            if self.is_layer_enabled(i as u8) {
                match self.layers[i][row][col] {
                    Keycode::System(SystemKeycode::Transparent) => {},
                    other => {
                        return other;
                    },
                }
            }
        }
        Keycode::System(SystemKeycode::NoOp)
    }

    fn key_event(&mut self, keycode: Keycode, action: KeyAction, requests: &mut RequestQueue) {
        match keycode {
            Keycode::Layer(layer_key) => {
                let layer = layer_key.layer();
                match layer_key.action() {
                    LayerAction::Momentary => {
                        if action.is_pressed() {
                            self.enable_layer(layer);
                        } else {
                            self.disable_layer(layer);
                        }
                        clear_keyboard_but_mods(requests);
                    },
                    LayerAction::Oneshot => {
                        // Reserved: no semantic is defined for one-shot
                        // layers yet, so the event deliberately changes
                        // nothing rather than half-behaving.
                    },
                    LayerAction::Toggle => {
                        if action.is_pressed() {
                            self.toggle_layer(layer);
                            clear_keyboard_but_mods(requests);
                        }
                    },
                    LayerAction::To => {
                        if action.is_pressed() {
                            self.layer_mask = 1u32 << (layer as u32);
                        }
                    },
                }
            },
            _ => {},
        }
    }
}

/// Law: reacting to a key event changes a layered keymap's mask exactly as
/// `mask_after_key_event` says and leaves its tables alone.
pub proof fn layered_key_event_effect(km: Layered, keycode: Keycode, action: KeyAction)
    ensures
        km.spec_key_event(keycode, action).spec_mask() == mask_after_key_event(
            km.spec_mask(),
            keycode,
            action,
        ),
        km.spec_key_event(keycode, action).spec_layers() == km.spec_layers(),
{
}

/// Law: a momentary layer keycode whose layer is disabled beforehand enables
/// exactly that layer while pressed and restores the original mask on
/// release.
pub proof fn momentary_round_trip(km: Layered, keycode: Keycode, layer: u8)
    requires
        keycode matches Keycode::Layer(lk) && lk.spec_action() == LayerAction::Momentary
            && lk.spec_layer() == layer,
        !layer_enabled(km.spec_mask(), layer as u32),
    ensures
        ({
            let held = km.spec_key_event(keycode, KeyAction::Pressed);
            let released = held.spec_key_event(keycode, KeyAction::Released);
            &&& layer_enabled(held.spec_mask(), layer as u32)
            &&& !layer_enabled(released.spec_mask(), layer as u32)
            &&& released.spec_mask() == km.spec_mask()
        }),
{
    let m = km.spec_mask();
    crate::keycode::layer_index_bounded(keycode->Layer_0);
    assert((m & (1u32 << (layer as u32)) == 0) ==> ((m | (1u32 << (layer as u32))) & (1u32 << (
    layer as u32)) != 0 && (m | (1u32 << (layer as u32))) & !(1u32 << (layer as u32)) == m && m & !(
    1u32 << (layer as u32)) == m)) by (bit_vector)
        requires
            layer < 32,
    ;
}

/// Law: two presses of a toggle layer keycode (with releases in between,
/// which toggles ignore) flip the layer bit twice and restore the original
/// mask.
pub proof fn toggle_double_press(km: Layered, keycode: Keycode, layer: u8)
    requires
        keycode matches Keycode::Layer(lk) && lk.spec_action() == LayerAction::Toggle
            && lk.spec_layer() == layer,
    ensures
        ({
            let once = km.spec_key_event(keycode, KeyAction::Pressed).spec_key_event(
                keycode,
                KeyAction::Released,
            );
            let twice = once.spec_key_event(keycode, KeyAction::Pressed).spec_key_event(
                keycode,
                KeyAction::Released,
            );
            &&& layer_enabled(once.spec_mask(), layer as u32) == !layer_enabled(
                km.spec_mask(),
                layer as u32,
            )
            &&& twice.spec_mask() == km.spec_mask()
        }),
{
    let m = km.spec_mask();
    crate::keycode::layer_index_bounded(keycode->Layer_0);
    assert((m ^ (1u32 << (layer as u32))) ^ (1u32 << (layer as u32)) == m) by (bit_vector);
    assert(((m ^ (1u32 << (layer as u32))) & (1u32 << (layer as u32)) != 0) == !(m & (1u32 << (
    layer as u32)) != 0)) by (bit_vector)
        requires
            layer < 32,
    ;
}

} // verus!
