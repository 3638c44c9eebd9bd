//! The uplink toward the host, and the boot-keyboard report it maintains.
//!
//! The transport itself (USB or anything else) lives outside this crate; what
//! lives here is the 8-byte boot-keyboard report state and the exact rules by
//! which key events edit it.

use vstd::prelude::*;
use crate::keycode::{KeyAction, Keycode};

verus! {

/// Transport for resolved key events toward the host.
///
/// Three ghost observers record what the transport has been handed: the key
/// events accepted, the clear-all-but-modifiers commands accepted, and how
/// often the transport itself has been driven. Verified implementations
/// override them with their real history; the defaults describe a transport
/// that has seen nothing, so implementations outside the proofs need only
/// supply the executable methods.
pub trait Uplink {
    type Error;

    /// Structural well-formedness of the transport state; unconstrained by
    /// default.
    open spec fn wf(&self) -> bool {
        true
    }

    /// The key events accepted for the host so far, oldest first.
    open spec fn spec_events(&self) -> Seq<(Keycode, KeyAction)> {
        Seq::empty()
    }

    /// How many clear-all-but-modifiers commands have been accepted.
    open spec fn spec_clears(&self) -> nat {
        0
    }

    /// How often the transport itself has been driven.
    open spec fn spec_polls(&self) -> nat {
        0
    }

    /// Drives the transport itself: drains host-bound traffic. Dispatches
    /// nothing.
    fn poll(&mut self) -> (r: Result<(), Self::Error>)
        requires
            old(self).wf(),
        ensures
            final(self).wf(),
            final(self).spec_events() == old(self).spec_events(),
            final(self).spec_clears() == old(self).spec_clears(),
            r is Ok ==> final(self).spec_polls() == old(self).spec_polls() + 1,
    ;

    /// Hands one resolved key transition to the host: accepted exactly when
    /// the call succeeds.
    fn key_event(&mut self, keycode: Keycode, action: KeyAction) -> (r: Result<
        (),
        Self::Error,
    >)
        requires
            old(self).wf(),
        ensures
            final(self).wf(),
            r is Ok ==> final(self).spec_events() == old(self).spec_events().push(
                (keycode, action),
            ),
            r is Err ==> final(self).spec_events() == old(self).spec_events(),
            final(self).spec_clears() == old(self).spec_clears(),
            final(self).spec_polls() == old(self).spec_polls(),
    ;

    /// Releases every reported key except the modifiers: accepted exactly
    /// when the call succeeds.
    fn clear_keyboard_but_mods(&mut self) -> (r: Result<(), Self::Error>)
        requires
            old(self).wf(),
        ensures
            final(self).wf(),
            final(self).spec_events() == old(self).spec_events(),
            r is Ok ==> final(self).spec_clears() == old(self).spec_clears() + 1,
            r is Err ==> final(self).spec_clears() == old(self).spec_clears(),
            final(self).spec_polls() == old(self).spec_polls(),
    ;
}

/// The number of keycode slots in a boot-keyboard report.
pub const REPORT_SLOTS: usize = 6;

/// Whether a usage code is one of the eight modifier keys, which travel as
/// bits of the report's modifier byte rather than in a slot.
pub open spec fn is_modifier_code(code: u8) -> bool {
    0xe0 <= code
}

/// The modifier byte after a key event: modifier usages set or clear their
/// bit (left control is bit 0, up through right GUI at bit 7); anything else
/// leaves the byte alone.
pub open spec fn modifier_after(modifier: u8, code: u8, action: KeyAction) -> u8 {
    if is_modifier_code(code) {
        if action is Pressed {
            modifier | (1u8 << ((code - 0xe0) as u32))
        } else {
            modifier & !(1u8 << ((code - 0xe0) as u32))
        }
    } else {
        modifier
    }
}

/// The first slot at or after `i` that already reports `code` or is free
/// (zero); the slot count if there is none.
pub open spec fn first_fit_from(slots: Seq<u8>, code: u8, i: int) -> int
    decreases slots.len() - i,
{
    if i < 0 || i >= slots.len() {
        slots.len() as int
    } else if slots[i] == code || slots[i] == 0 {
        i
    } else {
        first_fit_from(slots, code, i + 1)
    }
}

/// The first slot at or after `i` that reports `code`; the slot count if
/// there is none.
pub open spec fn first_match_from(slots: Seq<u8>, code: u8, i: int) -> int
    decreases slots.len() - i,
{
    if i < 0 || i >= slots.len() {
        slots.len() as int
    } else if slots[i] == code {
        i
    } else {
        first_match_from(slots, code, i + 1)
    }
}

/// Whether a non-modifier press edits the report (and so must be resent):
/// some slot is free before any slot already reports the code.
pub open spec fn press_changes(slots: Seq<u8>, code: u8) -> bool {
    let j = first_fit_from(slots, code, 0);
    j < slots.len() && slots[j] != code
}

/// Whether a non-modifier release edits the report (and so must be resent):
/// some slot reports the code.
pub open spec fn release_changes(slots: Seq<u8>, code: u8) -> bool {
    first_match_from(slots, code, 0) < slots.len()
}

/// The slots after a non-modifier press: the code fills the first free slot,
/// unless it is already reported or no slot is free, in which case nothing
/// changes.
pub open spec fn slots_after_press(slots: Seq<u8>, code: u8) -> Seq<u8> {
    let j = first_fit_from(slots, code, 0);
    if j == slots.len() || slots[j] == code {
        slots
    } else {
        slots.update(j, code)
    }
}

/// The slots after a non-modifier release: the first slot reporting the code
/// is removed, later slots shift down one place, and the last slot becomes
/// free; if the code is not reported, nothing changes.
pub open spec fn slots_after_release(slots: Seq<u8>, code: u8) -> Seq<u8> {
    let j = first_match_from(slots, code, 0);
    if j == slots.len() {
        slots
    } else {
        slots.subrange(0, j) + slots.subrange(j + 1, slots.len() as int) + seq![0u8]
    }
}

/// The state of an 8-byte boot-keyboard report: one modifier byte (the
/// reserved byte and LED byte are the transport's concern) and six keycode
/// slots, each holding a usage code or zero for free.
///
/// Pressing a non-modifier key fills the first free slot; releasing removes
/// it and shifts later slots down, so the report stays compacted:
/// first-in-first-filled, with no ordering promise beyond that.
pub struct HidReport {
    modifier: u8,
    keycodes: Vec<u8>,
}

impl HidReport {
    /// A report always has exactly six slots.
    #[verifier::type_invariant]
    spec fn inv(self) -> bool {
        self.keycodes@.len() == REPORT_SLOTS
    }

    /// The modifier byte.
    pub closed spec fn spec_modifier(&self) -> u8 {
        self.modifier
    }

    /// The six keycode slots.
    pub closed spec fn spec_slots(&self) -> Seq<u8> {
        self.keycodes@
    }

    /// An empty report: no modifiers, every slot free.
    pub fn new() -> (r: Self)
        ensures
            r.spec_modifier() == 0,
            r.spec_slots() == seq![0u8, 0u8, 0u8, 0u8, 0u8, 0u8],
    {
        let mut keycodes: Vec<u8> = Vec::new();
        keycodes.push(0);
        keycodes.push(0);
        keycodes.push(0);
        keycodes.push(0);
        keycodes.push(0);
        keycodes.push(0);
        proof {
            assert(keycodes@ =~= seq![0u8, 0u8, 0u8, 0u8, 0u8, 0u8]);
        }
        HidReport { modifier: 0, keycodes }
    }

    /// The modifier byte.
    pub fn modifier(&self) -> (r: u8)
        ensures
            r == self.spec_modifier(),
    {
        self.modifier
    }

    /// The keycode slot at `index`.
    pub fn slot(&self, index: usize) -> (r: u8)
        requires
            index < REPORT_SLOTS,
        ensures
            r == self.spec_slots()[index as int],
    {
        proof {
            use_type_invariant(self);
        }
        self.keycodes[index]
    }

    /// Edits the report for one key event.
    ///
    /// Only plain HID keycodes touch the report: modifier usages flip their
    /// bit of the modifier byte, other usages fill or vacate a slot. Layer,
    /// system and user keycodes mean nothing to the host and leave the
    /// report alone. Returns whether the report changed, so the transport
    /// knows to send it.
    pub fn key_event(&mut self, keycode: Keycode, action: KeyAction) -> (changed: bool)
        ensures
            ({
                let slots = old(self).spec_slots();
                match keycode {
                    Keycode::Hid(hid) => {
                        let code = hid.spec_code();
                        &&& final(self).spec_modifier() == modifier_after(
                            old(self).spec_modifier(),
                            code,
                            action,
                        )
                        &&& final(self).spec_slots() == if is_modifier_code(code) {
                            slots
                        } else if action is Pressed {
                            slots_after_press(slots, code)
                        } else {
                            slots_after_release(slots, code)
                        }
                        &&& changed == if is_modifier_code(code) {
                            true
                        } else if action is Pressed {
                            press_changes(slots, code)
                        } else {
                            release_changes(slots, code)
                        }
                    },
                    _ => {
                        &&& *final(self) == *old(self)
                        &&& changed == false
                    },
                }
            }),
    {
        proof {
            use_type_invariant(&*self);
        }
        let hid = match keycode {
            Keycode::Hid(hid) => hid,
            _ => {
                return false;
            },
        };
        let code = hid.code();
        if code >= 0xe0 {
            let bit = code - 0xe0;
            match action {
                KeyAction::Pressed => {
                    self.modifier = self.modifier | (1u8 << (bit as u32));
                },
                KeyAction::Released => {
                    self.modifier = self.modifier & !(1u8 << (bit as u32));
                },
            }
            true
        } else {
            match action {
                KeyAction::Pressed => self.press_slot(code),
                KeyAction::Released => self.release_slot(code),
            }
        }
    }

    /// Fills the first free slot with `code`, unless it is already reported
    /// or every slot is taken.
    #[verifier::loop_isolation(false)]
    fn press_slot(&mut self, code: u8) -> (changed: bool)
        requires
            !is_modifier_code(code),
        ensures
            final(self).spec_modifier() == old(self).spec_modifier(),
            final(self).spec_slots() == slots_after_press(old(self).spec_slots(), code),
            changed == press_changes(old(self).spec_slots(), code),
    {
        proof {
            use_type_invariant(&*self);
        }
        let ghost slots = self.keycodes@;
        let mut i: usize = 0;
        while i < REPORT_SLOTS
            invariant
                i <= REPORT_SLOTS,
                *self == *old(self),
                first_fit_from(slots, code, 0) == first_fit_from(slots, code, i as int),
            decreases REPORT_SLOTS - i,
        {
            if self.keycodes[i] == code {
                return false;
            }
            if self.keycodes[i] == 0 {
                self.keycodes[i] = code;
                proof {
                    assert(self.keycodes@ =~= slots_after_press(slots, code));
                }
                return true;
            }
            i = i + 1;
        }
        false
    }

    /// Vacates the first slot reporting `code`, shifting the later slots
    /// down and freeing the last one.
    #[verifier::loop_isolation(false)]
    fn release_slot(&mut self, code: u8) -> (changed: bool)
        requires
            !is_modifier_code(code),
        ensures
            final(self).spec_modifier() == old(self).spec_modifier(),
            final(self).spec_slots() == slots_after_release(old(self).spec_slots(), code),
            changed == release_changes(old(self).spec_slots(), code),
    {
        proof {
            use_type_invariant(&*self);
        }
        let ghost slots = self.keycodes@;
        let mut i: usize = 0;
        while i < REPORT_SLOTS
            invariant
                i <= REPORT_SLOTS,
                *self == *old(self),
                first_match_from(slots, code, 0) == first_match_from(slots, code, i as int),
            decreases REPORT_SLOTS - i,
        {
            if self.keycodes[i] == code {
                let mut j: usize = i + 1;
                while j < REPORT_SLOTS
                    invariant
                        i < j,
                        j <= REPORT_SLOTS,
                        self.keycodes@.len() == REPORT_SLOTS,
                        self.modifier == old(self).spec_modifier(),
                        forall|k: int| 0 <= k < i ==> self.keycodes@[k] == slots[k],
                        forall|k: int|
                            i <= k < j - 1 ==> self.keycodes@[k] == slots[k + 1],
                        forall|k: int|
                            j - 1 <= k < REPORT_SLOTS ==> self.keycodes@[k] == slots[k],
                    decreases REPORT_SLOTS - j,
                {
                    let moved = self.keycodes[j];
                    self.keycodes[j - 1] = moved;
                    j = j + 1;
                }
                self.keycodes[REPORT_SLOTS - 1] = 0;
                proof {
                    assert(first_match_from(slots, code, 0) == i);
                    assert(self.keycodes@ =~= slots.subrange(0, i as int) + slots.subrange(
                        i as int + 1,
                        slots.len() as int,
                    ) + seq![0u8]);
                }
                return true;
            }
            i = i + 1;
        }
        false
    }

    /// Frees every slot, keeping the modifier byte: the report the host sees
    /// after a layer change drops every non-modifier key.
    pub fn clear_keyboard_but_mods(&mut self)
        ensures
            final(self).spec_modifier() == old(self).spec_modifier(),
            final(self).spec_slots() == seq![0u8, 0u8, 0u8, 0u8, 0u8, 0u8],
    {
        proof {
            use_type_invariant(&*self);
        }
        let mut i: usize = 0;
        while i < REPORT_SLOTS
            invariant
                i <= REPORT_SLOTS,
                self.keycodes@.len() == REPORT_SLOTS,
                self.modifier == old(self).spec_modifier(),
                forall|k: int| 0 <= k < i ==> self.keycodes@[k] == 0u8,
            decreases REPORT_SLOTS - i,
        {
            self.keycodes[i] = 0;
            i = i + 1;
        }
        proof {
            assert(self.keycodes@ =~= seq![0u8, 0u8, 0u8, 0u8, 0u8, 0u8]);
        }
    }
}

} // verus!
