use polybius::backlight::Backlight;
use polybius::keycode::qmk::{MO, TG};
use polybius::keycode::{HidKeycode, KeyAction, Keycode, SystemKeycode};
use polybius::keymap::Layered;
use polybius::scanner::Scanner;
use polybius::system::{Error, System};
use polybius::uplink::Uplink;

const KC_A: Keycode = Keycode::Hid(HidKeycode::A);
const KC_B: Keycode = Keycode::Hid(HidKeycode::B);
const BL_STEP: Keycode = Keycode::System(SystemKeycode::BacklightStep);

/// A scanner that replays scripted frames instead of touching hardware.
struct ScriptedScanner {
    rows: usize,
    cols: usize,
    old_frame: Vec<Vec<bool>>,
    new_frame: Vec<Vec<bool>>,
    script: Vec<Vec<Vec<bool>>>,
    next: usize,
    fail: bool,
}

impl ScriptedScanner {
    fn new(rows: usize, cols: usize, script: Vec<Vec<Vec<bool>>>) -> Self {
        ScriptedScanner {
            rows,
            cols,
            old_frame: vec![vec![false; cols]; rows],
            new_frame: vec![vec![false; cols]; rows],
            script,
            next: 0,
            fail: false,
        }
    }

    fn failing(rows: usize, cols: usize) -> Self {
        let mut scanner = ScriptedScanner::new(rows, cols, Vec::new());
        scanner.fail = true;
        scanner
    }
}

impl Scanner for ScriptedScanner {
    type Error = ();

    fn rows(&self) -> usize {
        self.rows
    }

    fn cols(&self) -> usize {
        self.cols
    }

    fn poll(&mut self) -> Result<(), ()> {
        std::mem::swap(&mut self.old_frame, &mut self.new_frame);
        if self.fail {
            return Err(());
        }
        self.new_frame = if self.next < self.script.len() {
            self.script[self.next].clone()
        } else {
            vec![vec![false; self.cols]; self.rows]
        };
        self.next += 1;
        Ok(())
    }

    fn is_pressed(&self, row: usize, col: usize) -> bool {
        self.new_frame[row][col]
    }

    fn just_pressed(&self, row: usize, col: usize) -> bool {
        self.new_frame[row][col] && !self.old_frame[row][col]
    }

    fn just_released(&self, row: usize, col: usize) -> bool {
        !self.new_frame[row][col] && self.old_frame[row][col]
    }
}

/// An uplink that records everything it is asked to send.
struct RecordingUplink {
    events: Vec<(Keycode, KeyAction)>,
    clears: usize,
    polls: usize,
    fail_events: bool,
}

impl RecordingUplink {
    fn new() -> Self {
        RecordingUplink { events: Vec::new(), clears: 0, polls: 0, fail_events: false }
    }
}

impl Uplink for RecordingUplink {
    type Error = ();

    fn poll(&mut self) -> Result<(), ()> {
        self.polls += 1;
        Ok(())
    }

    fn key_event(&mut self, keycode: Keycode, action: KeyAction) -> Result<(), ()> {
        if self.fail_events {
            return Err(());
        }
        self.events.push((keycode, action));
        Ok(())
    }

    fn clear_keyboard_but_mods(&mut self) -> Result<(), ()> {
        self.clears += 1;
        Ok(())
    }
}

/// A four-level backlight held in plain state.
struct StepBacklight {
    level: u8,
}

impl Backlight for StepBacklight {
    fn num_levels(&self) -> u8 {
        4
    }

    fn level(&self) -> u8 {
        self.level
    }

    fn set_level(&mut self, level: u8) {
        self.level = level.min(3);
    }
}

fn single_key_system(
    keycode: Keycode,
    script: Vec<Vec<Vec<bool>>>,
) -> System<Layered, ScriptedScanner, RecordingUplink, StepBacklight> {
    let keymap = Layered::new(vec![vec![vec![keycode]]]);
    let scanner = ScriptedScanner::new(1, 1, script);
    System::new(keymap, scanner, RecordingUplink::new(), StepBacklight { level: 0 })
}

#[test]
fn basic_key_press_and_release() {
    // Raw scan bit over four ticks: up, down, held, up.
    let script = vec![
        vec![vec![false]],
        vec![vec![true]],
        vec![vec![true]],
        vec![vec![false]],
    ];
    let mut system = single_key_system(KC_A, script);

    system.poll().unwrap();
    assert_eq!(system.uplink().events, vec![]);

    system.poll().unwrap();
    assert_eq!(system.uplink().events, vec![(KC_A, KeyAction::Pressed)]);

    system.poll().unwrap();
    assert_eq!(system.uplink().events.len(), 1);

    system.poll().unwrap();
    assert_eq!(
        system.uplink().events,
        vec![(KC_A, KeyAction::Pressed), (KC_A, KeyAction::Released)]
    );
    assert_eq!(system.uplink().polls, 4);
}

#[test]
fn backlight_keycode_steps_the_backlight() {
    let script = vec![
        vec![vec![true]],
        vec![vec![false]],
        vec![vec![true]],
    ];
    let mut system = single_key_system(BL_STEP, script);
    system.poll().unwrap();
    assert_eq!(system.backlight().level(), 1);
    // The keycode is still forwarded to the uplink.
    assert_eq!(system.uplink().events, vec![(BL_STEP, KeyAction::Pressed)]);
    system.poll().unwrap();
    // Release does not step the backlight.
    assert_eq!(system.backlight().level(), 1);
    system.poll().unwrap();
    assert_eq!(system.backlight().level(), 2);
}

#[test]
fn layer_switch_clears_non_modifier_keys() {
    let script = vec![vec![vec![true]]];
    let mut system = single_key_system(TG(1), script);
    system.poll().unwrap();
    // The toggle raised a clear request and the same tick drained it.
    assert_eq!(system.uplink().clears, 1);
    assert!(system.keymap().is_layer_enabled(1));
}

#[test]
fn release_resolves_against_the_current_layer() {
    // Two positions: a momentary layer key and a letter key. Layer 1 remaps
    // the letter from A to B.
    let layers = vec![
        vec![vec![MO(1), KC_A]],
        vec![vec![MO(1), KC_B]],
    ];
    let keymap = Layered::new(layers);
    // Tick 1: the letter goes down. Tick 2: the layer key goes down too.
    // Tick 3: the letter comes up while the layer is held.
    let script = vec![
        vec![vec![false, true]],
        vec![vec![true, true]],
        vec![vec![true, false]],
    ];
    let scanner = ScriptedScanner::new(1, 2, script);
    let mut system = System::new(
        keymap,
        scanner,
        RecordingUplink::new(),
        StepBacklight { level: 0 },
    );
    system.poll().unwrap();
    system.poll().unwrap();
    system.poll().unwrap();
    // The release reports what the position means now (B on layer 1), not
    // what was pressed (A on layer 0): releases re-resolve at release time.
    assert_eq!(
        system.uplink().events,
        vec![
            (KC_A, KeyAction::Pressed),
            (MO(1), KeyAction::Pressed),
            (KC_B, KeyAction::Released),
        ]
    );
}

#[test]
fn scanner_failure_aborts_the_tick() {
    let keymap = Layered::new(vec![vec![vec![KC_A]]]);
    let mut system = System::new(
        keymap,
        ScriptedScanner::failing(1, 1),
        RecordingUplink::new(),
        StepBacklight { level: 0 },
    );
    let result = system.poll();
    assert!(matches!(result, Err(Error::Scanner(()))));
    // No events were dispatched for the failed tick.
    assert_eq!(system.uplink().events, vec![]);
    assert_eq!(system.uplink().polls, 0);
}

#[test]
fn uplink_failure_aborts_the_tick() {
    let keymap = Layered::new(vec![vec![vec![KC_A]]]);
    let mut uplink = RecordingUplink::new();
    uplink.fail_events = true;
    let mut system = System::new(
        keymap,
        ScriptedScanner::new(1, 1, vec![vec![vec![true]]]),
        uplink,
        StepBacklight { level: 0 },
    );
    let result = system.poll();
    assert!(matches!(result, Err(Error::Uplink(()))));
}
