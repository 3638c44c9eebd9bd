use polybius::backlight::{Backlight, NoBacklight};

struct FourLevels {
    level: u8,
}

impl Backlight for FourLevels {
    fn num_levels(&self) -> u8 {
        4
    }

    fn level(&self) -> u8 {
        self.level
    }

    fn set_level(&mut self, level: u8) {
        self.level = level.min(3);
    }
}

#[test]
fn backlight_cycling() {
    let mut backlight = FourLevels { level: 0 };
    let mut seen = Vec::new();
    for _ in 0..4 {
        backlight.cycle_step();
        seen.push(backlight.level());
    }
    // Four steps from level 0 walk through every level and back to 0.
    assert_eq!(seen, vec![1, 2, 3, 0]);
}

#[test]
fn set_level_clamps() {
    let mut backlight = FourLevels { level: 0 };
    backlight.set_level(10);
    assert_eq!(backlight.level(), 3);
}

#[test]
fn increase_stops_at_the_top() {
    let mut backlight = FourLevels { level: 2 };
    backlight.increase();
    assert_eq!(backlight.level(), 3);
    backlight.increase();
    assert_eq!(backlight.level(), 3);
}

#[test]
fn decrease_stops_at_zero() {
    let mut backlight = FourLevels { level: 1 };
    backlight.decrease();
    assert_eq!(backlight.level(), 0);
    backlight.decrease();
    assert_eq!(backlight.level(), 0);
}

#[test]
fn no_backlight_stays_dark() {
    let mut backlight = NoBacklight;
    assert_eq!(backlight.num_levels(), 1);
    assert_eq!(backlight.level(), 0);
    backlight.set_level(5);
    assert_eq!(backlight.level(), 0);
    backlight.increase();
    backlight.cycle_step();
    assert_eq!(backlight.level(), 0);
}
