use multibody_scene::control::{Hysteresis, MotorCommand, Reading};

#[test]
fn below_the_band_switches_on() {
    let rule = Hysteresis { enable_below: -5000, disable_above: 0 };
    assert_eq!(rule.decide(Reading::exact(-5001)), MotorCommand::Enable);
    assert_eq!(rule.decide(Reading::exact(i64::MIN)), MotorCommand::Enable);
}

#[test]
fn above_the_band_switches_off() {
    let rule = Hysteresis { enable_below: -5000, disable_above: 0 };
    assert_eq!(rule.decide(Reading::exact(1)), MotorCommand::Disable);
    assert_eq!(rule.decide(Reading::exact(i64::MAX)), MotorCommand::Disable);
}

#[test]
fn inside_the_band_nothing_changes() {
    let rule = Hysteresis { enable_below: -5000, disable_above: 0 };
    assert_eq!(rule.decide(Reading::exact(-5000)), MotorCommand::Keep);
    assert_eq!(rule.decide(Reading::exact(-2500)), MotorCommand::Keep);
    assert_eq!(rule.decide(Reading::exact(0)), MotorCommand::Keep);
}

#[test]
fn lower_threshold_is_looked_at_first() {
    let rule = Hysteresis { enable_below: 10, disable_above: 0 };
    assert_eq!(rule.decide(Reading::exact(5)), MotorCommand::Enable);
    assert_eq!(rule.decide(Reading::exact(10)), MotorCommand::Disable);
}

#[test]
fn outcome_of_each_command() {
    assert!(MotorCommand::Enable.outcome(false));
    assert!(MotorCommand::Enable.outcome(true));
    assert!(!MotorCommand::Disable.outcome(false));
    assert!(!MotorCommand::Disable.outcome(true));
    assert!(MotorCommand::Keep.outcome(true));
    assert!(!MotorCommand::Keep.outcome(false));
}

#[test]
fn motor_follows_a_falling_and_rising_offset() {
    let rule = Hysteresis { enable_below: -10000, disable_above: -4000 };
    let readings = [-3000, -9000, -10001, -9000, -4000, -3999, -9000];
    let expected = [false, false, true, true, true, false, false];
    let mut enabled = false;
    for (reading, want) in readings.iter().zip(expected.iter()) {
        enabled = rule.decide(Reading::exact(*reading)).outcome(enabled);
        assert_eq!(enabled, *want);
    }
}

#[test]
fn reading_between_two_thousandths() {
    let rule = Hysteresis { enable_below: -5000, disable_above: 0 };
    // Just below the lower threshold: on.
    assert_eq!(rule.decide(Reading { floor: -5001, ceil: -5000 }), MotorCommand::Enable);
    // Just above the lower threshold: as it was.
    assert_eq!(rule.decide(Reading { floor: -5000, ceil: -4999 }), MotorCommand::Keep);
    // Just below the upper threshold: as it was.
    assert_eq!(rule.decide(Reading { floor: -1, ceil: 0 }), MotorCommand::Keep);
    // Just above the upper threshold: off.
    assert_eq!(rule.decide(Reading { floor: 0, ceil: 1 }), MotorCommand::Disable);
}

#[test]
fn exact_reading() {
    assert_eq!(Reading::exact(-7), Reading { floor: -7, ceil: -7 });
}
