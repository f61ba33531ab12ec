//! Tests for the dial state machine: single firing, reset, flashing.

use dials_research::dial::Dial;
use dials_research::path::DialSpeed;
use dials_research::range::DialRange;

#[test]
fn new_dial_starts_in_the_middle_wandering() {
    let dial = Dial::new("d1".to_owned(), DialRange::new(100, 300), DialSpeed::Medium);
    assert_eq!(dial.value(), 200);
    assert!(dial.is_wandering());
    assert!(!dial.alarm_fired());
    assert!(!dial.is_flashing());
    assert_eq!(dial.name(), "d1");
    assert_eq!(dial.in_range(), DialRange { start: 100, end: 300 });
}

#[test]
fn wandering_dial_never_fires() {
    let mut dial = Dial::new("d1".to_owned(), DialRange::new(100, 300), DialSpeed::Fast);
    for _ in 0..5000 {
        let fired = dial.update(2);
        assert!(!fired);
        assert!(dial.in_range().contains(dial.value()));
    }
}

#[test]
fn scheduled_dial_fires_exactly_once() {
    let mut dial = Dial::new("d1".to_owned(), DialRange::new(100, 300), DialSpeed::Medium);
    dial.reset(Some(5000));
    assert!(!dial.is_wandering());

    let mut fires: u32 = 0;
    let mut first_fire_tick: u32 = 0;
    for tick in 0..5000 {
        if dial.update(2) {
            fires += 1;
            first_fire_tick = tick;
        }
    }
    // Exactly one firing, at the scheduled five seconds; consuming each
    // finished segment costs one two-millisecond tick, so the firing may
    // lag the deadline by a few ticks but never precede it.
    assert_eq!(fires, 1);
    assert!(first_fire_tick >= 2499);
    assert!(first_fire_tick <= 2520);
    assert!(dial.alarm_fired());
    assert!(!dial.in_range().contains(dial.value()));

    // Once out, the needle stays out until a reset.
    for _ in 0..1000 {
        assert!(!dial.update(2));
        assert!(!dial.in_range().contains(dial.value()));
    }
}

#[test]
fn reset_clears_the_alarm_and_is_idempotent() {
    let mut dial = Dial::new("d1".to_owned(), DialRange::new(100, 300), DialSpeed::Medium);
    dial.reset(Some(1000));
    for _ in 0..1000 {
        dial.update(2);
    }
    assert!(dial.alarm_fired());

    dial.reset(None);
    let once_fired = dial.alarm_fired();
    let once_wandering = dial.is_wandering();
    dial.reset(None);
    // A second reset with the same argument leaves the dial in a state
    // indistinguishable from a single reset, up to the fresh random path.
    assert_eq!(dial.alarm_fired(), once_fired);
    assert_eq!(dial.is_wandering(), once_wandering);
    assert!(!dial.alarm_fired());
    assert!(dial.is_wandering());
    assert_eq!(dial.name(), "d1");
    assert_eq!(dial.in_range(), DialRange { start: 100, end: 300 });
}

#[test]
fn flash_runs_out() {
    let mut dial = Dial::new("d1".to_owned(), DialRange::new(100, 300), DialSpeed::Slow);
    assert!(!dial.is_flashing());
    dial.flash();
    assert!(dial.is_flashing());
    // The flash lasts half a second.
    dial.update(499);
    assert!(dial.is_flashing());
    dial.update(2);
    assert!(!dial.is_flashing());
}
