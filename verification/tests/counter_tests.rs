use counter_tui::counter::{u8_decimal, CounterWidget};
use counter_tui::input::Key;

#[test]
fn increment_from_zero() {
    let mut c = CounterWidget { counter: 0 };
    c.increment_counter();
    assert_eq!(c.counter, 1);
}

#[test]
fn decrement_at_zero_stays_at_zero() {
    let mut c = CounterWidget { counter: 0 };
    c.decrement_counter();
    assert_eq!(c.counter, 0);
}

#[test]
fn increment_at_max_stays_at_max() {
    let mut c = CounterWidget { counter: 255 };
    c.increment_counter();
    assert_eq!(c.counter, 255);
}

#[test]
fn long_mixed_sequence_never_wraps() {
    let mut c = CounterWidget { counter: 0 };
    for _ in 0..5 {
        c.decrement_counter();
    }
    assert_eq!(c.counter, 0);
    for _ in 0..300 {
        c.increment_counter();
    }
    assert_eq!(c.counter, 255);
    for _ in 0..300 {
        c.decrement_counter();
    }
    assert_eq!(c.counter, 0);
}

#[test]
fn left_and_right_keys_route_to_counter() {
    let mut c = CounterWidget { counter: 10 };
    c.handle_counter_change(Key::Right);
    assert_eq!(c.counter, 11);
    c.handle_counter_change(Key::Left);
    c.handle_counter_change(Key::Left);
    assert_eq!(c.counter, 9);
    c.handle_counter_change(Key::Up);
    c.handle_counter_change(Key::Char('x'));
    c.handle_counter_change(Key::Other);
    assert_eq!(c.counter, 9);
}

#[test]
fn decimal_digits_of_u8() {
    assert_eq!(u8_decimal(0), "0");
    assert_eq!(u8_decimal(7), "7");
    assert_eq!(u8_decimal(10), "10");
    assert_eq!(u8_decimal(99), "99");
    assert_eq!(u8_decimal(100), "100");
    assert_eq!(u8_decimal(207), "207");
    assert_eq!(u8_decimal(255), "255");
}

#[test]
fn value_label_shows_the_counter() {
    let c = CounterWidget { counter: 0 };
    assert_eq!(c.value_label(), "Value: 0");
    let c = CounterWidget { counter: 42 };
    assert_eq!(c.value_label(), "Value: 42");
    let c = CounterWidget { counter: 255 };
    assert_eq!(c.value_label(), "Value: 255");
}
