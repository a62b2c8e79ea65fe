use counter_tui::app::App;
use counter_tui::image_pane::TestImageWidget;
use counter_tui::input::{InputEvent, Key};

fn fresh_app() -> App {
    App::new(TestImageWidget::new(10, 5))
}

const VIEWPORT: usize = 8;

#[test]
fn new_app_is_running_and_unrotated() {
    let a = fresh_app();
    assert!(!a.exit);
    assert_eq!(a.rotation, 0);
    assert_eq!(a.counter.counter, 0);
    assert_eq!(a.description.vertical_scroll_state.vertical_scroll, 0);
}

#[test]
fn three_rights_then_five_lefts_land_on_zero() {
    let mut a = fresh_app();
    for _ in 0..3 {
        a.handle_event(InputEvent::KeyPress(Key::Right), VIEWPORT);
    }
    assert_eq!(a.counter.counter, 3);
    for _ in 0..5 {
        a.handle_event(InputEvent::KeyPress(Key::Left), VIEWPORT);
    }
    assert_eq!(a.counter.counter, 0);
}

#[test]
fn rotation_key_flips_and_flips_back() {
    let mut a = fresh_app();
    a.handle_event(InputEvent::KeyPress(Key::Char('r')), VIEWPORT);
    assert_eq!(a.rotation, 1);
    a.handle_event(InputEvent::KeyPress(Key::Char('r')), VIEWPORT);
    assert_eq!(a.rotation, 0);
}

#[test]
fn quit_key_asks_the_loop_to_stop() {
    let mut a = fresh_app();
    a.handle_event(InputEvent::KeyPress(Key::Right), VIEWPORT);
    a.handle_event(InputEvent::KeyPress(Key::Char('q')), VIEWPORT);
    assert!(a.exit);
    // Nothing else changes with the quit key.
    assert_eq!(a.counter.counter, 1);
    assert_eq!(a.rotation, 0);
}

#[test]
fn many_downs_never_push_the_offset_past_the_content() {
    let mut a = fresh_app();
    let lines = counter_tui::description::description_lines();
    a.description.vertical_scroll_state.set_content_length(&lines);
    for _ in 0..100 {
        a.handle_event(InputEvent::KeyPress(Key::Down), 4);
    }
    // max(0, 10 lines - 4 rows) = 6.
    assert_eq!(a.description.vertical_scroll_state.vertical_scroll, 6);
    a.handle_event(InputEvent::KeyPress(Key::Up), 4);
    assert_eq!(a.description.vertical_scroll_state.vertical_scroll, 5);
}

#[test]
fn unbound_keys_and_non_press_events_change_nothing() {
    let mut a = fresh_app();
    a.handle_event(InputEvent::KeyPress(Key::Right), VIEWPORT);
    let before = a;
    a.handle_event(InputEvent::KeyPress(Key::Char('z')), VIEWPORT);
    a.handle_event(InputEvent::KeyPress(Key::Other), VIEWPORT);
    a.handle_event(InputEvent::NonPress, VIEWPORT);
    assert_eq!(a, before);
}

#[test]
fn exit_and_rotate_methods_match_the_keys() {
    let mut a = fresh_app();
    a.rotate();
    assert_eq!(a.rotation, 1);
    a.rotate();
    assert_eq!(a.rotation, 0);
    a.exit();
    assert!(a.exit);
}

#[test]
fn event_loop_reaches_the_iteration_boundary_after_quit() {
    // The controller's loop runs: draw, read one event, dispatch; it stops
    // as soon as `exit` is set. Feed a scripted event stream and count the
    // iterations.
    let script = [
        InputEvent::KeyPress(Key::Right),
        InputEvent::KeyPress(Key::Char('q')),
        InputEvent::KeyPress(Key::Right),
    ];
    let mut a = fresh_app();
    let mut drawn: usize = 0;
    let mut next: usize = 0;
    while !a.exit {
        drawn += 1; // stands in for one full redraw
        a.handle_event(script[next], VIEWPORT);
        next += 1;
    }
    // The event after `q` is never read.
    assert_eq!(next, 2);
    assert_eq!(drawn, 2);
    assert_eq!(a.counter.counter, 1);
}
