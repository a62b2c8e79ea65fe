//! The application controller: all state, and the transition made for each
//! input event.
//!
//! The surrounding program runs the event loop: it draws the current state,
//! blocks for the next input event, translates it into an [`InputEvent`]
//! and hands it to [`App::handle_event`]; it keeps looping until `exit` is
//! set.

use vstd::prelude::*;
use crate::counter::CounterOp;
use crate::counter::CounterWidget;
use crate::counter::counter_step;
use crate::description::DescriptionWidget;
use crate::description::VerticalScrollbarState;
use crate::description::max_scroll;
use crate::description::scroll_down_spec;
use crate::description::scroll_up_spec;
use crate::image_pane::TestImageWidget;
use crate::input::InputEvent;
use crate::input::Key;

verus! {

/// All application state, owned by the controller.
#[derive(Clone, Copy, PartialEq, Eq, Structural, Debug)]
#[verifier::ext_equal]
pub struct App {
    /// Set by the quit key; the event loop stops at the next iteration
    /// boundary.
    pub exit: bool,
    /// Which half of the two-way split the side column occupies: 0 or 1.
    pub rotation: usize,
    pub counter: CounterWidget,
    pub description: DescriptionWidget,
    pub image: TestImageWidget,
}

/// The counter pane after one key.
pub open spec fn counter_for_key(c: CounterWidget, key: Key) -> CounterWidget {
    match key {
        Key::Left => CounterWidget { counter: counter_step(c.counter as int, CounterOp::Decrement) as u8 },
        Key::Right => CounterWidget { counter: counter_step(c.counter as int, CounterOp::Increment) as u8 },
        _ => c,
    }
}

/// The whole-application transition for one input event. Only key presses
/// change anything: `q` sets the exit flag, `r` toggles the rotation, the
/// up and down arrows scroll the description pane within a viewport of the
/// given height, and the remaining keys go to the counter.
pub open spec fn step(a: App, event: InputEvent, viewport: int) -> App {
    match event {
        InputEvent::KeyPress(key) => match key {
            Key::Char(c) => if c == 'q' {
                App { exit: true, ..a }
            } else if c == 'r' {
                App { rotation: (((a.rotation + 1) as int) % 2) as usize, ..a }
            } else {
                App { counter: counter_for_key(a.counter, key), ..a }
            },
            Key::Up => App {
                description: DescriptionWidget {
                    vertical_scroll_state: scroll_up_spec(
                        a.description.vertical_scroll_state,
                    ),
                },
                ..a
            },
            Key::Down => App {
                description: DescriptionWidget {
                    vertical_scroll_state: scroll_down_spec(
                        a.description.vertical_scroll_state,
                        viewport,
                    ),
                },
                ..a
            },
            _ => App { counter: counter_for_key(a.counter, key), ..a },
        },
        InputEvent::NonPress => a,
    }
}

impl App {
    /// The rotation parameter only ever takes the two values it cycles
    /// through.
    pub open spec fn wf(self) -> bool {
        self.rotation < 2
    }

    /// The initial state: not exiting, no rotation, counter at zero,
    /// description unscrolled.
    pub fn new(image: TestImageWidget) -> (a: App)
        ensures
            a.wf(),
            !a.exit,
            a.rotation == 0,
            a.counter.counter == 0,
            a.description.vertical_scroll_state.vertical_scroll == 0,
            a.description.vertical_scroll_state.content_length == 0,
            a.image == image,
    {
        App {
            exit: false,
            rotation: 0,
            counter: CounterWidget { counter: 0 },
            description: DescriptionWidget {
                vertical_scroll_state: VerticalScrollbarState {
                    vertical_scroll: 0,
                    content_length: 0,
                },
            },
            image,
        }
    }

    /// Ask the event loop to stop.
    pub fn exit(&mut self)
        ensures
            *final(self) == (App { exit: true, ..*old(self) }),
    {
        self.exit = true;
    }

    /// Toggle which pane occupies which half of the two-way split.
    pub fn rotate(&mut self)
        requires
            old(self).wf(),
        ensures
            final(self).wf(),
            *final(self) == (App {
                rotation: (((old(self).rotation + 1) as int) % 2) as usize,
                ..*old(self)
            }),
    {
        self.rotation = (self.rotation + 1) % 2;
    }

    /// Scroll the description pane one line up.
    pub fn scroll_up_description(&mut self)
        ensures
            *final(self) == (App {
                description: DescriptionWidget {
                    vertical_scroll_state: scroll_up_spec(
                        old(self).description.vertical_scroll_state,
                    ),
                },
                ..*old(self)
            }),
    {
        self.description.scroll_up();
    }

    /// Scroll the description pane one line down, clamped to its content.
    pub fn scroll_down_description(&mut self, viewport_height: usize)
        ensures
            *final(self) == (App {
                description: DescriptionWidget {
                    vertical_scroll_state: scroll_down_spec(
                        old(self).description.vertical_scroll_state,
                        viewport_height as int,
                    ),
                },
                ..*old(self)
            }),
    {
        self.description.scroll_down(viewport_height);
    }

    /// Make the transition for one input event; `viewport_height` is the
    /// height in rows of the description pane's text viewport, against
    /// which scrolling is clamped.
    pub fn handle_event(&mut self, event: InputEvent, viewport_height: usize)
        requires
            old(self).wf(),
        ensures
            final(self).wf(),
            *final(self) == step(*old(self), event, viewport_height as int),
    {
        match event {
            InputEvent::KeyPress(key) => match key {
                Key::Char(c) => {
                    if c == 'q' {
                        self.exit();
                    } else if c == 'r' {
                        self.rotate();
                    } else {
                        self.counter.handle_counter_change(key);
                        proof {
                            assert(*self =~= step(*old(self), event, viewport_height as int));
                        }
                    }
                },
                Key::Up => self.scroll_up_description(),
                Key::Down => self.scroll_down_description(viewport_height),
                _ => {
                    self.counter.handle_counter_change(key);
                    proof {
                        assert(*self =~= step(*old(self), event, viewport_height as int));
                    }
                },
            },
            InputEvent::NonPress => {},
        }
    }
}

/// Toggling the rotation is a 2-cycle: two presses of the rotation key
/// return the application, pane arrangement included, to exactly the state
/// it started from, whatever that state was.
pub proof fn lemma_rotate_twice_is_identity(a: App, event: InputEvent, viewport: int)
    requires
        a.wf(),
        event == InputEvent::KeyPress(Key::Char('r')),
    ensures
        step(step(a, event, viewport), event, viewport) == a,
{
    assert(step(step(a, event, viewport), event, viewport) =~= a);
}

/// However many times the description pane has been scrolled down, after
/// any scroll-down step its offset never exceeds
/// `max_scroll(content_length, viewport)`.
pub proof fn lemma_scroll_down_clamped(a: App, viewport: int)
    ensures
        step(
            a,
            InputEvent::KeyPress(Key::Down),
            viewport,
        ).description.vertical_scroll_state.vertical_scroll <= max_scroll(
            a.description.vertical_scroll_state.content_length as int,
            viewport,
        ),
{
}

} // verus!
