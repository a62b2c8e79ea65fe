//! The description pane: static text behind a clamped scroll offset and a
//! vertical scrollbar.

use vstd::prelude::*;
use vstd::string::StringExecFns;

verus! {

/// The largest admissible scroll offset: with `content` lines in a viewport
/// of `viewport` rows, the first visible line can be at most
/// `content - viewport`, and 0 when everything fits.
pub open spec fn max_scroll(content: int, viewport: int) -> int {
    if content > viewport {
        content - viewport
    } else {
        0
    }
}

/// Scroll position of the description pane, together with the content
/// length that the scrollbar is sized against. The scrollbar thumb sits at
/// `vertical_scroll`.
#[derive(Default, Clone, Copy, PartialEq, Eq, Structural, Debug)]
#[verifier::ext_equal]
pub struct VerticalScrollbarState {
    pub vertical_scroll: usize,
    pub content_length: usize,
}

/// The state after one step down: the offset grows by one but never past
/// `max_scroll`; an offset already beyond that bound (after the viewport
/// grew) is pulled back onto it.
pub open spec fn scroll_down_spec(st: VerticalScrollbarState, viewport: int) -> VerticalScrollbarState {
    VerticalScrollbarState {
        vertical_scroll: (if st.vertical_scroll + 1 <= max_scroll(
            st.content_length as int,
            viewport,
        ) {
            st.vertical_scroll + 1
        } else {
            max_scroll(st.content_length as int, viewport)
        }) as usize,
        content_length: st.content_length,
    }
}

/// The state after one step up: the offset shrinks by one, stopping at 0.
pub open spec fn scroll_up_spec(st: VerticalScrollbarState) -> VerticalScrollbarState {
    VerticalScrollbarState {
        vertical_scroll: (if st.vertical_scroll == 0 {
            0int
        } else {
            st.vertical_scroll - 1
        }) as usize,
        content_length: st.content_length,
    }
}

impl VerticalScrollbarState {
    /// Scroll one line down, never past the last viewport-full of content.
    pub fn increase(&mut self, viewport_height: usize)
        ensures
            *final(self) == scroll_down_spec(*old(self), viewport_height as int),
            final(self).vertical_scroll <= max_scroll(
                old(self).content_length as int,
                viewport_height as int,
            ),
    {
        let bound: usize = if self.content_length > viewport_height {
            self.content_length - viewport_height
        } else {
            0
        };
        if self.vertical_scroll < bound {
            self.vertical_scroll = self.vertical_scroll + 1;
        } else {
            self.vertical_scroll = bound;
        }
    }

    /// Scroll one line up, stopping at the top.
    pub fn decrease(&mut self)
        ensures
            *final(self) == scroll_up_spec(*old(self)),
    {
        if self.vertical_scroll > 0 {
            self.vertical_scroll = self.vertical_scroll - 1;
        }
    }

    /// Record how many lines of content the scrollbar ranges over.
    pub fn set_content_length(&mut self, lines: &Vec<String>)
        ensures
            final(self).content_length == lines@.len(),
            final(self).vertical_scroll == old(self).vertical_scroll,
    {
        self.content_length = lines.len();
    }
}

/// The description pane state.
#[derive(Default, Clone, Copy, PartialEq, Eq, Structural, Debug)]
#[verifier::ext_equal]
pub struct DescriptionWidget {
    pub vertical_scroll_state: VerticalScrollbarState,
}

impl DescriptionWidget {
    /// Scroll one line up.
    pub fn scroll_up(&mut self)
        ensures
            final(self).vertical_scroll_state == scroll_up_spec(old(self).vertical_scroll_state),
    {
        self.vertical_scroll_state.decrease();
    }

    /// Scroll one line down, clamped to the content.
    pub fn scroll_down(&mut self, viewport_height: usize)
        ensures
            final(self).vertical_scroll_state == scroll_down_spec(
                old(self).vertical_scroll_state,
                viewport_height as int,
            ),
            final(self).vertical_scroll_state.vertical_scroll <= max_scroll(
                old(self).vertical_scroll_state.content_length as int,
                viewport_height as int,
            ),
    {
        self.vertical_scroll_state.increase(viewport_height);
    }
}

/// The static text of the description pane. Styling is applied outside the
/// library; the two masked segments appear here as the asterisks they are
/// displayed as.
pub fn description_lines() -> (lines: Vec<String>)
    ensures
        lines@.len() == 10,
        lines@[0]@ == "Lorem ipsum dolor sit amet, consectetur adipiscing elit."@,
        lines@[1]@ == "Sed do eiusmod tempor incididunt ut labore et dolore magna aliqua."@,
        lines@[2]@ == "Ut enim ad minim veniam, quis nostrud exercitation ullamco laboris."@,
        lines@[3]@ == "Nisi ut aliquip ex ea commodo consequat."@,
        lines@[4]@
            == "Duis aute irure dolor in reprehenderit in voluptate velit esse cillum dolore eu fugiat nulla pariatur."@,
        lines@[5]@ == "Masked lorem: **************"@,
        lines@[6]@ == "Excepteur sint occaecat cupidatat non proident."@,
        lines@[7]@ == "Sunt in culpa qui officia deserunt mollit anim id est laborum."@,
        lines@[8]@ == "Curabitur pretium tincidunt lacus. Nulla gravida orci a odio."@,
        lines@[9]@ == "Masked secret: **********"@,
{
    let mut lines: Vec<String> = Vec::new();
    lines.push(String::from_str("Lorem ipsum dolor sit amet, consectetur adipiscing elit."));
    lines.push(
        String::from_str("Sed do eiusmod tempor incididunt ut labore et dolore magna aliqua."),
    );
    lines.push(
        String::from_str("Ut enim ad minim veniam, quis nostrud exercitation ullamco laboris."),
    );
    lines.push(String::from_str("Nisi ut aliquip ex ea commodo consequat."));
    lines.push(
        String::from_str(
            "Duis aute irure dolor in reprehenderit in voluptate velit esse cillum dolore eu fugiat nulla pariatur.",
        ),
    );
    lines.push(String::from_str("Masked lorem: **************"));
    lines.push(String::from_str("Excepteur sint occaecat cupidatat non proident."));
    lines.push(String::from_str("Sunt in culpa qui officia deserunt mollit anim id est laborum."));
    lines.push(
        String::from_str("Curabitur pretium tincidunt lacus. Nulla gravida orci a odio."),
    );
    lines.push(String::from_str("Masked secret: **********"));
    lines
}

/// Where the visible window of `lines` starts for a wanted scroll offset:
/// the offset itself, held back to the end of the content.
pub open spec fn window_start(offset: int, len: int) -> int {
    if offset <= len {
        offset
    } else {
        len
    }
}

/// Where the visible window ends: `viewport` lines past the start, held
/// back to the end of the content.
pub open spec fn window_end(offset: int, viewport: int, len: int) -> int {
    if window_start(offset, len) + viewport <= len {
        window_start(offset, len) + viewport
    } else {
        len
    }
}

/// The lines actually shown: the window of `viewport_height` lines whose
/// first visible line is `offset`, cut off at the content's end.
pub fn visible_lines(lines: &Vec<String>, offset: usize, viewport_height: usize) -> (shown: Vec<
    String,
>)
    ensures
        shown@.len() == window_end(offset as int, viewport_height as int, lines@.len() as int)
            - window_start(offset as int, lines@.len() as int),
        forall|i: int|
            0 <= i < shown@.len() ==> shown@[i]@ == lines@[window_start(
                offset as int,
                lines@.len() as int,
            ) + i]@,
{
    let len = lines.len();
    let start: usize = if offset <= len {
        offset
    } else {
        len
    };
    let remaining: usize = len - start;
    let take: usize = if viewport_height <= remaining {
        viewport_height
    } else {
        remaining
    };
    let mut shown: Vec<String> = Vec::new();
    let mut i: usize = 0;
    while i < take
        invariant
            len == lines@.len(),
            start + take <= len,
            i <= take,
            shown@.len() == i,
            forall|j: int| 0 <= j < i ==> shown@[j]@ == lines@[start + j]@,
        decreases take - i,
    {
        shown.push(lines[start + i].clone());
        i = i + 1;
    }
    shown
}

} // verus!
