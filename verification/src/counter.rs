//! The bounded counter pane.

use vstd::prelude::*;
use vstd::string::StringExecFns;
use crate::input::Key;

verus! {

/// One adjustment of the counter.
#[derive(Clone, Copy, PartialEq, Eq, Structural, Debug)]
pub enum CounterOp {
    Increment,
    Decrement,
}

/// The counter value after applying one operation: both operations
/// saturate at the bounds instead of wrapping.
pub open spec fn counter_step(v: int, op: CounterOp) -> int {
    match op {
        CounterOp::Increment => if v >= 255 {
            255
        } else {
            v + 1
        },
        CounterOp::Decrement => if v <= 0 {
            0
        } else {
            v - 1
        },
    }
}

/// The counter value after applying a whole sequence of operations in order.
pub open spec fn counter_after(v: int, ops: Seq<CounterOp>) -> int
    decreases ops.len(),
{
    if ops.len() == 0 {
        v
    } else {
        counter_after(counter_step(v, ops[0]), ops.subrange(1, ops.len() as int))
    }
}

/// No sequence of increments and decrements ever drives the counter out of
/// `[0, 255]`: every step saturates, so the value never wraps.
pub proof fn lemma_counter_stays_in_range(v: int, ops: Seq<CounterOp>)
    requires
        0 <= v <= 255,
    ensures
        0 <= counter_after(v, ops) <= 255,
    decreases ops.len(),
{
    if ops.len() > 0 {
        lemma_counter_stays_in_range(counter_step(v, ops[0]), ops.subrange(1, ops.len() as int));
    }
}

/// The character for one decimal digit.
pub open spec fn digit_char(d: int) -> char {
    if d == 0 {
        '0'
    } else if d == 1 {
        '1'
    } else if d == 2 {
        '2'
    } else if d == 3 {
        '3'
    } else if d == 4 {
        '4'
    } else if d == 5 {
        '5'
    } else if d == 6 {
        '6'
    } else if d == 7 {
        '7'
    } else if d == 8 {
        '8'
    } else {
        '9'
    }
}

/// The decimal representation of a non-negative integer, most significant
/// digit first, with no leading zeros.
pub open spec fn dec_rep(n: int) -> Seq<char>
    recommends
        n >= 0,
    decreases n,
{
    if n < 10 {
        seq![digit_char(n)]
    } else {
        dec_rep(n / 10).push(digit_char(n % 10))
    }
}

/// A one-character string for one decimal digit.
fn digit_str(d: u8) -> (r: &'static str)
    requires
        d < 10,
    ensures
        r@ =~= seq![digit_char(d as int)],
{
    proof {
        reveal_strlit("0");
        reveal_strlit("1");
        reveal_strlit("2");
        reveal_strlit("3");
        reveal_strlit("4");
        reveal_strlit("5");
        reveal_strlit("6");
        reveal_strlit("7");
        reveal_strlit("8");
        reveal_strlit("9");
    }
    match d {
        0 => "0",
        1 => "1",
        2 => "2",
        3 => "3",
        4 => "4",
        5 => "5",
        6 => "6",
        7 => "7",
        8 => "8",
        _ => "9",
    }
}

/// The decimal digits of an 8-bit value as a string.
pub fn u8_decimal(n: u8) -> (s: String)
    ensures
        s@ == dec_rep(n as int),
{
    let hundreds: u8 = n / 100;
    let tens: u8 = (n / 10) % 10;
    let ones: u8 = n % 10;
    let mut s = String::new();
    if n >= 100 {
        s.append(digit_str(hundreds));
    }
    if n >= 10 {
        s.append(digit_str(tens));
    }
    s.append(digit_str(ones));
    proof {
        if n < 10 {
            assert(n % 10 == n as int);
            assert(s@ =~= dec_rep(n as int));
        } else if n < 100 {
            assert(n / 10 < 10);
            assert((n / 10) % 10 == n as int / 10);
            assert(dec_rep(n as int) == dec_rep(n as int / 10).push(digit_char(n as int % 10)));
            assert(s@ =~= dec_rep(n as int));
        } else {
            assert(n / 100 < 10);
            vstd::arithmetic::div_mod::lemma_div_denominator(n as int, 10, 10);
            assert((n as int / 10) / 10 == n as int / 100);
            assert(dec_rep(n as int / 10) == dec_rep(n as int / 100).push(
                digit_char((n as int / 10) % 10),
            ));
            assert(s@ =~= dec_rep(n as int));
        }
    }
    s
}

/// The counter pane: an 8-bit value changed by the left and right arrow
/// keys.
#[derive(Default, Clone, Copy, PartialEq, Eq, Structural, Debug)]
pub struct CounterWidget {
    pub counter: u8,
}

impl CounterWidget {
    /// Lower the value by one, stopping at 0.
    pub fn decrement_counter(&mut self)
        ensures
            final(self).counter == counter_step(old(self).counter as int, CounterOp::Decrement),
    {
        if self.counter > 0 {
            self.counter = self.counter - 1;
        }
    }

    /// Raise the value by one, stopping at 255.
    pub fn increment_counter(&mut self)
        ensures
            final(self).counter == counter_step(old(self).counter as int, CounterOp::Increment),
    {
        if self.counter < 255 {
            self.counter = self.counter + 1;
        }
    }

    /// Route one key to the counter: left decrements, right increments,
    /// every other key leaves the value unchanged.
    pub fn handle_counter_change(&mut self, key: Key)
        ensures
            final(self).counter == match key {
                Key::Left => counter_step(old(self).counter as int, CounterOp::Decrement),
                Key::Right => counter_step(old(self).counter as int, CounterOp::Increment),
                _ => old(self).counter as int,
            },
    {
        match key {
            Key::Left => self.decrement_counter(),
            Key::Right => self.increment_counter(),
            _ => {},
        }
    }

    /// The text shown for the value, `Value: ` followed by the decimal
    /// digits of the counter.
    pub fn value_label(&self) -> (s: String)
        ensures
            s@ == "Value: "@ + dec_rep(self.counter as int),
    {
        let mut s = String::from_str("Value: ");
        let digits = u8_decimal(self.counter);
        s.append(digits.as_str());
        s
    }
}

} // verus!
