//! The countdown clock of the overlay and the text it shows.

use crate::countdown::{Countdown, CountdownState, MAX_SPAN, NANOS_PER_SECOND};
use vstd::prelude::*;

verus! {

/// Seconds in one hour.
pub const SECONDS_IN_HOUR: u128 = 3600;

/// Seconds in one minute.
pub const SECONDS_IN_MINUTE: u128 = 60;

/// The character of a decimal digit.
pub open spec fn digit(d: nat) -> char
    recommends
        d < 10,
{
    if d == 0 {
        '0'
    } else if d == 1 {
        '1'
    } else if d == 2 {
        '2'
    } else if d == 3 {
        '3'
    } else if d == 4 {
        '4'
    } else if d == 5 {
        '5'
    } else if d == 6 {
        '6'
    } else if d == 7 {
        '7'
    } else if d == 8 {
        '8'
    } else {
        '9'
    }
}

/// A number in decimal, without leading zeros.
pub open spec fn decimal(n: nat) -> Seq<char>
    decreases n,
{
    if n < 10 {
        seq![digit(n)]
    } else {
        decimal(n / 10).push(digit(n % 10))
    }
}

/// A number in decimal with at least two digits: one below ten gets a zero
/// in front.
pub open spec fn two_digits(n: nat) -> Seq<char> {
    if n < 10 {
        seq!['0'] + decimal(n)
    } else {
        decimal(n)
    }
}

/// The whole hours in a number of seconds.
pub open spec fn hours(seconds: nat) -> nat {
    seconds / (SECONDS_IN_HOUR as nat)
}

/// The whole minutes left after the hours.
pub open spec fn minutes(seconds: nat) -> nat {
    (seconds % (SECONDS_IN_HOUR as nat)) / (SECONDS_IN_MINUTE as nat)
}

/// The seconds left after the minutes.
pub open spec fn seconds(seconds: nat) -> nat {
    seconds % (SECONDS_IN_MINUTE as nat)
}

/// A number of seconds as hours, minutes and seconds, each with at least two
/// digits, with a colon between them.
pub open spec fn clock_text(total: nat) -> Seq<char> {
    two_digits(hours(total)) + seq![':'] + two_digits(minutes(total)) + seq![':'] + two_digits(
        seconds(total),
    )
}

/// Hours, minutes and seconds make up the whole again, and minutes and
/// seconds stay below sixty.
pub proof fn lemma_clock_parts(total: nat)
    ensures
        hours(total) * 3600 + minutes(total) * 60 + seconds(total) == total,
        minutes(total) < 60,
        seconds(total) < 60,
{
}

/// A number below a hundred takes two characters with its leading zero.
pub proof fn lemma_two_digits_len(n: nat)
    requires
        n < 100,
    ensures
        two_digits(n).len() == 2,
{
    reveal_with_fuel(decimal, 2);
}

/// Below a hundred hours the text of a clock has eight characters, with
/// the colons in the third and the sixth place.
pub proof fn lemma_clock_text_shape(total: nat)
    requires
        total < 100 * 3600,
    ensures
        clock_text(total).len() == 8,
        clock_text(total)[2] == ':',
        clock_text(total)[5] == ':',
{
    lemma_clock_parts(total);
    lemma_two_digits_len(hours(total));
    lemma_two_digits_len(minutes(total));
    lemma_two_digits_len(seconds(total));
}

/// The text of one decimal digit.
fn digit_text(d: u8) -> (r: &'static str)
    requires
        d < 10,
    ensures
        r@ == seq![digit(d as nat)],
{
    proof {
        reveal_strlit("0");
        reveal_strlit("1");
        reveal_strlit("2");
        reveal_strlit("3");
        reveal_strlit("4");
        reveal_strlit("5");
        reveal_strlit("6");
        reveal_strlit("7");
        reveal_strlit("8");
        reveal_strlit("9");
    }
    let r = if d == 0 {
        "0"
    } else if d == 1 {
        "1"
    } else if d == 2 {
        "2"
    } else if d == 3 {
        "3"
    } else if d == 4 {
        "4"
    } else if d == 5 {
        "5"
    } else if d == 6 {
        "6"
    } else if d == 7 {
        "7"
    } else if d == 8 {
        "8"
    } else {
        "9"
    };
    assert(r@ =~= seq![digit(d as nat)]);
    r
}

/// Appends a number in decimal to a text.
pub fn push_decimal(text: &mut String, n: u128)
    ensures
        final(text)@ == old(text)@ + decimal(n as nat),
    decreases n,
{
    if n >= 10 {
        push_decimal(text, n / 10);
    }
    let last: u8 = (n % 10) as u8;
    text.append(digit_text(last));
    assert(text@ =~= old(text)@ + decimal(n as nat));
}

/// Appends a number in decimal to a text, with a zero in front of a number
/// below ten.
pub fn push_two_digits(text: &mut String, n: u128)
    ensures
        final(text)@ == old(text)@ + two_digits(n as nat),
{
    if n < 10 {
        proof {
            reveal_strlit("0");
        }
        text.append("0");
    }
    push_decimal(text, n);
    assert(text@ =~= old(text)@ + two_digits(n as nat));
}

/// The text a clock shows for a number of seconds.
pub fn format_clock(total: u128) -> (text: String)
    ensures
        text@ == clock_text(total as nat),
{
    let hr: u128 = total / SECONDS_IN_HOUR;
    let left: u128 = total % SECONDS_IN_HOUR;
    let mm: u128 = left / SECONDS_IN_MINUTE;
    let secs: u128 = total % SECONDS_IN_MINUTE;
    proof {
        reveal_strlit(":");
    }
    let mut text = String::new();
    push_two_digits(&mut text, hr);
    text.append(":");
    push_two_digits(&mut text, mm);
    text.append(":");
    push_two_digits(&mut text, secs);
    assert(text@ =~= clock_text(total as nat));
    text
}

/// A request to give every clock more time, or less: a number of
/// nanoseconds, negative to take time away.
#[derive(Clone, Copy, Debug, PartialEq, Eq)]
pub struct AddTime {
    nanos: i128,
}

impl AddTime {
    /// A request to change the clocks by `nanos` nanoseconds.
    pub fn new(nanos: i128) -> (r: AddTime)
        ensures
            r.nanos() == nanos,
    {
        AddTime { nanos }
    }

    /// The change asked for, in nanoseconds.
    pub closed spec fn nanos(self) -> int {
        self.nanos as int
    }

    /// The change asked for, in nanoseconds.
    pub fn amount(&self) -> (r: i128)
        ensures
            r == self.nanos(),
    {
        self.nanos
    }
}

/// The time on a clock that was just made, in nanoseconds: two minutes.
pub const NEW_CLOCK: u128 = 120_000_000_000;

/// A clock that counts down and shows the time left.
#[derive(Clone, Copy, Debug, PartialEq, Eq)]
pub struct Clock {
    duration: Countdown,
}

impl View for Clock {
    type V = CountdownState;

    closed spec fn view(&self) -> CountdownState {
        self.duration@
    }
}

impl Clock {
    /// A clock with `nanos` nanoseconds to go.
    pub fn new(nanos: u128) -> (r: Clock)
        requires
            nanos <= MAX_SPAN,
        ensures
            r@ == CountdownState::fresh(nanos as nat),
    {
        Clock { duration: Countdown::new(nanos) }
    }

    /// The whole seconds the clock has left.
    pub open spec fn seconds_left(self) -> nat {
        self@.remaining() / (NANOS_PER_SECOND as nat)
    }

    /// The time the clock has left, in nanoseconds.
    pub fn remaining(&self) -> (r: u128)
        ensures
            r == self@.remaining(),
            self@.wf(),
    {
        self.duration.remaining()
    }

    /// Whether the clock can take the request of an `AddTime`: whether the
    /// time it has left and the amount asked for add up to a span.
    pub fn can_add_time(&self, event: &AddTime) -> (r: bool)
        ensures
            r == self@.can_add_time(event.nanos()),
    {
        self.duration.can_add_time(event.amount())
    }

    /// Takes the request of an `AddTime`: the clock starts again with the
    /// time it had left, changed by the amount asked for.
    pub fn add_time(&mut self, event: &AddTime)
        requires
            old(self)@.can_add_time(event.nanos()),
        ensures
            final(self)@ == old(self)@.add_time(event.nanos()),
    {
        self.duration.add_time(event.amount());
    }

    /// The text the clock shows: the whole seconds left, as hours, minutes
    /// and seconds.
    pub fn text(&self) -> (text: String)
        ensures
            text@ == clock_text(self.seconds_left()),
    {
        format_clock(self.duration.remaining() / NANOS_PER_SECOND)
    }

    /// One update of the clock: `delta` nanoseconds go by, and the clock
    /// shows what is left after them.
    pub fn update(&mut self, delta: u128) -> (text: String)
        ensures
            final(self)@ == old(self)@.tick(delta as nat),
            text@ == clock_text(final(self).seconds_left()),
    {
        self.duration.tick(delta);
        self.text()
    }
}

/// A request to make a clock where the request stands.
#[derive(Clone, Copy, Debug, PartialEq, Eq)]
pub struct MakeClock(pub Clock);

/// The clock made for a request: one with `NEW_CLOCK` to go, whatever
/// clock the request holds.
pub fn make_clock(request: &MakeClock) -> (r: Clock)
    ensures
        r@ == CountdownState::fresh(NEW_CLOCK as nat),
{
    Clock::new(NEW_CLOCK)
}

} // verus!
