//! Lengths of time.

use crate::text;
use vstd::prelude::*;
use vstd::string::*;

verus! {

/// A length of time: whole seconds, and the nanoseconds beyond them.
#[derive(Debug, Clone, Copy, PartialEq, Eq, Structural)]
pub struct Span {
    pub secs: u64,
    pub nanos: u32,
}

/// Minutes and seconds as `MM:SS`. Minutes take more than two digits from a hundred
/// minutes on; fractions of a second are cut off.
pub open spec fn clock(span: Span) -> Seq<char> {
    text::two_digits((span.secs / 60) as nat) + ":"@ + text::two_digits((span.secs % 60) as nat)
}

/// The clock of a length that may be unknown.
pub open spec fn clock_or_unknown(span: Option<Span>) -> Seq<char> {
    match span {
        Some(known) => clock(known),
        None => "??:??"@,
    }
}

/// Writes the clock of a length at the end of a text.
pub fn push_clock(out: &mut String, span: Option<Span>)
    ensures
        final(out)@ == old(out)@ + clock_or_unknown(span),
{
    match span {
        Some(known) => {
            text::push_two_digits(out, known.secs / 60);
            out.append(":");
            text::push_two_digits(out, known.secs % 60);
        },
        None => {
            out.append("??:??");
        },
    }
}

proof fn lemma_clock_parts(span: Span)
    ensures
        clock(span).len() >= 5,
        clock(span).take(clock(span).len() - 3) == text::two_digits((span.secs / 60) as nat),
        clock(span).skip(clock(span).len() - 2) == text::two_digits((span.secs % 60) as nat),
        clock(span).last() != '?',
{
    let minutes = text::two_digits((span.secs / 60) as nat);
    let seconds = text::two_digits((span.secs % 60) as nat);
    text::law_two_digits_read_back((span.secs / 60) as nat);
    text::law_two_digits_read_back((span.secs % 60) as nat);
    reveal_strlit(":");
    reveal_strlit("0");
    reveal_with_fuel(text::decimal, 3);
    assert(seconds.len() == 2);
    assert(clock(span).take(clock(span).len() - 3) =~= minutes);
    assert(clock(span).skip(clock(span).len() - 2) =~= seconds);
    assert(clock(span).last() == seconds.last());
}

/// A clock tells the whole seconds: two lengths that are shown alike are equally long,
/// up to a fraction of a second, and an unknown length is shown like no other.
pub proof fn law_clock_tells_the_seconds(first: Option<Span>, second: Option<Span>)
    requires
        clock_or_unknown(first) == clock_or_unknown(second),
    ensures
        match (first, second) {
            (Some(a), Some(b)) => a.secs == b.secs,
            (None, None) => true,
            _ => false,
        },
{
    reveal_strlit("??:??");
    if let Some(a) = first {
        lemma_clock_parts(a);
    }
    if let Some(b) = second {
        lemma_clock_parts(b);
    }
    if let (Some(a), Some(b)) = (first, second) {
        text::law_two_digits_read_back((a.secs / 60) as nat);
        text::law_two_digits_read_back((b.secs / 60) as nat);
        text::law_two_digits_read_back((a.secs % 60) as nat);
        text::law_two_digits_read_back((b.secs % 60) as nat);
    }
}

/// A clock shows the minutes, a colon and the seconds that are left of the last minute,
/// and no fraction of a second; an unknown length has question marks in their place.
pub proof fn law_clock_shows_minutes_and_seconds(span: Span, minutes: nat, seconds: nat)
    requires
        span.secs == 60 * minutes + seconds,
        seconds < 60,
    ensures
        clock_or_unknown(Some(span)) == text::two_digits(minutes) + ":"@ + text::two_digits(
            seconds,
        ),
        clock_or_unknown(None) == "??:??"@,
{
    assert(span.secs / 60 == minutes && span.secs % 60 == seconds);
}

} // verus!
