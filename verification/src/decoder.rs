//! Opening audio data with the `rodio` decoder.

use crate::span::Span;
use rodio::{Decoder, Source};
use std::io::Cursor;
use std::sync::mpsc;
use tokio::runtime::Builder;
use vstd::prelude::*;
use vstd::string::*;

verus! {

/// What an attempt to open a decoder over `data` comes to. Where the decoder returns,
/// that is the total duration that it reports, as whole seconds and nanoseconds beyond
/// them, or the text of its error. Where the decoder panics, it is `None`.
pub uninterp spec fn attempted(data: Seq<u8>) -> Option<Result<Option<(u64, u32)>, Seq<char>>>;

/// How opening audio data can end: a total duration, if it is known, or the text of an
/// error.
pub type Opening = Result<Option<(u64, u32)>, Seq<char>>;

/// A length of time as the pair that [`attempted`] speaks of.
pub open spec fn span_pair(span: Option<Span>) -> Option<(u64, u32)> {
    match span {
        Some(known) => Some((known.secs, known.nanos)),
        None => None,
    }
}

/// The length of time that a pair stands for.
pub open spec fn pair_span(pair: Option<(u64, u32)>) -> Option<Span> {
    match pair {
        Some((secs, nanos)) => Some(Span { secs, nanos }),
        None => None,
    }
}

/// The outcome of opening audio data, with texts and lengths taken by their views.
pub open spec fn outcome(result: Result<Option<Span>, String>) -> Opening {
    match result {
        Ok(duration) => Ok(span_pair(duration)),
        Err(message) => Err(message@),
    }
}

/// The outcome of an attempt, with texts and lengths taken by their views.
pub open spec fn attempt_outcome(attempt: Option<Result<Option<Span>, String>>) -> Option<Opening> {
    match attempt {
        Some(result) => Some(outcome(result)),
        None => None,
    }
}

/// How opening audio data ends after an attempt: data on which the decoder panics are
/// malformed.
pub open spec fn settled(attempt: Option<Opening>) -> Opening {
    match attempt {
        Some(opening) => opening,
        None => Err("Malformed audio data"@),
    }
}

/// How opening `data` ends.
pub open spec fn opened(data: Seq<u8>) -> Opening {
    settled(attempted(data))
}

/// Opens the decoder of `rodio` over audio data (`rodio::Decoder::new` on a cursor)
/// and asks it for its total duration (`rodio::Source::total_duration`).
///
/// Both depend on the data alone: the decoder, which is built for MP3, looks for the
/// first frame, passing over a tag in front of it, and reads frames until one can be
/// decoded; the duration is the one that the first frame states. Every step takes bytes
/// from the data, so it comes to an end. An error is handed on as the text that it
/// displays.
///
/// On malformed data the decoder may panic, for instance where no frame follows one
/// that only tells how many there are. So it runs as a blocking task of `tokio`
/// (`tokio::runtime::Runtime::spawn_blocking`). A panic ends that task and not its
/// caller: the task drops its end of the channel, and the attempt comes to `None`.
/// Which data are of this kind is not said; with overflow checks compiled into the
/// decoder there are more of them than without. That there is a thread for the task,
/// and memory for what a tag claims to hold, is taken for granted.
#[verifier::external_body]
fn attempt(data: Vec<u8>) -> (result: Option<Result<Option<Span>, String>>)
    ensures
        attempt_outcome(result) == attempted(data@),
{
    let runtime = Builder::new_current_thread().build().ok()?;
    let (sender, receiver) = mpsc::channel();
    runtime.spawn_blocking(
        move || sender.send(Decoder::new(Cursor::new(data)).map(|source| source.total_duration())),
    );
    let answer = receiver.recv();
    runtime.shutdown_background();
    match answer.ok()? {
        Ok(length) => Some(
            Ok(length.map(|d| Span { secs: d.as_secs(), nanos: d.subsec_nanos() })),
        ),
        Err(e) => Some(Err(e.to_string())),
    }
}

/// How opening audio data ends after an attempt.
pub fn settle(attempt: Option<Result<Option<Span>, String>>) -> (result: Result<
    Option<Span>,
    String,
>)
    ensures
        outcome(result) == settled(attempt_outcome(attempt)),
{
    match attempt {
        Some(result) => result,
        None => Err(String::from_str("Malformed audio data")),
    }
}

/// Opens audio data: returns their total duration, if it is known, or why they cannot
/// be played.
pub fn open(data: Vec<u8>) -> (result: Result<Option<Span>, String>)
    ensures
        outcome(result) == opened(data@),
{
    settle(attempt(data))
}

/// What the decoder reports is handed on as it is, a duration as well as an error. Only
/// where the decoder panicked is there something to make up: the data are malformed.
pub proof fn law_reports_are_handed_on(data: Seq<u8>, report: Opening)
    ensures
        attempted(data) == Some(report) ==> opened(data) == report,
        attempted(data) is None ==> opened(data) == Err::<Option<(u64, u32)>, Seq<char>>(
            "Malformed audio data"@,
        ),
        settled(Some(report)) == report,
        settled(None) == Err::<Option<(u64, u32)>, Seq<char>>("Malformed audio data"@),
{
}

/// A duration keeps its seconds and its nanoseconds, and an error its text, in whichever
/// form they are spoken of.
pub proof fn law_durations_are_kept(secs: u64, nanos: u32, message: String)
    ensures
        span_pair(Some(Span { secs, nanos })) == Some((secs, nanos)),
        span_pair(None) is None,
        pair_span(Some((secs, nanos))) == Some(Span { secs, nanos }),
        pair_span(None) is None,
        outcome(Ok(Some(Span { secs, nanos }))) == Ok::<Option<(u64, u32)>, Seq<char>>(
            Some((secs, nanos)),
        ),
        outcome(Ok(None)) == Ok::<Option<(u64, u32)>, Seq<char>>(None),
        outcome(Err(message)) == Err::<Option<(u64, u32)>, Seq<char>>(message@),
        attempt_outcome(Some(Ok(Some(Span { secs, nanos })))) == Some(
            Ok::<Option<(u64, u32)>, Seq<char>>(Some((secs, nanos))),
        ),
        attempt_outcome(Some(Ok(None))) == Some(Ok::<Option<(u64, u32)>, Seq<char>>(None)),
        attempt_outcome(Some(Err(message))) == Some(
            Err::<Option<(u64, u32)>, Seq<char>>(message@),
        ),
        attempt_outcome(None) is None,
{
}

} // verus!
