//! What the bot does and answers when it is given a command.

use crate::audio_queue;
use crate::audio_queue::{AudioQueue, Order, QueueItem, QueueState, Track};
use crate::decoder;
use crate::decoder::Opening;
use crate::download::{Download, DownloadedTrack};
use crate::span;
use crate::text;
use std::time::SystemTime;
use vstd::prelude::*;
use vstd::string::*;

verus! {

/// A command to the bot.
#[derive(Debug)]
pub enum FasterCommand {
    Help,
    Queue,
    /// Fetch the track at an address and put it into the queue.
    Play(String),
    Stop,
    Pause,
    Resume,
    Clear,
    Skip,
    /// Take the track at a position, counted from one, out of the queue.
    Remove(usize),
    NowPlaying,
}

/// What a [`FasterCommand`] says.
pub enum Request {
    Help,
    Queue,
    Play(Seq<char>),
    Stop,
    Pause,
    Resume,
    Clear,
    Skip,
    Remove(usize),
    NowPlaying,
}

impl View for FasterCommand {
    type V = Request;

    open spec fn view(&self) -> Request {
        match self {
            FasterCommand::Help => Request::Help,
            FasterCommand::Queue => Request::Queue,
            FasterCommand::Play(url) => Request::Play(url@),
            FasterCommand::Stop => Request::Stop,
            FasterCommand::Pause => Request::Pause,
            FasterCommand::Resume => Request::Resume,
            FasterCommand::Clear => Request::Clear,
            FasterCommand::Skip => Request::Skip,
            FasterCommand::Remove(position) => Request::Remove(*position),
            FasterCommand::NowPlaying => Request::NowPlaying,
        }
    }
}

/// How a command is answered.
#[derive(Debug)]
pub enum Reply {
    /// Send the list of commands.
    Descriptions,
    /// Send a text.
    Text(String),
    /// Send a notice, then fetch the track at an address.
    Download { notice: String, url: String },
}

/// What a [`Reply`] says.
pub enum Answer {
    Descriptions,
    Text(Seq<char>),
    Download { notice: Seq<char>, url: Seq<char> },
}

impl View for Reply {
    type V = Answer;

    open spec fn view(&self) -> Answer {
        match self {
            Reply::Descriptions => Answer::Descriptions,
            Reply::Text(text) => Answer::Text(text@),
            Reply::Download { notice, url } => Answer::Download { notice: notice@, url: url@ },
        }
    }
}

/// How the end of a download is answered.
#[derive(Debug)]
pub enum PlayReply {
    /// Send a text: the track is in the queue.
    Added(String),
    /// Send a text: the track is in the queue, but the one to start cannot be played.
    NotPlayed(String),
    /// Put a text in place of the notice: there is no track.
    Failed(String),
}

/// What a [`PlayReply`] says.
pub enum PlayAnswer {
    Added(Seq<char>),
    NotPlayed(Seq<char>),
    Failed(Seq<char>),
}

impl View for PlayReply {
    type V = PlayAnswer;

    open spec fn view(&self) -> PlayAnswer {
        match self {
            PlayReply::Added(text) => PlayAnswer::Added(text@),
            PlayReply::NotPlayed(text) => PlayAnswer::NotPlayed(text@),
            PlayReply::Failed(text) => PlayAnswer::Failed(text@),
        }
    }
}

/// The answer to a skip, from what moving on reports.
pub open spec fn skip_text(result: Result<Option<Track>, Seq<char>>) -> Seq<char> {
    match result {
        Ok(Some(track)) => "Skipped! Now playing: "@ + track.title,
        Ok(None) => "Skipped! Queue is now empty."@,
        Err(message) => "Error skipping: "@ + message,
    }
}

/// The description of the current track, if there is one.
pub open spec fn now_playing_text(current: Option<Track>) -> Seq<char> {
    match current {
        Some(track) => "Now Playing: "@ + track.title + "\nDuration: "@ + span::clock_or_unknown(
            track.duration,
        ) + "\nAdded by: "@ + track.added_by,
        None => "Nothing is currently playing"@,
    }
}

/// The first of some tracks.
pub open spec fn first_track(tracks: Seq<Track>) -> Option<Track> {
    if tracks.len() > 0 {
        Some(tracks[0])
    } else {
        None
    }
}

/// Whether `position`, counted from one, is that of a track in a queue of `length`.
pub open spec fn is_position(position: int, length: int) -> bool {
    1 <= position <= length
}

/// The queue after a command; `opening` is what opening the upcoming track comes to.
pub open spec fn after_command(
    state: QueueState,
    request: Request,
    opening: Opening,
) -> QueueState {
    match request {
        Request::Stop => state.stopped(),
        Request::Pause => state.ordered(Order::Pause),
        Request::Resume => state.ordered(Order::Play),
        Request::Clear => state.cleared(),
        Request::Skip => state.moved_on(opening),
        Request::Remove(position) => if is_position(position as int, state.tracks.len() as int) {
            state.without(position - 1, opening)
        } else {
            state
        },
        _ => state,
    }
}

/// The answer to a command.
pub open spec fn answer(
    state: QueueState,
    request: Request,
    opening: Opening,
) -> Answer {
    match request {
        Request::Help => Answer::Descriptions,
        Request::Queue => Answer::Text(audio_queue::queue_info(state.tracks)),
        Request::Play(url) => Answer::Download { notice: "Downloading audio..."@, url },
        Request::Stop => Answer::Text("Playback stopped"@),
        Request::Pause => Answer::Text("Playback paused"@),
        Request::Resume => Answer::Text("Playback resumed"@),
        Request::Clear => Answer::Text("Queue cleared"@),
        Request::Skip => Answer::Text(skip_text(state.moving_on(opening))),
        Request::Remove(position) => Answer::Text(
            if is_position(position as int, state.tracks.len() as int) {
                "Removed: "@ + state.tracks[position - 1].title
            } else {
                "Invalid queue position"@
            },
        ),
        Request::NowPlaying => Answer::Text(now_playing_text(first_track(state.tracks))),
    }
}

/// The answer to a skip, from what moving on reported.
pub fn skip_reply(result: &Result<Option<QueueItem>, String>) -> (reply: String)
    ensures
        reply@ == skip_text(audio_queue::play_result(*result)),
{
    match result {
        Ok(Some(item)) => {
            let mut reply = String::from_str("Skipped! Now playing: ");
            reply.append(item.title.as_str());
            reply
        },
        Ok(None) => String::from_str("Skipped! Queue is now empty."),
        Err(message) => {
            let mut reply = String::from_str("Error skipping: ");
            reply.append(message.as_str());
            reply
        },
    }
}

fn now_playing_reply(current: Option<&QueueItem>) -> (reply: String)
    ensures
        reply@ == now_playing_text(
            match current {
                Some(item) => Some(item@),
                None => None,
            },
        ),
{
    match current {
        Some(item) => {
            let mut reply = String::from_str("Now Playing: ");
            reply.append(item.title.as_str());
            reply.append("\nDuration: ");
            span::push_clock(&mut reply, item.duration);
            reply.append("\nAdded by: ");
            reply.append(item.added_by.as_str());
            reply
        },
        None => String::from_str("Nothing is currently playing"),
    }
}

fn remove_reply(queue: &mut AudioQueue, position: usize) -> (reply: String)
    ensures
        final(queue)@ == after_command(
            old(queue)@,
            Request::Remove(position),
            old(queue)@.upcoming(),
        ),
        Answer::Text(reply@) == answer(
            old(queue)@,
            Request::Remove(position),
            old(queue)@.upcoming(),
        ),
{
    if position == 0 || position > queue.queue_length() {
        return String::from_str("Invalid queue position");
    }
    match queue.remove_from_queue(position - 1) {
        Some(removed_item) => {
            let mut reply = String::from_str("Removed: ");
            reply.append(removed_item.title.as_str());
            reply
        },
        None => String::from_str("Failed to remove item"),
    }
}

/// Carries out a command on the queue and says how to answer it.
pub fn handle_command(queue: &mut AudioQueue, command: FasterCommand) -> (reply: Reply)
    ensures
        final(queue)@ == after_command(old(queue)@, command@, old(queue)@.upcoming()),
        reply@ == answer(old(queue)@, command@, old(queue)@.upcoming()),
{
    match command {
        FasterCommand::Help => Reply::Descriptions,
        FasterCommand::Queue => Reply::Text(queue.get_queue_info()),
        FasterCommand::Play(url) => Reply::Download {
            notice: String::from_str("Downloading audio..."),
            url,
        },
        FasterCommand::Stop => {
            queue.stop();
            Reply::Text(String::from_str("Playback stopped"))
        },
        FasterCommand::Pause => {
            queue.pause();
            Reply::Text(String::from_str("Playback paused"))
        },
        FasterCommand::Resume => {
            queue.resume();
            Reply::Text(String::from_str("Playback resumed"))
        },
        FasterCommand::Clear => {
            queue.clear_queue();
            Reply::Text(String::from_str("Queue cleared"))
        },
        FasterCommand::Skip => {
            let result = queue.skip_current();
            Reply::Text(skip_reply(&result))
        },
        FasterCommand::Remove(position) => Reply::Text(remove_reply(queue, position)),
        FasterCommand::NowPlaying => Reply::Text(now_playing_reply(queue.get_current_item())),
    }
}

/// The track that a finished download becomes.
pub open spec fn requested_track(
    download: Download,
    url: Seq<char>,
    added_by: Seq<char>,
    added_at: SystemTime,
) -> Track {
    Track {
        url,
        title: download.title,
        duration: download.duration,
        added_by,
        added_at,
        audio_data: download.audio_data,
    }
}

/// The answer to a track that was added to a silent queue, from its position and what
/// moving on reports.
pub open spec fn started_answer(
    position: nat,
    result: Result<Option<Track>, Seq<char>>,
) -> PlayAnswer {
    let added = "Added to queue (#"@ + text::decimal(position) + ")"@;
    match result {
        Ok(Some(track)) => PlayAnswer::Added(added + ". Now playing: "@ + track.title),
        Ok(None) => PlayAnswer::Added(added),
        Err(message) => PlayAnswer::NotPlayed("Error playing audio: "@ + message),
    }
}

/// The answer to a track that was added to a queue that is playing.
pub open spec fn waiting_answer(position: nat) -> PlayAnswer {
    PlayAnswer::Added("Added to queue at position #"@ + text::decimal(position))
}

/// The queue once a track has been added: a silent queue moves on at once.
pub open spec fn after_adding(
    state: QueueState,
    track: Track,
    opening: Opening,
) -> QueueState {
    if state.playing {
        state.with_track(track)
    } else {
        state.with_track(track).moved_on(opening)
    }
}

/// The answer to a track that has been added.
pub open spec fn adding_answer(
    state: QueueState,
    track: Track,
    opening: Opening,
) -> PlayAnswer {
    let position = state.tracks.len() + 1;
    if state.playing {
        waiting_answer(position)
    } else {
        started_answer(position, state.with_track(track).moving_on(opening))
    }
}

/// The answer to a track that was added to a silent queue, from its position and what
/// moving on reported.
pub fn started_reply(position: usize, result: Result<Option<QueueItem>, String>) -> (reply:
    PlayReply)
    ensures
        reply@ == started_answer(position as nat, audio_queue::play_result(result)),
{
    let mut added = String::from_str("Added to queue (#");
    text::push_decimal(&mut added, position as u64);
    added.append(")");
    match result {
        Ok(Some(item)) => {
            added.append(". Now playing: ");
            added.append(item.title.as_str());
            PlayReply::Added(added)
        },
        Ok(None) => PlayReply::Added(added),
        Err(message) => {
            let mut reply = String::from_str("Error playing audio: ");
            reply.append(message.as_str());
            PlayReply::NotPlayed(reply)
        },
    }
}

/// Puts a fetched track into the queue, moves on if nothing is being played, and says
/// how to answer. A download that failed leaves the queue alone.
pub fn finish_play(
    queue: &mut AudioQueue,
    url: String,
    added_by: String,
    added_at: SystemTime,
    outcome: Result<DownloadedTrack, String>,
) -> (reply: PlayReply)
    ensures
        match outcome {
            Ok(fetched) => {
                let track = requested_track(fetched@, url@, added_by@, added_at);
                let opening = old(queue)@.with_track(track).upcoming();
                &&& final(queue)@ == after_adding(old(queue)@, track, opening)
                &&& reply@ == adding_answer(old(queue)@, track, opening)
            },
            Err(message) => {
                &&& final(queue)@ == old(queue)@
                &&& reply@ == PlayAnswer::Failed("Error: "@ + message@)
            },
        },
{
    match outcome {
        Ok(fetched) => {
            let item = QueueItem {
                url,
                title: fetched.title,
                duration: fetched.duration,
                added_by,
                added_at,
                audio_data: fetched.audio_data,
            };
            let position = queue.add_to_queue(item);
            if !queue.is_playing() {
                let result = queue.play_next();
                started_reply(position, result)
            } else {
                let mut reply = String::from_str("Added to queue at position #");
                text::push_decimal(&mut reply, position as u64);
                PlayReply::Added(reply)
            }
        },
        Err(message) => {
            let mut reply = String::from_str("Error: ");
            reply.append(message.as_str());
            PlayReply::Failed(reply)
        },
    }
}

/// Someone who writes to the bot.
#[derive(Debug)]
pub struct Sender {
    pub username: Option<String>,
    pub first_name: String,
}

/// What a sender is called: by the user name, else by the first name; a message
/// without a sender comes from someone unknown.
pub fn sender_name(sender: Option<Sender>) -> (name: String)
    ensures
        name@ == (match sender {
            Some(from) => match from.username {
                Some(username) => username@,
                None => from.first_name@,
            },
            None => "Unknown"@,
        }),
{
    match sender {
        Some(from) => match from.username {
            Some(username) => username,
            None => from.first_name,
        },
        None => String::from_str("Unknown"),
    }
}

/// Asking for help, for the queue or for the current track changes nothing, and
/// neither does asking for a track before it has been fetched.
pub proof fn law_questions_change_nothing(state: QueueState, url: Seq<char>, opening: Opening)
    ensures
        after_command(state, Request::Help, opening) == state,
        after_command(state, Request::Queue, opening) == state,
        after_command(state, Request::NowPlaying, opening) == state,
        after_command(state, Request::Play(url), opening) == state,
{
}

/// A position at which there is no track is refused, and nothing changes; at any other
/// position, exactly the track there is taken out and named in the answer.
pub proof fn law_removal_is_by_position(state: QueueState, position: usize, opening: Opening)
    ensures
        !is_position(position as int, state.tracks.len() as int) ==> {
            &&& answer(state, Request::Remove(position), opening) == Answer::Text(
                "Invalid queue position"@,
            )
            &&& after_command(state, Request::Remove(position), opening) == state
        },
        is_position(position as int, state.tracks.len() as int) ==> {
            &&& answer(state, Request::Remove(position), opening) == Answer::Text(
                "Removed: "@ + state.tracks[position - 1].title,
            )
            &&& after_command(state, Request::Remove(position), opening).tracks
                == state.tracks.remove(position - 1)
        },
{
    audio_queue::law_removal_takes_one_track(state, position - 1, opening);
}

/// A track added while another one is playing waits at the end of the queue. Added to
/// a silent queue with tracks it also goes to the end, but the queue moves on: the
/// track at the front leaves, so the queue is no longer than before, and the one behind
/// it starts if it can be played.
pub proof fn law_adding(state: QueueState, track: Track, opening: Opening)
    ensures
        state.playing ==> {
            &&& after_adding(state, track, opening) == state.with_track(track)
            &&& adding_answer(state, track, opening) == waiting_answer(state.tracks.len() + 1)
        },
        !state.playing && state.tracks.len() > 0 ==> after_adding(state, track, opening).tracks
            == state.tracks.push(track).drop_first(),
        !state.playing && state.tracks.len() > 0 && state.obstacle(opening) is None ==> {
            let started = if state.tracks.len() == 1 {
                track
            } else {
                state.tracks[1]
            };
            &&& after_adding(state, track, opening).playing
            &&& after_adding(state, track, opening).tracks[0] == started
            &&& adding_answer(state, track, opening) == started_answer(
                state.tracks.len() + 1,
                Ok(Some(started)),
            )
        },
{
}

/// A track added to a silent queue without tracks is played at once, if it can be: it
/// is the current track, replaces whatever the sound output holds, counts as playing
/// and is named in the answer. Where it cannot be played it stays in the silent queue,
/// and the answer says why.
pub proof fn law_lone_track_is_played(state: QueueState, track: Track, opening: Opening)
    requires
        !state.playing,
        state.tracks.len() == 0,
    ensures
        state.obstacle(opening) is None ==> {
            &&& after_adding(state, track, opening) == (QueueState {
                playing: true,
                ..state.with_track(track).sounding(track.audio_data)
            })
            &&& adding_answer(state, track, opening) == started_answer(1, Ok(Some(track)))
        },
        state.obstacle(opening) matches Some(message) ==> {
            &&& after_adding(state, track, opening) == state.with_track(track)
            &&& adding_answer(state, track, opening) == PlayAnswer::NotPlayed(
                "Error playing audio: "@ + message,
            )
        },
{
    audio_queue::law_waiting_track_is_started(state.with_track(track), opening);
}

/// Only a track that has been fetched ends the silence of a queue without tracks: no
/// command makes such a queue play, or puts a track into it.
pub proof fn law_commands_leave_silence(state: QueueState, request: Request, opening: Opening)
    requires
        !state.playing,
        state.tracks.len() == 0,
    ensures
        !after_command(state, request, opening).playing,
        after_command(state, request, opening).tracks.len() == 0,
{
}

/// No command takes the sound output away, or takes back an order that was given.
pub proof fn law_commands_keep_orders(
    state: QueueState,
    request: Request,
    track: Track,
    opening: Opening,
)
    ensures
        after_command(state, request, opening).continues(state),
        after_adding(state, track, opening).continues(state),
{
    let index = match request {
        Request::Remove(position) => position - 1,
        _ => 0,
    };
    audio_queue::law_orders_are_kept(state, track, Order::Pause, index, opening);
    audio_queue::law_orders_are_kept(state, track, Order::Play, index, opening);
    audio_queue::law_orders_are_kept(state.with_track(track), track, Order::Stop, 0, opening);
}

/// The command to skip, case by case. With two tracks or more, and in a playing queue
/// with one, the first track leaves. Where there is a sound output and the track to start
/// can be opened, exactly a stop and its data are ordered, it is the first one now, the
/// queue counts as playing, and the answer names it. A track that cannot be played is
/// answered with the reason, and nothing is ordered. Without a track to start the answer
/// says that the queue is empty; only a queue that was empty before is stopped.
pub proof fn law_skipping_case_by_case(state: QueueState, opening: Opening)
    ensures
        ({
            let next = after_command(state, Request::Skip, opening);
            let reply = answer(state, Request::Skip, opening);
            let starts = if state.tracks.len() == 1 {
                state.tracks[0]
            } else {
                state.tracks[1]
            };
            let has_next = state.tracks.len() > 1 || state.tracks.len() == 1 && !state.playing;
            &&& state.tracks.len() > 1 || state.tracks.len() == 1 && state.playing ==> next.tracks
                == state.tracks.skip(1)
            &&& state.tracks.len() == 0 || state.tracks.len() == 1 && !state.playing ==> next.tracks
                == state.tracks
            &&& has_next && state.output is Some && opening is Ok ==> {
                &&& next.output == Some(
                    state.output->0.push(Order::Stop).push(Order::Append(starts.audio_data)),
                )
                &&& next.playing
                &&& next.tracks[0] == starts
                &&& reply == Answer::Text("Skipped! Now playing: "@ + next.tracks[0].title)
            }
            &&& has_next && !(state.output is Some && opening is Ok) ==> {
                &&& next.output == state.output
                &&& next.playing == state.playing
                &&& state.output is None ==> reply == Answer::Text(
                    "Error skipping: "@ + "Audio output not available"@,
                )
                &&& state.output is Some ==> reply == Answer::Text(
                    "Error skipping: "@ + opening->Err_0,
                )
            }
            &&& !has_next ==> reply == Answer::Text("Skipped! Queue is now empty."@)
            &&& state.tracks.len() == 1 && state.playing ==> {
                &&& next.output == state.output
                &&& next.playing
            }
            &&& state.tracks.len() == 0 ==> {
                &&& !next.playing
                &&& state.output is None ==> next.output is None
                &&& state.output matches Some(given) ==> next.output == Some(
                    given.push(Order::Stop),
                )
            }
        }),
{
    audio_queue::law_moving_on_case_by_case(state, opening);
    assert(state.tracks.len() == 1 ==> state.tracks.skip(1).len() == 0);
    assert(state.tracks.len() == 1 && state.playing ==> after_command(
        state,
        Request::Skip,
        opening,
    ).tracks =~= state.tracks.skip(1));
}

/// The commands that stop, hold or continue playback give exactly the order of that name
/// and keep the tracks; the one that clears the queue gives the order to stop and keeps
/// none. Stopping and clearing end playback, the others leave it as it is. Each is
/// answered by saying so.
pub proof fn law_playback_commands(state: QueueState, opening: Opening)
    ensures
        ({
            let stopped = after_command(state, Request::Stop, opening);
            let paused = after_command(state, Request::Pause, opening);
            let resumed = after_command(state, Request::Resume, opening);
            let cleared = after_command(state, Request::Clear, opening);
            &&& state.output matches Some(given) ==> {
                &&& stopped.output == Some(given.push(Order::Stop))
                &&& paused.output == Some(given.push(Order::Pause))
                &&& resumed.output == Some(given.push(Order::Play))
                &&& cleared.output == Some(given.push(Order::Stop))
            }
            &&& state.output is None ==> {
                &&& stopped.output is None
                &&& paused.output is None
                &&& resumed.output is None
                &&& cleared.output is None
            }
            &&& stopped.tracks == state.tracks
            &&& paused.tracks == state.tracks
            &&& resumed.tracks == state.tracks
            &&& cleared.tracks.len() == 0
            &&& !stopped.playing
            &&& paused.playing == state.playing
            &&& resumed.playing == state.playing
            &&& !cleared.playing
        }),
        answer(state, Request::Stop, opening) == Answer::Text("Playback stopped"@),
        answer(state, Request::Pause, opening) == Answer::Text("Playback paused"@),
        answer(state, Request::Resume, opening) == Answer::Text("Playback resumed"@),
        answer(state, Request::Clear, opening) == Answer::Text("Queue cleared"@),
{
}

/// Questions are answered from the queue as it is: with the listing of its tracks, or
/// with what there is to say of the first one. Asked for a track, the bot says that it is
/// downloading and fetches from exactly the address that was given.
pub proof fn law_questions_are_answered(state: QueueState, url: Seq<char>, opening: Opening)
    ensures
        answer(state, Request::Help, opening) == Answer::Descriptions,
        answer(state, Request::Queue, opening) == Answer::Text(
            audio_queue::queue_info(state.tracks),
        ),
        answer(state, Request::Play(url), opening) == (Answer::Download {
            notice: "Downloading audio..."@,
            url,
        }),
        state.tracks.len() == 0 ==> answer(state, Request::NowPlaying, opening) == Answer::Text(
            "Nothing is currently playing"@,
        ),
        state.tracks.len() > 0 ==> answer(state, Request::NowPlaying, opening) == Answer::Text(
            "Now Playing: "@ + state.tracks[0].title + "\nDuration: "@ + span::clock_or_unknown(
                state.tracks[0].duration,
            ) + "\nAdded by: "@ + state.tracks[0].added_by,
        ),
{
}

/// The command to take out a track, case by case. A position is counted from one. The
/// tracks around the one that leaves stay in their order, and it is named in the answer.
/// Where it was the first one, there is a sound output and the second one can be opened,
/// exactly a stop and the data of the second one are ordered, and the queue counts as
/// playing; otherwise nothing is ordered. Any other position is refused and changes
/// nothing.
pub proof fn law_taking_out_by_position(state: QueueState, position: usize, opening: Opening)
    ensures
        ({
            let next = after_command(state, Request::Remove(position), opening);
            let reply = answer(state, Request::Remove(position), opening);
            let starts = position == 1 && state.tracks.len() > 1 && state.output is Some
                && opening is Ok;
            &&& 1 <= position <= state.tracks.len() ==> {
                &&& next.tracks == state.tracks.take(position - 1) + state.tracks.skip(
                    position as int,
                )
                &&& reply == Answer::Text("Removed: "@ + state.tracks[position - 1].title)
            }
            &&& !(1 <= position <= state.tracks.len()) ==> {
                &&& next.tracks == state.tracks
                &&& reply == Answer::Text("Invalid queue position"@)
            }
            &&& starts ==> {
                &&& next.tracks[0] == state.tracks[1]
                &&& next.playing
                &&& next.output == Some(
                    state.output->0.push(Order::Stop).push(
                        Order::Append(state.tracks[1].audio_data),
                    ),
                )
            }
            &&& !starts ==> {
                &&& next.playing == state.playing
                &&& next.output == state.output
            }
        }),
{
    audio_queue::law_taking_out_case_by_case(state, position - 1, opening);
}

/// Adding a track to a silent queue, case by case. The track goes to the end. Where others
/// stood in front of it, the first one of them leaves. The one that stands first then is
/// started where there is a sound output and it can be opened: exactly a stop and its data
/// are ordered, the queue counts as playing, and the answer gives the position at which
/// the new track was put in and names the one that was started. Where it cannot be played,
/// nothing is ordered, the queue stays silent, and the answer says why.
pub proof fn law_adding_to_silence(state: QueueState, track: Track, opening: Opening)
    requires
        !state.playing,
    ensures
        ({
            let next = after_adding(state, track, opening);
            let reply = adding_answer(state, track, opening);
            &&& state.tracks.len() == 0 ==> next.tracks == seq![track]
            &&& state.tracks.len() > 0 ==> next.tracks == state.tracks.skip(1) + seq![track]
            &&& state.output is Some && opening is Ok ==> {
                &&& next.playing
                &&& next.output == Some(
                    state.output->0.push(Order::Stop).push(
                        Order::Append(next.tracks[0].audio_data),
                    ),
                )
                &&& reply == PlayAnswer::Added(
                    "Added to queue (#"@ + text::decimal(state.tracks.len() + 1) + ")"@
                        + ". Now playing: "@ + next.tracks[0].title,
                )
            }
            &&& !(state.output is Some && opening is Ok) ==> {
                &&& !next.playing
                &&& next.output == state.output
                &&& state.output is None ==> reply == PlayAnswer::NotPlayed(
                    "Error playing audio: "@ + "Audio output not available"@,
                )
                &&& state.output is Some ==> reply == PlayAnswer::NotPlayed(
                    "Error playing audio: "@ + opening->Err_0,
                )
            }
        }),
{
    let longer = state.with_track(track);
    audio_queue::law_moving_on_case_by_case(longer, opening);
    if state.tracks.len() == 0 {
        assert(longer.tracks =~= seq![track]);
    } else {
        assert(longer.tracks.skip(1) =~= state.tracks.skip(1) + seq![track]);
    }
}

/// The track that is opened when a track is added to a silent queue is the one that
/// stands first afterwards.
pub proof fn law_adding_opens_the_first(state: QueueState, track: Track, opening: Opening)
    requires
        !state.playing,
    ensures
        state.with_track(track).upcoming() == decoder::opened(
            after_adding(state, track, opening).tracks[0].audio_data,
        ),
{
    let longer = state.with_track(track);
    audio_queue::law_moving_on_case_by_case(longer, opening);
    audio_queue::law_upcoming_track_is_opened(longer);
}

/// A track added to a playing queue goes to the end and changes nothing else: nothing is
/// ordered. The answer gives its position.
pub proof fn law_adding_while_playing(state: QueueState, track: Track, opening: Opening)
    requires
        state.playing,
    ensures
        ({
            let next = after_adding(state, track, opening);
            &&& next.tracks == state.tracks + seq![track]
            &&& next.output == state.output
            &&& next.playing
            &&& adding_answer(state, track, opening) == PlayAnswer::Added(
                "Added to queue at position #"@ + text::decimal(state.tracks.len() + 1),
            )
        }),
{
    assert(state.tracks.push(track) =~= state.tracks + seq![track]);
}

/// The track that a download becomes has the sound, the title and the duration that were
/// fetched, and the address, the person and the time that it was asked for with.
pub proof fn law_track_is_what_was_asked_for(
    download: Download,
    url: Seq<char>,
    added_by: Seq<char>,
    added_at: SystemTime,
)
    ensures
        ({
            let track = requested_track(download, url, added_by, added_at);
            &&& track.audio_data == download.audio_data
            &&& track.title == download.title
            &&& track.duration == download.duration
            &&& track.url == url
            &&& track.added_by == added_by
            &&& track.added_at == added_at
        }),
{
}

/// Every report of moving on has its own answer, to a skip as well as to a track that was
/// added: a started track is named, and an error is quoted.
pub proof fn law_reports_are_quoted(position: nat, track: Track, message: Seq<char>)
    ensures
        skip_text(Ok(Some(track))) == "Skipped! Now playing: "@ + track.title,
        skip_text(Ok(None)) == "Skipped! Queue is now empty."@,
        skip_text(Err(message)) == "Error skipping: "@ + message,
        started_answer(position, Ok(Some(track))) == PlayAnswer::Added(
            "Added to queue (#"@ + text::decimal(position) + ")"@ + ". Now playing: "@
                + track.title,
        ),
        started_answer(position, Ok(None)) == PlayAnswer::Added(
            "Added to queue (#"@ + text::decimal(position) + ")"@,
        ),
        started_answer(position, Err(message)) == PlayAnswer::NotPlayed(
            "Error playing audio: "@ + message,
        ),
{
}

/// A sender with a user name is called by it, any other by the first name, and nobody
/// knows who sends a message without a sender.
pub proof fn law_senders_are_named(sender: Option<Sender>, name: String)
    requires
        call_ensures(sender_name, (sender,), name),
    ensures
        sender is None ==> name@ == "Unknown"@,
        sender matches Some(from) ==> {
            &&& from.username matches Some(username) ==> name@ == username@
            &&& from.username is None ==> name@ == from.first_name@
        },
{
}

/// What is said of a command or an answer is what it holds.
pub proof fn law_commands_and_answers_say_what_they_hold(
    url: String,
    position: usize,
    text: String,
)
    ensures
        FasterCommand::Help@ == Request::Help,
        FasterCommand::Queue@ == Request::Queue,
        FasterCommand::Play(url)@ == Request::Play(url@),
        FasterCommand::Stop@ == Request::Stop,
        FasterCommand::Pause@ == Request::Pause,
        FasterCommand::Resume@ == Request::Resume,
        FasterCommand::Clear@ == Request::Clear,
        FasterCommand::Skip@ == Request::Skip,
        FasterCommand::Remove(position)@ == Request::Remove(position),
        FasterCommand::NowPlaying@ == Request::NowPlaying,
        Reply::Descriptions@ == Answer::Descriptions,
        Reply::Text(text)@ == Answer::Text(text@),
        (Reply::Download { notice: text, url })@ == (Answer::Download { notice: text@, url: url@ }),
        PlayReply::Added(text)@ == PlayAnswer::Added(text@),
        PlayReply::NotPlayed(text)@ == PlayAnswer::NotPlayed(text@),
        PlayReply::Failed(text)@ == PlayAnswer::Failed(text@),
{
}

/// The command to skip, given to a queue with tracks, takes the first one out, unless it is
/// the only one of a silent queue. Where there is a sound output and the decoder gets
/// through the data of the track whose turn it is, exactly a stop and the data of the track
/// that is the first one now have been ordered, and the answer names that track.
pub proof fn law_skip_command_plays_what_it_names(queue: &mut AudioQueue, reply: Reply)
    requires
        call_ensures(handle_command, (queue, FasterCommand::Skip), reply),
    ensures
        old(queue)@.tracks.len() > 1 || old(queue)@.tracks.len() == 1 && old(queue)@.playing
            ==> final(queue)@.tracks == old(queue)@.tracks.skip(1),
        old(queue)@.tracks.len() > 1 && old(queue)@.output is Some && decoder::opened(
            old(queue)@.tracks[1].audio_data,
        ) is Ok ==> {
            &&& final(queue)@.playing
            &&& final(queue)@.output == Some(
                old(queue)@.output->0.push(Order::Stop).push(
                    Order::Append(final(queue)@.tracks[0].audio_data),
                ),
            )
            &&& reply@ == Answer::Text("Skipped! Now playing: "@ + final(queue)@.tracks[0].title)
        },
        old(queue)@.tracks.len() == 1 && old(queue)@.playing ==> {
            &&& final(queue)@.playing
            &&& final(queue)@.output == old(queue)@.output
            &&& reply@ == Answer::Text("Skipped! Queue is now empty."@)
        },
{
    law_skipping_case_by_case(old(queue)@, old(queue)@.upcoming());
    audio_queue::law_upcoming_track_is_opened(old(queue)@);
}

/// A fetched track that is added to a silent queue goes to the end, and the first one of
/// those in front of it leaves. Where there is a sound output and the decoder gets through
/// the data of the track that is the first one now, exactly a stop and those data have been
/// ordered, and the answer names that track. Added to a playing queue, a track orders
/// nothing. A failed download changes nothing and is answered with the reason.
pub proof fn law_finished_download_plays_what_it_names(
    queue: &mut AudioQueue,
    url: String,
    added_by: String,
    added_at: SystemTime,
    outcome: Result<DownloadedTrack, String>,
    reply: PlayReply,
)
    requires
        call_ensures(finish_play, (queue, url, added_by, added_at, outcome), reply),
    ensures
        outcome matches Err(message) ==> {
            &&& final(queue)@ == old(queue)@
            &&& reply@ == PlayAnswer::Failed("Error: "@ + message@)
        },
        outcome matches Ok(fetched) ==> {
            let track = Track {
                url: url@,
                title: fetched.title@,
                duration: fetched.duration,
                added_by: added_by@,
                added_at,
                audio_data: fetched.audio_data@,
            };
            &&& old(queue)@.playing || old(queue)@.tracks.len() == 0 ==> final(queue)@.tracks
                == old(queue)@.tracks.push(track)
            &&& !old(queue)@.playing && old(queue)@.tracks.len() > 0 ==> final(queue)@.tracks
                == old(queue)@.tracks.skip(1).push(track)
            &&& old(queue)@.playing ==> {
                &&& final(queue)@.playing
                &&& final(queue)@.output == old(queue)@.output
                &&& reply@ == PlayAnswer::Added(
                    "Added to queue at position #"@ + text::decimal(old(queue)@.tracks.len() + 1),
                )
            }
            &&& !old(queue)@.playing && old(queue)@.output is Some && decoder::opened(
                final(queue)@.tracks[0].audio_data,
            ) is Ok ==> {
                &&& final(queue)@.playing
                &&& final(queue)@.output == Some(
                    old(queue)@.output->0.push(Order::Stop).push(
                        Order::Append(final(queue)@.tracks[0].audio_data),
                    ),
                )
                &&& reply@ == PlayAnswer::Added(
                    "Added to queue (#"@ + text::decimal(old(queue)@.tracks.len() + 1) + ")"@
                        + ". Now playing: "@ + final(queue)@.tracks[0].title,
                )
            }
            &&& !old(queue)@.playing && !(old(queue)@.output is Some && decoder::opened(
                final(queue)@.tracks[0].audio_data,
            ) is Ok) ==> {
                &&& !final(queue)@.playing
                &&& final(queue)@.output == old(queue)@.output
                &&& reply@ is NotPlayed
            }
        },
{
    if let Ok(fetched) = outcome {
        let state = old(queue)@;
        let track = requested_track(fetched@, url@, added_by@, added_at);
        let opening = state.with_track(track).upcoming();
        if state.playing {
            law_adding_while_playing(state, track, opening);
            assert(state.tracks.push(track) =~= state.tracks + seq![track]);
        } else {
            law_adding_to_silence(state, track, opening);
            law_adding_opens_the_first(state, track, opening);
            if state.tracks.len() == 0 {
                assert(state.tracks.push(track) =~= seq![track]);
            } else {
                assert(state.tracks.skip(1).push(track) =~= state.tracks.skip(1) + seq![track]);
            }
        }
    }
}

} // verus!
