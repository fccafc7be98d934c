//! The queue of tracks and the commands for the sound output.

use crate::decoder;
use crate::decoder::Opening;
use crate::span;
use crate::span::Span;
use crate::text;
use std::time::SystemTime;
use vstd::prelude::*;
use vstd::string::*;

verus! {

/// A point in time as `std` keeps it. It is carried along and never looked into.
#[verifier::external_type_specification]
#[verifier::external_body]
pub struct ExSystemTime(SystemTime);

/// A track in the queue.
#[derive(Debug)]
pub struct QueueItem {
    pub url: String,
    pub title: String,
    pub duration: Option<Span>,
    pub added_by: String,
    pub added_at: SystemTime,
    pub audio_data: Vec<u8>,
}

/// What a [`QueueItem`] holds.
pub struct Track {
    pub url: Seq<char>,
    pub title: Seq<char>,
    pub duration: Option<Span>,
    pub added_by: Seq<char>,
    pub added_at: SystemTime,
    pub audio_data: Seq<u8>,
}

impl View for QueueItem {
    type V = Track;

    open spec fn view(&self) -> Track {
        Track {
            url: self.url@,
            title: self.title@,
            duration: self.duration,
            added_by: self.added_by@,
            added_at: self.added_at,
            audio_data: self.audio_data@,
        }
    }
}

impl Clone for QueueItem {
    fn clone(&self) -> (copy: Self)
        ensures
            copy@ == self@,
    {
        let audio_data = self.audio_data.clone();
        assert(audio_data@ =~= self.audio_data@);
        QueueItem {
            url: self.url.clone(),
            title: self.title.clone(),
            duration: self.duration,
            added_by: self.added_by.clone(),
            added_at: self.added_at,
            audio_data,
        }
    }
}

/// A command for the sound output.
#[derive(Debug)]
pub enum SinkCommand {
    /// Drop everything that is being played or waits to be played.
    Stop,
    /// Decode this audio data and play it after what is already there.
    Append(Vec<u8>),
    /// Hold playback.
    Pause,
    /// Go on after a pause.
    Play,
}

/// What a [`SinkCommand`] says.
pub enum Order {
    Stop,
    Append(Seq<u8>),
    Pause,
    Play,
}

impl View for SinkCommand {
    type V = Order;

    open spec fn view(&self) -> Order {
        match self {
            SinkCommand::Stop => Order::Stop,
            SinkCommand::Append(data) => Order::Append(data@),
            SinkCommand::Pause => Order::Pause,
            SinkCommand::Play => Order::Play,
        }
    }
}

/// The orders that a list of commands gives, in their order.
pub open spec fn orders(commands: Seq<SinkCommand>) -> Seq<Order> {
    commands.map_values(|command: SinkCommand| command@)
}

/// The tracks of a list of items, in their order.
pub open spec fn tracks(items: Seq<QueueItem>) -> Seq<Track> {
    items.map_values(|item: QueueItem| item@)
}

/// The result of moving on in the queue, with texts and tracks taken by their views.
pub open spec fn play_result(result: Result<Option<QueueItem>, String>) -> Result<
    Option<Track>,
    Seq<char>,
> {
    match result {
        Ok(Some(item)) => Ok(Some(item@)),
        Ok(None) => Ok(None),
        Err(message) => Err(message@),
    }
}

/// An [`AudioQueue`] as its callers see it.
#[verifier::ext_equal]
pub struct QueueState {
    /// The orders that the sound output has still to carry out, or `None` where there
    /// is no sound output.
    pub output: Option<Seq<Order>>,
    /// The tracks. The first one is the current track.
    pub tracks: Seq<Track>,
    /// Whether a track has been started and not been stopped since.
    pub playing: bool,
}

impl QueueState {
    /// An empty, silent queue on a sound output without orders.
    pub open spec fn created() -> QueueState {
        QueueState { output: Some(Seq::empty()), tracks: Seq::empty(), playing: false }
    }

    /// The same queue once the sound output has been handed its orders.
    pub open spec fn taken(self) -> QueueState {
        QueueState {
            output: match self.output {
                Some(_) => Some(Seq::empty()),
                None => None,
            },
            ..self
        }
    }

    /// The same queue with one more order for the sound output, if there is one.
    pub open spec fn ordered(self, order: Order) -> QueueState {
        QueueState {
            output: match self.output {
                Some(waiting) => Some(waiting.push(order)),
                None => None,
            },
            ..self
        }
    }

    /// The queue with one more track at its end.
    pub open spec fn with_track(self, track: Track) -> QueueState {
        QueueState { tracks: self.tracks.push(track), ..self }
    }

    /// The queue once playback has been stopped: the tracks stay.
    pub open spec fn stopped(self) -> QueueState {
        QueueState { playing: false, ..self.ordered(Order::Stop) }
    }

    /// The queue once all tracks have been taken out and playback has been stopped.
    pub open spec fn cleared(self) -> QueueState {
        (QueueState { tracks: Seq::empty(), ..self }).stopped()
    }

    /// The queue without its current track.
    pub open spec fn advanced(self) -> QueueState {
        QueueState { tracks: self.tracks.drop_first(), ..self }
    }

    /// The queue once `data` has replaced whatever the sound output was playing.
    pub open spec fn sounding(self, data: Seq<u8>) -> QueueState {
        self.ordered(Order::Stop).ordered(Order::Append(data))
    }

    /// Why `data` cannot be played, if `opening` is what opening a decoder over it
    /// comes to.
    pub open spec fn obstacle(self, opening: Opening) -> Option<Seq<char>> {
        if self.output is None {
            Some("Audio output not available"@)
        } else {
            match opening {
                Ok(_) => None,
                Err(message) => Some(message),
            }
        }
    }

    /// Whether a single track waits for its turn: nothing has been started, so moving
    /// on begins with this track and does not pass it over.
    pub open spec fn waiting(self) -> bool {
        !self.playing && self.tracks.len() == 1
    }

    /// What opening the track that moving on would start comes to: the one that waits
    /// for its turn, else the one behind the current track.
    pub open spec fn upcoming(self) -> Opening {
        decoder::opened(self.tracks[if self.waiting() { 0 } else { 1 }].audio_data)
    }

    /// The queue once its current track has been started, if `opening` is what opening
    /// that track comes to. A track that can be played replaces what is being played;
    /// with one that cannot be played nothing changes.
    pub open spec fn begun(self, opening: Opening) -> QueueState {
        if self.obstacle(opening) is Some {
            self
        } else {
            QueueState { playing: true, ..self.sounding(self.tracks[0].audio_data) }
        }
    }

    /// What starting the current track reports: that track, or why it cannot be played.
    pub open spec fn beginning(self, opening: Opening) -> Result<Option<Track>, Seq<char>> {
        match self.obstacle(opening) {
            Some(message) => Err(message),
            None => Ok(Some(self.tracks[0])),
        }
    }

    /// The queue once its current track has left and the next one, if there is one, has
    /// been started; `opening` is what opening the next one comes to. Without a next
    /// track, or with one that cannot be played, whatever sounds goes on.
    pub open spec fn passed(self, opening: Opening) -> QueueState {
        if self.tracks.len() == 1 {
            self.advanced()
        } else {
            self.advanced().begun(opening)
        }
    }

    /// The queue after moving on, if `opening` is what opening the upcoming track comes
    /// to. An empty queue is stopped. A single track that waits for its turn is
    /// started. Otherwise the current track leaves, and the next one is started.
    pub open spec fn moved_on(self, opening: Opening) -> QueueState {
        if self.tracks.len() == 0 {
            self.stopped()
        } else if self.waiting() {
            self.begun(opening)
        } else {
            self.passed(opening)
        }
    }

    /// What moving on reports: the track that starts, `None` where there is none to
    /// start, or why it cannot be played.
    pub open spec fn moving_on(self, opening: Opening) -> Result<
        Option<Track>,
        Seq<char>,
    > {
        if self.waiting() {
            self.beginning(opening)
        } else if self.tracks.len() <= 1 {
            Ok(None)
        } else {
            self.advanced().beginning(opening)
        }
    }

    /// The queue after moving on several times; the openings are those of the tracks
    /// that come up, in turn.
    pub open spec fn moved_on_by(self, openings: Seq<Opening>) -> QueueState
        decreases openings.len(),
    {
        if openings.len() == 0 {
            self
        } else {
            self.moved_on_by(openings.drop_last()).moved_on(openings.last())
        }
    }

    /// Whether it is time to move on: a track was started, and the sound output, which
    /// reports whether it is empty, has nothing left to play.
    pub open spec fn due(self, sink_empty: bool) -> bool {
        self.playing && (self.output is None || sink_empty)
    }

    /// The queue after a look at the sound output, which reports whether it is empty:
    /// where it is time to move on, the queue does. `opening` is what opening the
    /// upcoming track comes to.
    pub open spec fn ticked(self, sink_empty: bool, opening: Opening) -> QueueState {
        if self.due(sink_empty) {
            self.moved_on(opening)
        } else {
            self
        }
    }

    /// The queue after several looks at the sound output.
    pub open spec fn ticked_by(self, ticks: Seq<(bool, Opening)>) -> QueueState
        decreases ticks.len(),
    {
        if ticks.len() == 0 {
            self
        } else {
            let (sink_empty, opening) = ticks.last();
            self.ticked_by(ticks.drop_last()).ticked(sink_empty, opening)
        }
    }

    /// How many looks at the sound output found nothing left to play.
    pub open spec fn silences(self, ticks: Seq<(bool, Opening)>) -> nat
        decreases ticks.len(),
    {
        if ticks.len() == 0 {
            0
        } else {
            let (sink_empty, _) = ticks.last();
            self.silences(ticks.drop_last()) + if self.output is None || sink_empty {
                1nat
            } else {
                0
            }
        }
    }

    /// Whether this queue follows from `earlier` by giving further orders to the same
    /// sound output.
    pub open spec fn continues(self, earlier: QueueState) -> bool {
        match (earlier.output, self.output) {
            (Some(before), Some(after)) => before.is_prefix_of(after),
            (None, None) => true,
            _ => false,
        }
    }

    /// The queue after the track at `index` has been taken out. In place of the current
    /// track the next one is started; `opening` is what opening that one comes to.
    pub open spec fn without(self, index: int, opening: Opening) -> QueueState {
        if index == 0 && self.tracks.len() > 0 {
            self.passed(opening)
        } else if 0 < index < self.tracks.len() {
            QueueState { tracks: self.tracks.remove(index), ..self }
        } else {
            self
        }
    }
}

/// A call that can change a queue. What opening the track to be started comes to is
/// part of the call, as is what the sound output reports.
pub enum Call {
    Add(Track),
    /// Play data that have been opened.
    Sound(Seq<u8>, Opening),
    /// Record whether a track has started.
    Record(bool),
    Stop,
    Pause,
    Resume,
    Clear,
    MoveOn(Opening),
    Tick(bool, Opening),
    Remove(nat, Opening),
    TakeCommands,
}

impl QueueState {
    /// The queue after a call.
    pub open spec fn after(self, call: Call) -> QueueState {
        match call {
            Call::Add(track) => self.with_track(track),
            Call::Sound(data, opening) => if self.obstacle(opening) is Some {
                self
            } else {
                self.sounding(data)
            },
            Call::Record(started) => QueueState { playing: self.playing || started, ..self },
            Call::Stop => self.stopped(),
            Call::Pause => self.ordered(Order::Pause),
            Call::Resume => self.ordered(Order::Play),
            Call::Clear => self.cleared(),
            Call::MoveOn(opening) => self.moved_on(opening),
            Call::Tick(sink_empty, opening) => self.ticked(sink_empty, opening),
            Call::Remove(index, opening) => self.without(index as int, opening),
            Call::TakeCommands => self.taken(),
        }
    }

    /// The queue after some calls, one after the other.
    pub open spec fn after_all(self, calls: Seq<Call>) -> QueueState
        decreases calls.len(),
    {
        if calls.len() == 0 {
            self
        } else {
            self.after_all(calls.drop_last()).after(calls.last())
        }
    }

    /// Whether a call starts a track: moving on that reports one, taking out the current
    /// track where the next one can be played, or recording that a track has started.
    pub open spec fn started_by(self, call: Call) -> bool {
        match call {
            Call::Record(started) => started,
            Call::MoveOn(opening) => self.moving_on(opening) matches Ok(Some(_)),
            Call::Tick(sink_empty, opening) => self.due(sink_empty) && (self.moving_on(
                opening,
            ) matches Ok(Some(_))),
            Call::Remove(index, opening) => index == 0 && self.tracks.len() > 1 && self.obstacle(
                opening,
            ) is None,
            _ => false,
        }
    }

    /// Whether a call ends playback: a stop, a clearing, or moving on without tracks.
    pub open spec fn silenced_by(self, call: Call) -> bool {
        match call {
            Call::Stop | Call::Clear => true,
            Call::MoveOn(_) => self.tracks.len() == 0,
            Call::Tick(sink_empty, _) => self.due(sink_empty) && self.tracks.len() == 0,
            _ => false,
        }
    }

    /// Whether the call at `index` starts a track.
    pub open spec fn started_at(self, calls: Seq<Call>, index: int) -> bool {
        0 <= index < calls.len() && self.after_all(calls.take(index)).started_by(calls[index])
    }

    /// Whether the call at `index` ends playback.
    pub open spec fn silenced_at(self, calls: Seq<Call>, index: int) -> bool {
        0 <= index < calls.len() && self.after_all(calls.take(index)).silenced_by(calls[index])
    }

    /// Whether the call at `index` starts a track, and none after it ends playback.
    pub open spec fn sounds_since(self, calls: Seq<Call>, index: int) -> bool {
        &&& self.started_at(calls, index)
        &&& forall|later: int| index < later < calls.len() ==> !#[trigger] self.silenced_at(
            calls,
            later,
        )
    }
}

/// One line of the listing: a mark in front of the current track, the position, the
/// duration in brackets, the title, and who added it.
pub open spec fn queue_line(index: int, track: Track) -> Seq<char> {
    (if index == 0 { "▶ "@ } else { "  "@ }) + text::decimal((index + 1) as nat) + ". ["@
        + span::clock_or_unknown(track.duration) + "] "@ + track.title + " - added by "@
        + track.added_by + "\n"@
}

/// The lines of all tracks, one after the other.
pub open spec fn queue_lines(listed: Seq<Track>) -> Seq<char>
    decreases listed.len(),
{
    if listed.len() == 0 {
        Seq::empty()
    } else {
        queue_lines(listed.drop_last()) + queue_line(listed.len() - 1, listed.last())
    }
}

/// The listing of a queue.
pub open spec fn queue_info(listed: Seq<Track>) -> Seq<char> {
    if listed.len() == 0 {
        "Queue is empty"@
    } else {
        "Queue ("@ + text::decimal(listed.len()) + " items):\n"@ + queue_lines(listed)
    }
}

/// A sound output, as the list of commands that wait to be carried out.
#[derive(Debug)]
struct CommandSink {
    commands: Vec<SinkCommand>,
}

impl CommandSink {
    spec fn orders(self) -> Seq<Order> {
        orders(self.commands@)
    }

    fn order(&mut self, command: SinkCommand)
        ensures
            final(self).orders() == old(self).orders().push(command@),
    {
        self.commands.push(command);
        assert(self.orders() =~= old(self).orders().push(command@));
    }
}

/// The queue of tracks together with its sound output.
///
/// The queue decides what the sound output has to do and keeps these commands until
/// [`AudioQueue::take_commands`] hands them out.
#[derive(Debug)]
pub struct AudioQueue {
    sink: Option<CommandSink>,
    queue: Vec<QueueItem>,
    is_playing: bool,
}

impl View for AudioQueue {
    type V = QueueState;

    closed spec fn view(&self) -> QueueState {
        QueueState {
            output: match self.sink {
                Some(sink) => Some(sink.orders()),
                None => None,
            },
            tracks: tracks(self.queue@),
            playing: self.is_playing,
        }
    }
}

/// The text of the error for a sound output that could not be opened.
pub open spec fn open_error(message: Seq<char>) -> Seq<char> {
    "Failed to open default audio stream: "@ + message
}

fn push_queue_line(info: &mut String, index: usize, item: &QueueItem)
    requires
        index < usize::MAX,
    ensures
        final(info)@ == old(info)@ + queue_line(index as int, item@),
{
    if index == 0 {
        info.append("▶ ");
    } else {
        info.append("  ");
    }
    text::push_decimal(info, (index + 1) as u64);
    info.append(". [");
    span::push_clock(info, item.duration);
    info.append("] ");
    info.append(item.title.as_str());
    info.append(" - added by ");
    info.append(item.added_by.as_str());
    info.append("\n");
    assert(info@ =~= old(info)@ + queue_line(index as int, item@));
}

impl AudioQueue {
    /// An empty, silent queue on a sound output. `opened` is how opening the output
    /// ended: an error comes with its text.
    pub fn new(opened: Result<(), String>) -> (result: Result<Self, String>)
        ensures
            match opened {
                Ok(_) => result matches Ok(queue) && queue@ == QueueState::created(),
                Err(message) => result matches Err(text) && text@ == open_error(message@),
            },
    {
        match opened {
            Ok(_) => {
                let created = AudioQueue {
                    sink: Some(CommandSink { commands: Vec::new() }),
                    queue: Vec::new(),
                    is_playing: false,
                };
                assert(created@ =~= QueueState::created()) by {
                    assert(created@.output->0 =~= Seq::empty());
                }
                Ok(created)
            },
            Err(message) => {
                let mut text = String::from_str("Failed to open default audio stream: ");
                text.append(message.as_str());
                Err(text)
            },
        }
    }

    /// Puts a track at the end of the queue and returns its position, counted from one.
    pub fn add_to_queue(&mut self, item: QueueItem) -> (position: usize)
        ensures
            final(self)@ == old(self)@.with_track(item@),
            position == old(self)@.tracks.len() + 1,
    {
        self.queue.push(item);
        assert(self@.tracks =~= old(self)@.tracks.push(item@));
        self.queue.len()
    }

    fn order(&mut self, command: SinkCommand)
        ensures
            final(self)@ == old(self)@.ordered(command@),
    {
        if let Some(sink) = &mut self.sink {
            sink.order(command);
        }
    }

    /// Stops playback. The tracks stay in the queue.
    pub fn stop(&mut self)
        ensures
            final(self)@ == old(self)@.stopped(),
    {
        self.order(SinkCommand::Stop);
        self.is_playing = false;
    }

    /// Replaces whatever the sound output is playing by `data`, if `opening`, which
    /// is how opening a decoder over `data` ended, is no error.
    pub fn play_opened(&mut self, data: Vec<u8>, opening: Result<Option<Span>, String>) -> (result:
        Result<(), String>)
        ensures
            match old(self)@.obstacle(decoder::outcome(opening)) {
                Some(message) => {
                    &&& result matches Err(text) && text@ == message
                    &&& final(self)@ == old(self)@
                },
                None => {
                    &&& result is Ok
                    &&& final(self)@ == old(self)@.sounding(data@)
                },
            },
    {
        if self.sink.is_some() {
            match opening {
                Ok(_) => {
                    // Whatever is being played makes way for the new track.
                    self.order(SinkCommand::Stop);
                    self.order(SinkCommand::Append(data));
                    Ok(())
                },
                Err(message) => Err(message),
            }
        } else {
            Err(String::from_str("Audio output not available"))
        }
    }

    /// Replaces whatever the sound output is playing by `data`, if it can be decoded.
    fn play_audio(&mut self, data: Vec<u8>) -> (result: Result<(), String>)
        ensures
            match old(self)@.obstacle(decoder::opened(data@)) {
                Some(message) => {
                    &&& result matches Err(text) && text@ == message
                    &&& final(self)@ == old(self)@
                },
                None => {
                    &&& result is Ok
                    &&& final(self)@ == old(self)@.sounding(data@)
                },
            },
    {
        if self.sink.is_some() {
            let copy = data.clone();
            assert(copy@ =~= data@);
            let opening = decoder::open(copy);
            self.play_opened(data, opening)
        } else {
            Err(String::from_str("Audio output not available"))
        }
    }

    /// Records how starting the track `item` ended: a track that has started is what
    /// moving on reports, and counts as playing; an error is handed on.
    pub fn finish_play_next(&mut self, item: QueueItem, played: Result<(), String>) -> (result:
        Result<Option<QueueItem>, String>)
        ensures
            match played {
                Ok(_) => {
                    &&& play_result(result) == Ok::<Option<Track>, Seq<char>>(Some(item@))
                    &&& final(self)@ == (QueueState { playing: true, ..old(self)@ })
                },
                Err(message) => {
                    &&& play_result(result) == Err::<Option<Track>, Seq<char>>(message@)
                    &&& final(self)@ == old(self)@
                },
            },
    {
        match played {
            Ok(_) => {
                self.is_playing = true;
                Ok(Some(item))
            },
            Err(message) => Err(message),
        }
    }

    /// Starts the current track.
    fn start_current(&mut self) -> (result: Result<Option<QueueItem>, String>)
        requires
            old(self)@.tracks.len() > 0,
        ensures
            final(self)@ == old(self)@.begun(decoder::opened(old(self)@.tracks[0].audio_data)),
            play_result(result) == old(self)@.beginning(
                decoder::opened(old(self)@.tracks[0].audio_data),
            ),
    {
        let item = self.queue[0].clone();
        let data = item.audio_data.clone();
        assert(data@ =~= item.audio_data@);
        let played = self.play_audio(data);
        self.finish_play_next(item, played)
    }

    /// Takes the current track out of the queue and starts the one behind it.
    fn pass_current(&mut self) -> (result: Result<Option<QueueItem>, String>)
        requires
            old(self)@.tracks.len() > 0,
        ensures
            final(self)@ == old(self)@.passed(decoder::opened(old(self)@.tracks[1].audio_data)),
            play_result(result) == if old(self)@.tracks.len() == 1 {
                Ok(None)
            } else {
                old(self)@.advanced().beginning(decoder::opened(old(self)@.tracks[1].audio_data))
            },
    {
        self.queue.remove(0);
        assert(self@ =~= old(self)@.advanced());
        if self.queue.is_empty() {
            return Ok(None);
        }
        self.start_current()
    }

    /// Moves on: takes the current track out of the queue and starts the one behind it.
    /// A single track in a queue that is not playing has not had its turn: it is
    /// started and stays the current track.
    pub fn play_next(&mut self) -> (result: Result<Option<QueueItem>, String>)
        ensures
            final(self)@ == old(self)@.moved_on(old(self)@.upcoming()),
            play_result(result) == old(self)@.moving_on(old(self)@.upcoming()),
    {
        if self.queue.is_empty() {
            self.stop();
            return Ok(None);
        }
        if !self.is_playing && self.queue.len() == 1 {
            self.start_current()
        } else {
            self.pass_current()
        }
    }

    /// Holds playback.
    pub fn pause(&mut self)
        ensures
            final(self)@ == old(self)@.ordered(Order::Pause),
    {
        self.order(SinkCommand::Pause);
    }

    /// Goes on after a pause.
    pub fn resume(&mut self)
        ensures
            final(self)@ == old(self)@.ordered(Order::Play),
    {
        self.order(SinkCommand::Play);
    }

    /// Takes all tracks out of the queue and stops playback.
    pub fn clear_queue(&mut self)
        ensures
            final(self)@ == old(self)@.cleared(),
    {
        self.queue.clear();
        assert(self@.tracks =~= Seq::empty());
        self.stop();
    }

    /// Takes the track at `index`, counted from zero, out of the queue and returns it.
    /// Without such a track nothing happens.
    pub fn remove_from_queue(&mut self, index: usize) -> (removed: Option<QueueItem>)
        ensures
            final(self)@ == old(self)@.without(index as int, old(self)@.upcoming()),
            match removed {
                Some(item) => index < old(self)@.tracks.len() && item@
                    == old(self)@.tracks[index as int],
                None => index >= old(self)@.tracks.len(),
            },
    {
        if index < self.queue.len() {
            if index == 0 {
                let item = self.queue[0].clone();
                let _ = self.pass_current();
                Some(item)
            } else {
                let item = self.queue.remove(index);
                assert(self@.tracks =~= old(self)@.tracks.remove(index as int));
                Some(item)
            }
        } else {
            None
        }
    }

    /// Skips the current track: the same as [`AudioQueue::play_next`].
    pub fn skip_current(&mut self) -> (result: Result<Option<QueueItem>, String>)
        ensures
            final(self)@ == old(self)@.moved_on(old(self)@.upcoming()),
            play_result(result) == old(self)@.moving_on(old(self)@.upcoming()),
    {
        self.play_next()
    }

    /// A listing of the queue for people to read.
    pub fn get_queue_info(&self) -> (info: String)
        ensures
            info@ == queue_info(self@.tracks),
    {
        if self.queue.is_empty() {
            return String::from_str("Queue is empty");
        }
        let mut info = String::from_str("Queue (");
        text::push_decimal(&mut info, self.queue.len() as u64);
        info.append(" items):\n");
        let ghost head = info@;
        let mut i: usize = 0;
        assert(self@.tracks.take(0) =~= Seq::empty());
        while i < self.queue.len()
            invariant
                i <= self.queue.len(),
                self@.tracks.len() == self.queue.len(),
                info@ == head + queue_lines(self@.tracks.take(i as int)),
            decreases self.queue.len() - i,
        {
            let ghost before = info@;
            push_queue_line(&mut info, i, &self.queue[i]);
            proof {
                let listed = self@.tracks.take(i + 1);
                assert(listed.drop_last() =~= self@.tracks.take(i as int));
                assert(listed.last() == self.queue@[i as int]@);
                assert(info@ =~= head + queue_lines(listed));
            }
            i += 1;
        }
        assert(self@.tracks.take(i as int) =~= self@.tracks);
        info
    }

    /// The current track: the first one of the queue.
    pub fn get_current_item(&self) -> (current: Option<&QueueItem>)
        ensures
            match current {
                Some(item) => self@.tracks.len() > 0 && item@ == self@.tracks[0],
                None => self@.tracks.len() == 0,
            },
    {
        if self.queue.is_empty() {
            None
        } else {
            Some(&self.queue[0])
        }
    }

    /// Whether a track has been started and not been stopped since.
    pub fn is_playing(&self) -> (playing: bool)
        ensures
            playing == self@.playing,
    {
        self.is_playing
    }

    /// The number of tracks in the queue.
    pub fn queue_length(&self) -> (length: usize)
        ensures
            length == self@.tracks.len(),
    {
        self.queue.len()
    }

    /// Whether there is nothing left to play. `sink_empty` is what the sound output
    /// reports; without a sound output there is never anything to play.
    pub fn sink_ran_out(&self, sink_empty: bool) -> (ran_out: bool)
        ensures
            ran_out == (self@.output is None || sink_empty),
    {
        match &self.sink {
            Some(_) => sink_empty,
            None => true,
        }
    }

    /// Whether it is time to move on: a track was started, and its sound has ended.
    pub fn should_play_next(&self, sink_empty: bool) -> (due: bool)
        ensures
            due == self@.due(sink_empty),
    {
        self.is_playing() && self.sink_ran_out(sink_empty)
    }

    /// Moves on if it is time to, and reports what that came to. `sink_empty` is what
    /// the sound output reports.
    pub fn tick(&mut self, sink_empty: bool) -> (moved: Option<Result<Option<QueueItem>, String>>)
        ensures
            final(self)@ == old(self)@.ticked(sink_empty, old(self)@.upcoming()),
            match moved {
                Some(result) => old(self)@.due(sink_empty) && play_result(result)
                    == old(self)@.moving_on(old(self)@.upcoming()),
                None => !old(self)@.due(sink_empty),
            },
    {
        if self.should_play_next(sink_empty) {
            Some(self.play_next())
        } else {
            None
        }
    }

    /// Hands out the commands that the sound output has to carry out, oldest first.
    /// None of them is handed out twice.
    pub fn take_commands(&mut self) -> (commands: Vec<SinkCommand>)
        ensures
            match old(self)@.output {
                Some(waiting) => commands@.len() == waiting.len() && orders(commands@) == waiting,
                None => commands@.len() == 0,
            },
            final(self)@ == old(self)@.taken(),
    {
        let mut commands: Vec<SinkCommand> = Vec::new();
        if let Some(sink) = &mut self.sink {
            std::mem::swap(&mut commands, &mut sink.commands);
            assert(orders(sink.commands@) =~= Seq::empty());
        }
        commands
    }
}

/// Moving on takes the current track out of the queue and leaves the others in their
/// order, whether or not the next one can be played. A single track that waits for its
/// turn stays.
pub proof fn law_moving_on_takes_the_first(state: QueueState, opening: Opening)
    ensures
        state.tracks.len() > 0 && !state.waiting() ==> state.moved_on(opening).tracks
            == state.tracks.drop_first(),
        state.tracks.len() == 0 || state.waiting() ==> state.moved_on(opening).tracks
            == state.tracks,
{
}

/// A single track that waits for its turn is started where it can be played: it is
/// reported, replaces whatever the sound output holds, counts as playing and stays in
/// the queue. Where it cannot be played, the reason is reported and nothing changes.
pub proof fn law_waiting_track_is_started(state: QueueState, opening: Opening)
    requires
        !state.playing,
        state.tracks.len() == 1,
    ensures
        state.obstacle(opening) is None ==> {
            &&& state.moving_on(opening) == Ok::<Option<Track>, Seq<char>>(Some(state.tracks[0]))
            &&& state.moved_on(opening) == (QueueState {
                playing: true,
                ..state.sounding(state.tracks[0].audio_data)
            })
        },
        state.obstacle(opening) matches Some(message) ==> {
            &&& state.moving_on(opening) == Err::<Option<Track>, Seq<char>>(message)
            &&& state.moved_on(opening) == state
        },
{
}

/// Tracks come up in the order in which they were added: moving on some times takes
/// out that many tracks from the front. Past the last track this needs that the queue
/// plays when it gets there: otherwise that track has still to have its turn.
pub proof fn law_first_in_first_out(state: QueueState, openings: Seq<Opening>)
    requires
        openings.len() <= state.tracks.len(),
        0 < openings.len() == state.tracks.len() ==> state.moved_on_by(openings.drop_last()).playing,
    ensures
        state.moved_on_by(openings).tracks == state.tracks.skip(openings.len() as int),
    decreases openings.len(),
{
    if openings.len() == 0 {
        assert(state.tracks.skip(0) =~= state.tracks);
    } else {
        let earlier = openings.drop_last();
        law_first_in_first_out(state, earlier);
        law_moving_on_takes_the_first(state.moved_on_by(earlier), openings.last());
        assert(state.tracks.skip(earlier.len() as int).drop_first() =~= state.tracks.skip(
            openings.len() as int,
        ));
    }
}

/// A track that is added becomes the current track once the queue has moved on past
/// all the tracks in front of it, and it is alone then.
pub proof fn law_added_track_becomes_current(
    state: QueueState,
    track: Track,
    openings: Seq<Opening>,
)
    requires
        openings.len() == state.tracks.len(),
    ensures
        state.with_track(track).moved_on_by(openings).tracks == seq![track],
{
    law_first_in_first_out(state.with_track(track), openings);
    assert(state.with_track(track).tracks.skip(openings.len() as int) =~= seq![track]);
}

/// A queue that moves on each time its sound ends falls silent: past its last track it
/// is empty, and once more past that it no longer counts as playing. It has to play
/// when it gets to its last track: otherwise that track has still to have its turn.
pub proof fn law_queue_falls_silent(state: QueueState, openings: Seq<Opening>)
    requires
        openings.len() == state.tracks.len() + 1,
        state.tracks.len() > 0 ==> state.moved_on_by(
            openings.drop_last().drop_last(),
        ).playing,
    ensures
        state.moved_on_by(openings).tracks.len() == 0,
        !state.moved_on_by(openings).playing,
{
    law_first_in_first_out(state, openings.drop_last());
}

/// Looking at the sound output again and again plays a queue to its end. Each look that
/// finds nothing left to play takes out the current track, in the order in which they
/// were added; the look after the last track ends playback, and no later one begins it
/// again. A look that finds the sound output busy changes nothing.
pub proof fn law_ticks_play_the_queue(state: QueueState, ticks: Seq<(bool, Opening)>)
    requires
        state.playing,
    ensures
        state.silences(ticks) <= state.tracks.len() ==> {
            &&& state.ticked_by(ticks).playing
            &&& state.ticked_by(ticks).tracks == state.tracks.skip(state.silences(ticks) as int)
        },
        state.silences(ticks) > state.tracks.len() ==> {
            &&& !state.ticked_by(ticks).playing
            &&& state.ticked_by(ticks).tracks.len() == 0
        },
        state.ticked_by(ticks).output is None <==> state.output is None,
    decreases ticks.len(),
{
    if ticks.len() == 0 {
        assert(state.tracks.skip(0) =~= state.tracks);
    } else {
        let earlier = ticks.drop_last();
        law_ticks_play_the_queue(state, earlier);
        let passed = state.silences(earlier) as int;
        if passed < state.tracks.len() {
            assert(state.tracks.skip(passed).drop_first() =~= state.tracks.skip(passed + 1));
        }
    }
}

/// A queue that is not playing is left alone by every look at the sound output.
pub proof fn law_ticks_leave_silence(state: QueueState, ticks: Seq<(bool, Opening)>)
    requires
        !state.playing,
    ensures
        state.ticked_by(ticks) == state,
    decreases ticks.len(),
{
    if ticks.len() > 0 {
        law_ticks_leave_silence(state, ticks.drop_last());
    }
}

/// What moving on reports is what it did. It reports a track exactly when that track
/// is now the current one, has been handed to the sound output in place of everything
/// else, and counts as playing. Otherwise a queue with tracks gives no order and
/// counts as playing or not as before.
pub proof fn law_report_is_what_happened(state: QueueState, opening: Opening)
    ensures
        state.moving_on(opening) matches Ok(Some(track)) ==> {
            &&& state.moved_on(opening).tracks.len() > 0
            &&& state.moved_on(opening).tracks[0] == track
            &&& state.moved_on(opening).playing
            &&& state.output is Some
            &&& state.moved_on(opening).output == Some(
                state.output->0.push(Order::Stop).push(Order::Append(track.audio_data)),
            )
        },
        state.tracks.len() > 0 && !(state.moving_on(opening) matches Ok(Some(_))) ==> {
            &&& state.moved_on(opening).output == state.output
            &&& state.moved_on(opening).playing == state.playing
        },
        state.tracks.len() == 0 ==> state.moving_on(opening) == Ok::<Option<Track>, Seq<char>>(None)
            && !state.moved_on(opening).playing,
{
}

/// A new queue counts as playing after some calls exactly when one of them started a
/// track, and none after that one ended playback.
pub proof fn law_when_the_queue_plays(calls: Seq<Call>)
    ensures
        QueueState::created().after_all(calls).playing <==> exists|index: int|
            QueueState::created().sounds_since(calls, index),
    decreases calls.len(),
{
    let start = QueueState::created();
    if calls.len() > 0 {
        let earlier = calls.drop_last();
        let last = calls.len() - 1;
        law_when_the_queue_plays(earlier);
        assert(calls.take(last) =~= earlier);
        assert forall|index: int| 0 <= index < last implies start.started_at(calls, index)
            == start.started_at(earlier, index) && start.silenced_at(calls, index)
            == start.silenced_at(earlier, index) by {
            assert(calls.take(index) =~= earlier.take(index));
        }
        if start.after_all(calls).playing {
            if start.started_at(calls, last) {
                assert(start.sounds_since(calls, last));
            } else {
                let index = choose|index: int| start.sounds_since(earlier, index);
                assert(start.sounds_since(calls, index));
            }
        }
        if exists|index: int| start.sounds_since(calls, index) {
            let index = choose|index: int| start.sounds_since(calls, index);
            if index < last {
                assert(!start.silenced_at(calls, last));
                assert(start.sounds_since(earlier, index)) by {
                    assert forall|later: int| index < later < earlier.len() implies
                        !#[trigger] start.silenced_at(earlier, later) by {
                        assert(!start.silenced_at(calls, later));
                    }
                }
            }
        }
    }
}

/// Taking a track out takes out that track and no other, also where it is the current
/// one and the next one cannot be played. Taking out any but the current track does
/// not touch what is being played.
pub proof fn law_removal_takes_one_track(state: QueueState, index: int, opening: Opening)
    ensures
        0 <= index < state.tracks.len() ==> state.without(index, opening).tracks
            == state.tracks.remove(index),
        index != 0 ==> {
            &&& state.without(index, opening).output == state.output
            &&& state.without(index, opening).playing == state.playing
        },
        !(0 <= index < state.tracks.len()) ==> state.without(index, opening) == state,
{
    if index == 0 && state.tracks.len() > 0 {
        assert(state.tracks.remove(0) =~= state.tracks.drop_first());
    }
}

/// Nothing takes the sound output away, or takes back an order that was given.
pub proof fn law_orders_are_kept(
    state: QueueState,
    track: Track,
    order: Order,
    index: int,
    opening: Opening,
)
    ensures
        state.with_track(track).continues(state),
        state.ordered(order).continues(state),
        state.stopped().continues(state),
        state.cleared().continues(state),
        state.moved_on(opening).continues(state),
        state.without(index, opening).continues(state),
{
    assert(state.continues(state));
    assert(state.ordered(order).continues(state));
    assert(state.moved_on(opening).continues(state));
}

/// A new queue keeps its sound output, whatever is called on it.
pub proof fn law_output_stays(calls: Seq<Call>)
    ensures
        QueueState::created().after_all(calls).output is Some,
    decreases calls.len(),
{
    if calls.len() > 0 {
        law_output_stays(calls.drop_last());
    }
}

/// A new queue, whatever has been called on it, fails to play a track only where
/// opening the track fails, and then for that reason.
pub proof fn law_errors_come_from_opening(calls: Seq<Call>, opening: Opening)
    ensures
        ({
            let state = QueueState::created().after_all(calls);
            &&& state.obstacle(opening) is Some <==> opening is Err
            &&& state.moving_on(opening) matches Err(message) ==> opening == Err::<
                Option<(u64, u32)>,
                Seq<char>,
            >(message)
        }),
{
    law_output_stays(calls);
}

/// After a stop or a clearing it is not time to move on, whatever the sound output
/// reports. A stop keeps the tracks; a clearing keeps none.
pub proof fn law_stop_is_silence(state: QueueState, sink_empty: bool)
    ensures
        !state.stopped().due(sink_empty),
        state.stopped().tracks == state.tracks,
        !state.cleared().due(sink_empty),
        state.cleared().tracks.len() == 0,
{
}

/// Moving on, case by case. With two tracks or more the first one leaves; where there is
/// a sound output and the second one can be opened, it is reported, and it is handed to
/// the sound output behind a stop. A single track leaves a playing queue, and what sounds
/// goes on; in a silent queue it is the one that is started, and it stays. A queue without
/// tracks is stopped. Where the track to start cannot be opened, or there is no sound
/// output, that is reported, and nothing is ordered or starts to count as playing.
pub proof fn law_moving_on_case_by_case(state: QueueState, opening: Opening)
    ensures
        ({
            let next = state.moved_on(opening);
            let report = state.moving_on(opening);
            let starts = if state.tracks.len() == 1 {
                state.tracks[0]
            } else {
                state.tracks[1]
            };
            let has_next = state.tracks.len() > 1 || state.tracks.len() == 1 && !state.playing;
            &&& state.tracks.len() > 1 ==> next.tracks == state.tracks.skip(1)
            &&& state.tracks.len() == 1 && state.playing ==> next.tracks.len() == 0
            &&& state.tracks.len() == 1 && !state.playing ==> next.tracks == state.tracks
            &&& state.tracks.len() == 0 ==> next.tracks.len() == 0
            &&& has_next && state.output is Some && opening is Ok ==> {
                &&& report == Ok::<Option<Track>, Seq<char>>(Some(starts))
                &&& next.tracks[0] == starts
                &&& next.playing
                &&& next.output == Some(
                    state.output->0.push(Order::Stop).push(Order::Append(starts.audio_data)),
                )
            }
            &&& has_next && !(state.output is Some && opening is Ok) ==> {
                &&& next.playing == state.playing
                &&& next.output == state.output
                &&& state.output is None ==> report == Err::<Option<Track>, Seq<char>>(
                    "Audio output not available"@,
                )
                &&& state.output is Some ==> report == Err::<Option<Track>, Seq<char>>(
                    opening->Err_0,
                )
            }
            &&& state.tracks.len() == 1 && state.playing ==> {
                &&& report == Ok::<Option<Track>, Seq<char>>(None)
                &&& next.playing
                &&& next.output == state.output
            }
            &&& state.tracks.len() == 0 ==> {
                &&& report == Ok::<Option<Track>, Seq<char>>(None)
                &&& !next.playing
                &&& state.output is None ==> next.output is None
                &&& state.output matches Some(given) ==> next.output == Some(
                    given.push(Order::Stop),
                )
            }
        }),
{
    assert(state.tracks.len() > 0 ==> state.tracks.drop_first() =~= state.tracks.skip(1));
}

/// The track that is opened to see whether it can be started is the one that would be
/// started: the second one, or the only one of a queue that is not playing.
pub proof fn law_upcoming_track_is_opened(state: QueueState)
    ensures
        state.tracks.len() > 1 ==> state.upcoming() == decoder::opened(state.tracks[1].audio_data),
        state.tracks.len() == 1 && !state.playing ==> state.upcoming() == decoder::opened(
            state.tracks[0].audio_data,
        ),
{
}

/// What happens to the second track once it is its turn rests on the decoder alone: if
/// the decoder gets through its data, the track is played, and if not, the error says
/// what the decoder said.
pub proof fn law_decoder_decides_what_is_played(state: QueueState)
    requires
        state.tracks.len() > 1,
        state.output is Some,
    ensures
        match decoder::attempted(state.tracks[1].audio_data) {
            Some(Ok(_)) => {
                &&& state.moving_on(state.upcoming()) == Ok::<Option<Track>, Seq<char>>(
                    Some(state.tracks[1]),
                )
                &&& state.moved_on(state.upcoming()).output == Some(
                    state.output->0.push(Order::Stop).push(
                        Order::Append(state.tracks[1].audio_data),
                    ),
                )
            },
            Some(Err(message)) => {
                &&& state.moving_on(state.upcoming()) == Err::<Option<Track>, Seq<char>>(message)
                &&& state.moved_on(state.upcoming()).output == state.output
            },
            None => {
                &&& state.moving_on(state.upcoming()) == Err::<Option<Track>, Seq<char>>(
                    "Malformed audio data"@,
                )
                &&& state.moved_on(state.upcoming()).output == state.output
            },
        },
{
}

/// A look at the sound output, case by case. It changes something only in a queue that
/// counts as playing while the sound output is empty, or is missing. The current track
/// leaves then. Where there is a sound output and the next track can be opened, exactly
/// a stop and the data of that track are ordered; where it cannot, or where there is no
/// next track, nothing is ordered. A queue that had no track left is stopped.
pub proof fn law_tick_case_by_case(state: QueueState, sink_empty: bool, opening: Opening)
    ensures
        ({
            let next = state.ticked(sink_empty, opening);
            let ran_out = state.playing && (sink_empty || state.output is None);
            &&& state.due(sink_empty) == ran_out
            &&& !ran_out ==> next == state
            &&& ran_out && state.tracks.len() > 0 ==> {
                &&& next.playing
                &&& next.tracks == state.tracks.skip(1)
            }
            &&& ran_out && state.tracks.len() > 1 && state.output is Some && opening is Ok ==> {
                &&& next.output == Some(
                    state.output->0.push(Order::Stop).push(
                        Order::Append(state.tracks[1].audio_data),
                    ),
                )
                &&& next.tracks[0] == state.tracks[1]
            }
            &&& ran_out && state.tracks.len() > 0 && !(state.tracks.len() > 1
                && state.output is Some && opening is Ok) ==> next.output == state.output
            &&& ran_out && state.tracks.len() == 0 ==> {
                &&& !next.playing
                &&& next.tracks.len() == 0
                &&& state.output is None ==> next.output is None
                &&& state.output matches Some(given) ==> next.output == Some(
                    given.push(Order::Stop),
                )
            }
        }),
{
    assert(state.tracks.len() > 0 ==> state.tracks.drop_first() =~= state.tracks.skip(1));
}

/// A look at the sound output that reports a track has made it the first one of the
/// queue and ordered exactly a stop and that track's data.
pub proof fn law_tick_plays_what_it_reports(
    state: QueueState,
    sink_empty: bool,
    opening: Opening,
    track: Track,
)
    requires
        state.playing,
        sink_empty || state.output is None,
        state.moving_on(opening) == Ok::<Option<Track>, Seq<char>>(Some(track)),
    ensures
        ({
            let next = state.ticked(sink_empty, opening);
            &&& next.tracks.len() > 0
            &&& next.tracks[0] == track
            &&& next.playing
            &&& state.output is Some
            &&& next.output == Some(
                state.output->0.push(Order::Stop).push(Order::Append(track.audio_data)),
            )
        }),
{
}

/// Taking a track out, case by case. The tracks in front of it and behind it stay in
/// their order. Only for the current track can more happen: where there is a next one, it
/// can be opened and there is a sound output, exactly a stop and its data are ordered, and
/// the queue counts as playing. Otherwise nothing is ordered.
pub proof fn law_taking_out_case_by_case(state: QueueState, index: int, opening: Opening)
    ensures
        ({
            let next = state.without(index, opening);
            let starts = index == 0 && state.tracks.len() > 1 && state.output is Some
                && opening is Ok;
            &&& 0 <= index < state.tracks.len() ==> next.tracks == state.tracks.take(index)
                + state.tracks.skip(index + 1)
            &&& !(0 <= index < state.tracks.len()) ==> next.tracks == state.tracks
            &&& starts ==> {
                &&& next.tracks[0] == state.tracks[1]
                &&& next.playing
                &&& next.output == Some(
                    state.output->0.push(Order::Stop).push(
                        Order::Append(state.tracks[1].audio_data),
                    ),
                )
            }
            &&& !starts ==> {
                &&& next.playing == state.playing
                &&& next.output == state.output
            }
        }),
{
    let next = state.without(index, opening);
    if 0 <= index < state.tracks.len() {
        assert(next.tracks =~= state.tracks.take(index) + state.tracks.skip(index + 1));
    }
}

/// Data that can be opened make exactly a stop and themselves what is ordered, and leave
/// the rest of the queue alone. There is no obstacle to that but a missing sound output
/// or the error of opening the data, in this order.
pub proof fn law_sounding_replaces_what_is_played(
    state: QueueState,
    data: Seq<u8>,
    opening: Opening,
)
    ensures
        state.output is None ==> state.obstacle(opening) == Some("Audio output not available"@),
        state.output is Some ==> {
            &&& opening is Ok ==> state.obstacle(opening) is None
            &&& opening matches Err(message) ==> state.obstacle(opening) == Some(message)
            &&& state.sounding(data).output == Some(
                state.output->0.push(Order::Stop).push(Order::Append(data)),
            )
        },
        state.sounding(data).tracks == state.tracks,
        state.sounding(data).playing == state.playing,
{
}

/// A stop orders exactly that, keeps the tracks and ends playback; a clearing does the
/// same and keeps no track. Any single order, so also that of a pause or of going on,
/// changes nothing but what the sound output has to do.
pub proof fn law_single_orders(state: QueueState, order: Order)
    ensures
        state.output matches Some(given) ==> {
            &&& state.ordered(order).output == Some(given.push(order))
            &&& state.stopped().output == Some(given.push(Order::Stop))
            &&& state.cleared().output == Some(given.push(Order::Stop))
        },
        state.output is None ==> {
            &&& state.ordered(order).output is None
            &&& state.stopped().output is None
            &&& state.cleared().output is None
        },
        state.ordered(order).tracks == state.tracks,
        state.ordered(order).playing == state.playing,
        state.stopped().tracks == state.tracks,
        !state.stopped().playing,
        state.cleared().tracks.len() == 0,
        !state.cleared().playing,
{
}

/// A track is added behind all the others and changes nothing else. Handing out the
/// orders leaves none of them behind and changes nothing else. A new queue has no tracks,
/// no orders and is silent.
pub proof fn law_adding_and_handing_out(state: QueueState, track: Track)
    ensures
        state.with_track(track).tracks == state.tracks + seq![track],
        state.with_track(track).output == state.output,
        state.with_track(track).playing == state.playing,
        state.taken().tracks == state.tracks,
        state.taken().playing == state.playing,
        state.output is Some ==> {
            &&& state.taken().output is Some
            &&& state.taken().output->0.len() == 0
        },
        state.output is None ==> state.taken().output is None,
        QueueState::created().tracks.len() == 0,
        QueueState::created().output is Some,
        QueueState::created().output->0.len() == 0,
        !QueueState::created().playing,
{
    assert(state.tracks.push(track) =~= state.tracks + seq![track]);
}

/// The listing of a queue: how many tracks there are, then a line for each of them. One
/// more track adds one more line behind the others: its position, its duration, its title
/// and who added it. Only the line of the first track is marked.
pub proof fn law_listing_grows_by_a_line(listed: Seq<Track>, track: Track)
    ensures
        queue_info(Seq::empty()) == "Queue is empty"@,
        queue_lines(Seq::empty()).len() == 0,
        queue_info(listed.push(track)) == "Queue ("@ + text::decimal(listed.len() + 1)
            + " items):\n"@ + queue_lines(listed.push(track)),
        queue_lines(listed.push(track)) == queue_lines(listed) + (if listed.len() == 0 {
            "▶ "@
        } else {
            "  "@
        } + text::decimal(listed.len() + 1) + ". ["@ + span::clock_or_unknown(track.duration)
            + "] "@ + track.title + " - added by "@ + track.added_by + "\n"@),
{
    assert(listed.push(track).drop_last() =~= listed);
}

/// What is said of an item, a command or the result of moving on is what it holds, and a
/// list of them is taken one by one, in its order.
pub proof fn law_what_is_held_is_what_is_said(
    item: QueueItem,
    data: Vec<u8>,
    message: String,
    items: Seq<QueueItem>,
    commands: Seq<SinkCommand>,
)
    ensures
        item@.url == item.url@,
        item@.title == item.title@,
        item@.duration == item.duration,
        item@.added_by == item.added_by@,
        item@.added_at == item.added_at,
        item@.audio_data == item.audio_data@,
        SinkCommand::Stop@ == Order::Stop,
        SinkCommand::Append(data)@ == Order::Append(data@),
        SinkCommand::Pause@ == Order::Pause,
        SinkCommand::Play@ == Order::Play,
        play_result(Ok(Some(item))) == Ok::<Option<Track>, Seq<char>>(Some(item@)),
        play_result(Ok(None)) == Ok::<Option<Track>, Seq<char>>(None),
        play_result(Err(message)) == Err::<Option<Track>, Seq<char>>(message@),
        open_error(message@) == "Failed to open default audio stream: "@ + message@,
        tracks(items).len() == items.len(),
        forall|i: int| 0 <= i < items.len() ==> #[trigger] tracks(items)[i] == items[i]@,
        orders(commands).len() == commands.len(),
        forall|i: int| 0 <= i < commands.len() ==> #[trigger] orders(commands)[i] == commands[i]@,
{
}

/// A call that moves on takes the first of several tracks out. If it returns a track, that
/// track is the first one now, and exactly a stop and its data have been ordered; it does
/// so wherever there is a sound output and the decoder gets through that track's data.
/// Otherwise a queue with tracks orders nothing and counts as playing or not as before.
pub proof fn law_play_next_plays_what_it_returns(
    queue: &mut AudioQueue,
    result: Result<Option<QueueItem>, String>,
)
    requires
        call_ensures(AudioQueue::play_next, (queue,), result) || call_ensures(
            AudioQueue::skip_current,
            (queue,),
            result,
        ),
    ensures
        result matches Ok(Some(item)) ==> {
            &&& final(queue)@.tracks.len() > 0
            &&& final(queue)@.tracks[0] == item@
            &&& final(queue)@.playing
            &&& old(queue)@.output is Some
            &&& final(queue)@.output == Some(
                old(queue)@.output->0.push(Order::Stop).push(Order::Append(item.audio_data@)),
            )
        },
        old(queue)@.tracks.len() > 0 && !(result matches Ok(Some(_))) ==> {
            &&& final(queue)@.playing == old(queue)@.playing
            &&& final(queue)@.output == old(queue)@.output
        },
        old(queue)@.tracks.len() > 1 ==> {
            &&& final(queue)@.tracks == old(queue)@.tracks.skip(1)
            &&& old(queue)@.output is Some && decoder::opened(
                old(queue)@.tracks[1].audio_data,
            ) is Ok ==> result matches Ok(Some(_))
        },
        old(queue)@.tracks.len() == 1 && !old(queue)@.playing ==> {
            &&& final(queue)@.tracks == old(queue)@.tracks
            &&& old(queue)@.output is Some && decoder::opened(
                old(queue)@.tracks[0].audio_data,
            ) is Ok ==> result matches Ok(Some(_))
        },
        old(queue)@.tracks.len() == 1 && old(queue)@.playing ==> {
            &&& final(queue)@.tracks.len() == 0
            &&& result matches Ok(None)
        },
        old(queue)@.tracks.len() == 0 ==> {
            &&& final(queue)@.tracks.len() == 0
            &&& !final(queue)@.playing
            &&& result matches Ok(None)
        },
{
    law_moving_on_case_by_case(old(queue)@, old(queue)@.upcoming());
}

/// A look at the sound output that returns a track has taken the track in front of it out,
/// and ordered exactly a stop and the data of the track that it returns, which is the first
/// one now. It does so wherever the sound has ended, there is a sound output and the decoder
/// gets through the data of the second track. It returns nothing, and changes nothing,
/// exactly where the queue is not playing or the sound goes on.
pub proof fn law_tick_plays_what_it_returns(
    queue: &mut AudioQueue,
    sink_empty: bool,
    moved: Option<Result<Option<QueueItem>, String>>,
)
    requires
        call_ensures(AudioQueue::tick, (queue, sink_empty), moved),
    ensures
        moved is None <==> !old(queue)@.playing || (old(queue)@.output is Some && !sink_empty),
        moved is None ==> final(queue)@ == old(queue)@,
        moved is Some && old(queue)@.tracks.len() > 0 ==> {
            &&& final(queue)@.tracks == old(queue)@.tracks.skip(1)
            &&& final(queue)@.playing
        },
        moved matches Some(Ok(Some(item))) ==> {
            &&& final(queue)@.tracks.len() > 0
            &&& final(queue)@.tracks[0] == item@
            &&& old(queue)@.output is Some
            &&& final(queue)@.output == Some(
                old(queue)@.output->0.push(Order::Stop).push(Order::Append(item.audio_data@)),
            )
        },
        !(moved matches Some(Ok(Some(_)))) && old(queue)@.tracks.len() > 0 ==> final(queue)@.output
            == old(queue)@.output,
        moved is Some && old(queue)@.tracks.len() > 1 && old(queue)@.output is Some
            && decoder::opened(old(queue)@.tracks[1].audio_data) is Ok ==> moved matches Some(
            Ok(Some(_)),
        ),
        moved is Some && old(queue)@.tracks.len() == 0 ==> {
            &&& final(queue)@.tracks.len() == 0
            &&& !final(queue)@.playing
        },
{
    law_moving_on_case_by_case(old(queue)@, old(queue)@.upcoming());
    law_tick_case_by_case(old(queue)@, sink_empty, old(queue)@.upcoming());
}

/// A call that takes a track out returns that track and keeps all the others in their
/// order. If it was the first one, there is a sound output and the decoder gets through the
/// data of the second one, exactly a stop and the data of the track that is the first one
/// now have been ordered, and the queue counts as playing. In any other case nothing has
/// been ordered.
pub proof fn law_removal_plays_what_comes_first(
    queue: &mut AudioQueue,
    index: usize,
    removed: Option<QueueItem>,
)
    requires
        call_ensures(AudioQueue::remove_from_queue, (queue, index), removed),
    ensures
        removed is Some <==> index < old(queue)@.tracks.len(),
        removed is None ==> final(queue)@ == old(queue)@,
        removed matches Some(item) ==> {
            &&& item@ == old(queue)@.tracks[index as int]
            &&& final(queue)@.tracks == old(queue)@.tracks.take(index as int)
                + old(queue)@.tracks.skip(index + 1)
        },
        ({
            let starts = index == 0 && old(queue)@.tracks.len() > 1 && old(queue)@.output is Some
                && decoder::opened(old(queue)@.tracks[1].audio_data) is Ok;
            &&& starts ==> {
                &&& final(queue)@.playing
                &&& final(queue)@.output == Some(
                    old(queue)@.output->0.push(Order::Stop).push(
                        Order::Append(final(queue)@.tracks[0].audio_data),
                    ),
                )
            }
            &&& !starts ==> {
                &&& final(queue)@.playing == old(queue)@.playing
                &&& final(queue)@.output == old(queue)@.output
            }
        }),
{
    law_taking_out_case_by_case(old(queue)@, index as int, old(queue)@.upcoming());
}

/// Commands are handed out exactly as they were ordered, oldest first, and only once:
/// none of them is left, and nothing else changes.
pub proof fn law_commands_come_out_as_ordered(queue: &mut AudioQueue, commands: Vec<SinkCommand>)
    requires
        call_ensures(AudioQueue::take_commands, (queue,), commands),
    ensures
        old(queue)@.output matches Some(given) ==> {
            &&& commands@.len() == given.len()
            &&& forall|i: int| 0 <= i < given.len() ==> #[trigger] commands@[i]@ == given[i]
            &&& final(queue)@.output is Some
            &&& final(queue)@.output->0.len() == 0
        },
        old(queue)@.output is None ==> commands@.len() == 0 && final(queue)@.output is None,
        final(queue)@.tracks == old(queue)@.tracks,
        final(queue)@.playing == old(queue)@.playing,
{
    if let Some(given) = old(queue)@.output {
        assert forall|i: int| 0 <= i < given.len() implies #[trigger] commands@[i]@
            == given[i] by {
            assert(orders(commands@)[i] == commands@[i]@);
        }
    }
}

/// An added track stands at the end, and its position is counted from one; nothing else
/// changes.
pub proof fn law_added_track_stands_at_its_position(
    queue: &mut AudioQueue,
    item: QueueItem,
    position: usize,
)
    requires
        call_ensures(AudioQueue::add_to_queue, (queue, item), position),
    ensures
        1 <= position == final(queue)@.tracks.len(),
        final(queue)@.tracks[position - 1] == item@,
        final(queue)@.tracks.drop_last() == old(queue)@.tracks,
        final(queue)@.output == old(queue)@.output,
        final(queue)@.playing == old(queue)@.playing,
{
    assert(final(queue)@.tracks.drop_last() =~= old(queue)@.tracks);
}

/// A pause and going on after it are orders and nothing more: exactly the order of that
/// name is given, and neither the tracks nor whether the queue counts as playing change.
pub proof fn law_pause_and_resume_are_orders(queue: &mut AudioQueue, resumed: bool)
    requires
        !resumed ==> call_ensures(AudioQueue::pause, (queue,), ()),
        resumed ==> call_ensures(AudioQueue::resume, (queue,), ()),
    ensures
        old(queue)@.output matches Some(given) ==> final(queue)@.output == Some(
            given.push(
                if resumed {
                    Order::Play
                } else {
                    Order::Pause
                },
            ),
        ),
        old(queue)@.output is None ==> final(queue)@.output is None,
        final(queue)@.tracks == old(queue)@.tracks,
        final(queue)@.playing == old(queue)@.playing,
{
}

/// A stop and a clearing order exactly a stop and end playback; the tracks stay after a
/// stop, and none does after a clearing.
pub proof fn law_stop_and_clear_end_playback(queue: &mut AudioQueue, cleared: bool)
    requires
        !cleared ==> call_ensures(AudioQueue::stop, (queue,), ()),
        cleared ==> call_ensures(AudioQueue::clear_queue, (queue,), ()),
    ensures
        old(queue)@.output matches Some(given) ==> final(queue)@.output == Some(
            given.push(Order::Stop),
        ),
        old(queue)@.output is None ==> final(queue)@.output is None,
        !final(queue)@.playing,
        cleared ==> final(queue)@.tracks.len() == 0,
        !cleared ==> final(queue)@.tracks == old(queue)@.tracks,
{
}

/// Data that were opened, and only those, are played: exactly a stop and the data are
/// ordered. An error is handed back as it is, and a missing sound output is one.
pub proof fn law_opened_data_are_played(
    queue: &mut AudioQueue,
    data: Vec<u8>,
    opening: Result<Option<Span>, String>,
    result: Result<(), String>,
)
    requires
        call_ensures(AudioQueue::play_opened, (queue, data, opening), result),
    ensures
        result is Ok <==> old(queue)@.output is Some && opening is Ok,
        result is Ok ==> final(queue)@.output == Some(
            old(queue)@.output->0.push(Order::Stop).push(Order::Append(data@)),
        ),
        result matches Err(text) ==> {
            &&& final(queue)@.output == old(queue)@.output
            &&& old(queue)@.output is None ==> text@ == "Audio output not available"@
            &&& old(queue)@.output is Some ==> (opening matches Err(message) && text@ == message@)
        },
        final(queue)@.tracks == old(queue)@.tracks,
        final(queue)@.playing == old(queue)@.playing,
{
}

} // verus!
