use further_ng::audio_queue::{AudioQueue, QueueItem, SinkCommand};
use further_ng::bot::{
    finish_play, handle_command, sender_name, skip_reply, started_reply, FasterCommand, PlayReply,
    Reply, Sender,
};
use further_ng::download::DownloadedTrack;
use further_ng::span::Span;
use std::time::SystemTime;

/// A short MP3 file, in which nothing is to be heard.
fn sound() -> Vec<u8> {
    let mut data = vec![0; 1152];
    data[..4].copy_from_slice(&[0xff, 0xfb, 0x98, 0]);
    data[576..580].copy_from_slice(&[0xff, 0xfb, 0x98, 0]);
    data
}

fn track(title: &str, audio_data: Vec<u8>) -> QueueItem {
    QueueItem {
        url: "https://example.org/".to_string(),
        title: title.to_string(),
        duration: Some(Span { secs: 61, nanos: 0 }),
        added_by: "ann".to_string(),
        added_at: SystemTime::UNIX_EPOCH,
        audio_data,
    }
}

fn queue_of(titles: &[&str]) -> AudioQueue {
    let mut queue = AudioQueue::new(Ok(())).unwrap();
    for title in titles {
        queue.add_to_queue(track(title, sound()));
    }
    queue
}

fn fetched(title: &str, audio_data: Vec<u8>) -> Result<DownloadedTrack, String> {
    Ok(DownloadedTrack {
        audio_data,
        title: title.to_string(),
        duration: Some(Span { secs: 5, nanos: 0 }),
    })
}

fn finish(queue: &mut AudioQueue, outcome: Result<DownloadedTrack, String>) -> PlayReply {
    finish_play(
        queue,
        "https://example.org/x".to_string(),
        "bob".to_string(),
        SystemTime::UNIX_EPOCH,
        outcome,
    )
}

fn text(reply: Reply) -> String {
    match reply {
        Reply::Text(text) => text,
        other => panic!("unexpected {:?}", other),
    }
}

fn added(reply: PlayReply) -> String {
    match reply {
        PlayReply::Added(text) => text,
        other => panic!("unexpected {:?}", other),
    }
}

#[test]
fn questions_change_nothing() {
    let mut queue = queue_of(&["a", "b"]);
    assert!(matches!(handle_command(&mut queue, FasterCommand::Help), Reply::Descriptions));
    assert_eq!(
        text(handle_command(&mut queue, FasterCommand::Queue)),
        "Queue (2 items):\n▶ 1. [01:01] a - added by ann\n  2. [01:01] b - added by ann\n"
    );
    assert_eq!(
        text(handle_command(&mut queue, FasterCommand::NowPlaying)),
        "Now Playing: a\nDuration: 01:01\nAdded by: ann"
    );
    match handle_command(&mut queue, FasterCommand::Play("https://x".to_string())) {
        Reply::Download { notice, url } => {
            assert_eq!(notice, "Downloading audio...");
            assert_eq!(url, "https://x");
        }
        other => panic!("unexpected {:?}", other),
    }
    assert_eq!(queue.queue_length(), 2);
    assert!(!queue.is_playing());
    assert!(queue.take_commands().is_empty());
}

#[test]
fn nothing_is_playing_in_an_empty_queue() {
    let mut queue = queue_of(&[]);
    assert_eq!(
        text(handle_command(&mut queue, FasterCommand::NowPlaying)),
        "Nothing is currently playing"
    );
}

#[test]
fn an_unknown_duration_is_shown_as_such() {
    let mut queue = AudioQueue::new(Ok(())).unwrap();
    let mut item = track("a", vec![]);
    item.duration = None;
    queue.add_to_queue(item);
    assert_eq!(
        text(handle_command(&mut queue, FasterCommand::NowPlaying)),
        "Now Playing: a\nDuration: ??:??\nAdded by: ann"
    );
}

#[test]
fn playback_commands_give_orders() {
    let mut queue = queue_of(&["a"]);
    assert_eq!(text(handle_command(&mut queue, FasterCommand::Pause)), "Playback paused");
    assert_eq!(text(handle_command(&mut queue, FasterCommand::Resume)), "Playback resumed");
    assert_eq!(text(handle_command(&mut queue, FasterCommand::Stop)), "Playback stopped");
    assert_eq!(queue.queue_length(), 1);
    assert_eq!(text(handle_command(&mut queue, FasterCommand::Clear)), "Queue cleared");
    assert_eq!(queue.queue_length(), 0);
    let commands = queue.take_commands();
    assert_eq!(commands.len(), 4);
    assert!(matches!(commands[0], SinkCommand::Pause));
    assert!(matches!(commands[1], SinkCommand::Play));
    assert!(matches!(commands[2], SinkCommand::Stop));
    assert!(matches!(commands[3], SinkCommand::Stop));
}

#[test]
fn skipping_names_the_track_that_starts() {
    let mut queue = queue_of(&["a", "b"]);
    assert_eq!(
        text(handle_command(&mut queue, FasterCommand::Skip)),
        "Skipped! Now playing: b"
    );
    assert!(queue.is_playing());
    assert_eq!(
        text(handle_command(&mut queue, FasterCommand::Skip)),
        "Skipped! Queue is now empty."
    );
}

#[test]
fn skipping_to_a_bad_track_is_an_error() {
    let mut queue = queue_of(&["a"]);
    queue.add_to_queue(track("b", vec![7; 4096]));
    assert_eq!(
        text(handle_command(&mut queue, FasterCommand::Skip)),
        "Error skipping: Unrecognized format"
    );
}

#[test]
fn skip_replies() {
    assert_eq!(skip_reply(&Ok(Some(track("x", vec![])))), "Skipped! Now playing: x");
    assert_eq!(skip_reply(&Ok(None)), "Skipped! Queue is now empty.");
    assert_eq!(skip_reply(&Err("y".to_string())), "Error skipping: y");
}

#[test]
fn removing_is_by_position() {
    let mut queue = queue_of(&["a", "b", "c"]);
    assert_eq!(
        text(handle_command(&mut queue, FasterCommand::Remove(0))),
        "Invalid queue position"
    );
    assert_eq!(
        text(handle_command(&mut queue, FasterCommand::Remove(4))),
        "Invalid queue position"
    );
    assert_eq!(queue.queue_length(), 3);
    assert_eq!(text(handle_command(&mut queue, FasterCommand::Remove(3))), "Removed: c");
    assert_eq!(text(handle_command(&mut queue, FasterCommand::Remove(1))), "Removed: a");
    assert_eq!(queue.queue_length(), 1);
    assert_eq!(queue.get_current_item().unwrap().title, "b");
    assert!(queue.is_playing());
}

#[test]
fn a_lone_track_is_played() {
    let mut queue = queue_of(&[]);
    assert_eq!(
        added(finish(&mut queue, fetched("x", sound()))),
        "Added to queue (#1). Now playing: x"
    );
    assert_eq!(queue.queue_length(), 1);
    assert_eq!(queue.get_current_item().unwrap().title, "x");
    assert!(queue.is_playing());
    let commands = queue.take_commands();
    assert_eq!(commands.len(), 2);
    assert!(matches!(commands[0], SinkCommand::Stop));
    assert!(matches!(commands[1], SinkCommand::Append(_)));
    assert_eq!(
        added(finish(&mut queue, fetched("y", sound()))),
        "Added to queue at position #2"
    );
}

#[test]
fn a_lone_bad_track_is_kept_but_not_played() {
    let mut queue = queue_of(&[]);
    match finish(&mut queue, fetched("x", vec![7; 4096])) {
        PlayReply::NotPlayed(text) => {
            assert_eq!(text, "Error playing audio: Unrecognized format")
        }
        other => panic!("unexpected {:?}", other),
    }
    assert_eq!(queue.queue_length(), 1);
    assert!(!queue.is_playing());
    assert!(queue.take_commands().is_empty());
}

#[test]
fn a_silent_queue_moves_on_when_a_track_is_added() {
    let mut queue = queue_of(&["a"]);
    assert_eq!(
        added(finish(&mut queue, fetched("x", sound()))),
        "Added to queue (#2). Now playing: x"
    );
    assert!(queue.is_playing());
    let current = queue.get_current_item().unwrap();
    assert_eq!(current.title, "x");
    assert_eq!(current.url, "https://example.org/x");
    assert_eq!(current.added_by, "bob");
    assert_eq!(current.duration, Some(Span { secs: 5, nanos: 0 }));
    assert_eq!(current.audio_data, sound());
}

#[test]
fn a_playing_queue_lets_a_track_wait() {
    let mut queue = queue_of(&["a", "b"]);
    queue.play_next().unwrap();
    assert_eq!(
        added(finish(&mut queue, fetched("x", sound()))),
        "Added to queue at position #2"
    );
    assert_eq!(queue.queue_length(), 2);
    assert_eq!(queue.get_current_item().unwrap().title, "b");
}

#[test]
fn a_bad_track_is_added_but_not_played() {
    let mut queue = queue_of(&["a"]);
    match finish(&mut queue, fetched("x", vec![7; 4096])) {
        PlayReply::NotPlayed(text) => {
            assert_eq!(text, "Error playing audio: Unrecognized format")
        }
        other => panic!("unexpected {:?}", other),
    }
    assert_eq!(queue.get_current_item().unwrap().title, "x");
    assert!(!queue.is_playing());
}

#[test]
fn a_failed_download_leaves_the_queue_alone() {
    let mut queue = queue_of(&["a"]);
    match finish(&mut queue, Err("no such video".to_string())) {
        PlayReply::Failed(text) => assert_eq!(text, "Error: no such video"),
        other => panic!("unexpected {:?}", other),
    }
    assert_eq!(queue.queue_length(), 1);
    assert!(queue.take_commands().is_empty());
}

#[test]
fn replies_to_an_added_track() {
    assert_eq!(
        added(started_reply(12, Ok(Some(track("x", vec![]))))),
        "Added to queue (#12). Now playing: x"
    );
    assert_eq!(added(started_reply(3, Ok(None))), "Added to queue (#3)");
    match started_reply(3, Err("y".to_string())) {
        PlayReply::NotPlayed(text) => assert_eq!(text, "Error playing audio: y"),
        other => panic!("unexpected {:?}", other),
    }
}

#[test]
fn senders_have_names() {
    let named = Sender { username: Some("ann42".to_string()), first_name: "Ann".to_string() };
    let unnamed = Sender { username: None, first_name: "Ann".to_string() };
    assert_eq!(sender_name(Some(named)), "ann42");
    assert_eq!(sender_name(Some(unnamed)), "Ann");
    assert_eq!(sender_name(None), "Unknown");
}
