use further_ng::audio_queue::{AudioQueue, QueueItem, SinkCommand};
use further_ng::span::Span;
use std::time::SystemTime;

/// A frame of an MP3 file with 32000 samples per second. It holds no sound, but may say
/// how many frames there are.
fn frame(count: Option<u32>) -> Vec<u8> {
    let mut data = vec![0; 576];
    data[..4].copy_from_slice(&[0xff, 0xfb, 0x98, 0]);
    if let Some(count) = count {
        data[36..44].copy_from_slice(b"Info\x00\x00\x00\x01");
        data[44..48].copy_from_slice(&count.to_be_bytes());
    }
    data
}

/// An MP3 file that claims to have `count` frames.
fn sound(count: u32) -> Vec<u8> {
    [frame(Some(count)), frame(None)].concat()
}

fn garbage() -> Vec<u8> {
    vec![7; 4096]
}

fn track(title: &str, audio_data: Vec<u8>) -> QueueItem {
    QueueItem {
        url: format!("https://example.org/{}", title),
        title: title.to_string(),
        duration: Some(Span { secs: 125, nanos: 999_999_999 }),
        added_by: "ann".to_string(),
        added_at: SystemTime::UNIX_EPOCH,
        audio_data,
    }
}

fn silent_queue() -> AudioQueue {
    AudioQueue::new(Ok(())).unwrap()
}

fn titles(queue: &mut AudioQueue) -> Vec<String> {
    let mut found = Vec::new();
    while queue.queue_length() > 0 {
        let last = queue.queue_length() - 1;
        if last == 0 {
            found.push(queue.get_current_item().unwrap().title.clone());
            break;
        }
        found.push(queue.remove_from_queue(last).unwrap().title);
    }
    found.reverse();
    found
}

#[test]
fn a_new_queue_is_empty_and_silent() {
    let mut queue = silent_queue();
    assert_eq!(queue.queue_length(), 0);
    assert!(!queue.is_playing());
    assert!(queue.get_current_item().is_none());
    assert!(queue.take_commands().is_empty());
}

#[test]
fn an_output_that_does_not_open_is_an_error() {
    let error = AudioQueue::new(Err("no device".to_string())).unwrap_err();
    assert_eq!(error, "Failed to open default audio stream: no device");
}

#[test]
fn positions_count_from_one() {
    let mut queue = silent_queue();
    assert_eq!(queue.add_to_queue(track("a", sound(10))), 1);
    assert_eq!(queue.add_to_queue(track("b", sound(10))), 2);
    assert_eq!(queue.queue_length(), 2);
    assert_eq!(queue.get_current_item().unwrap().title, "a");
}

#[test]
fn moving_on_starts_the_second_track() {
    let mut queue = silent_queue();
    queue.add_to_queue(track("a", sound(10)));
    queue.add_to_queue(track("b", sound(20)));
    let started = queue.play_next().unwrap().unwrap();
    assert_eq!(started.title, "b");
    assert_eq!(started.url, "https://example.org/b");
    assert_eq!(started.duration, Some(Span { secs: 125, nanos: 999_999_999 }));
    assert_eq!(started.added_by, "ann");
    assert_eq!(started.added_at, SystemTime::UNIX_EPOCH);
    assert_eq!(started.audio_data, sound(20));
    assert!(queue.is_playing());
    assert_eq!(queue.queue_length(), 1);
    assert_eq!(queue.get_current_item().unwrap().title, "b");
    let commands = queue.take_commands();
    assert_eq!(commands.len(), 2);
    assert!(matches!(commands[0], SinkCommand::Stop));
    match &commands[1] {
        SinkCommand::Append(data) => assert_eq!(*data, sound(20)),
        other => panic!("unexpected {:?}", other),
    }
    assert!(queue.take_commands().is_empty());
}

#[test]
fn moving_on_from_the_last_track_leaves_the_sound_alone() {
    let mut queue = silent_queue();
    queue.add_to_queue(track("a", sound(10)));
    queue.add_to_queue(track("b", sound(20)));
    queue.play_next().unwrap();
    queue.take_commands();
    assert!(queue.play_next().unwrap().is_none());
    assert_eq!(queue.queue_length(), 0);
    assert!(queue.is_playing());
    assert!(queue.take_commands().is_empty());
}

#[test]
fn a_single_track_is_started_and_stays() {
    let mut queue = silent_queue();
    queue.add_to_queue(track("a", sound(10)));
    assert_eq!(queue.play_next().unwrap().unwrap().title, "a");
    assert!(queue.is_playing());
    assert_eq!(queue.queue_length(), 1);
    assert_eq!(queue.get_current_item().unwrap().title, "a");
    let commands = queue.take_commands();
    assert_eq!(commands.len(), 2);
    assert!(matches!(commands[0], SinkCommand::Stop));
    match &commands[1] {
        SinkCommand::Append(data) => assert_eq!(*data, sound(10)),
        other => panic!("unexpected {:?}", other),
    }
    assert!(queue.play_next().unwrap().is_none());
    assert_eq!(queue.queue_length(), 0);
    assert!(queue.play_next().unwrap().is_none());
    assert!(!queue.is_playing());
}

#[test]
fn a_single_track_that_cannot_be_decoded_is_an_error_and_stays() {
    let mut queue = silent_queue();
    queue.add_to_queue(track("a", garbage()));
    assert_eq!(queue.play_next().unwrap_err(), "Unrecognized format");
    assert_eq!(queue.get_current_item().unwrap().title, "a");
    assert!(!queue.is_playing());
    assert!(queue.take_commands().is_empty());
}

#[test]
fn removing_a_single_track_takes_it_out() {
    let mut queue = silent_queue();
    queue.add_to_queue(track("a", sound(10)));
    assert_eq!(queue.remove_from_queue(0).unwrap().title, "a");
    assert_eq!(queue.queue_length(), 0);
    assert!(!queue.is_playing());
    assert!(queue.take_commands().is_empty());
}

#[test]
fn a_queue_plays_from_a_start_to_a_stop() {
    let mut queue = silent_queue();
    queue.add_to_queue(track("a", sound(10)));
    queue.pause();
    assert!(!queue.is_playing());
    queue.play_next().unwrap();
    queue.add_to_queue(track("b", garbage()));
    queue.take_commands();
    queue.pause();
    assert!(queue.play_next().is_err());
    queue.remove_from_queue(0);
    assert!(queue.is_playing());
    queue.play_next().unwrap();
    assert!(!queue.is_playing());
    queue.resume();
    assert!(!queue.is_playing());
}

#[test]
fn moving_on_in_an_empty_queue_stops() {
    let mut queue = silent_queue();
    assert!(queue.play_next().unwrap().is_none());
    let commands = queue.take_commands();
    assert_eq!(commands.len(), 1);
    assert!(matches!(commands[0], SinkCommand::Stop));
}

#[test]
fn a_track_that_cannot_be_decoded_is_an_error_and_stays() {
    let mut queue = silent_queue();
    queue.add_to_queue(track("a", sound(10)));
    queue.add_to_queue(track("b", garbage()));
    let error = queue.play_next().unwrap_err();
    assert_eq!(error, "Unrecognized format");
    assert_eq!(queue.get_current_item().unwrap().title, "b");
    assert!(!queue.is_playing());
    assert!(queue.take_commands().is_empty());
}

#[test]
fn a_failed_start_leaves_a_playing_queue_playing() {
    let mut queue = silent_queue();
    queue.add_to_queue(track("a", sound(10)));
    queue.add_to_queue(track("b", sound(20)));
    queue.add_to_queue(track("c", garbage()));
    queue.play_next().unwrap();
    queue.take_commands();
    assert!(queue.skip_current().is_err());
    assert!(queue.is_playing());
    assert_eq!(queue.get_current_item().unwrap().title, "c");
    assert!(queue.take_commands().is_empty());
}

#[test]
fn tracks_come_up_in_the_order_they_were_added() {
    let mut queue = silent_queue();
    for title in ["a", "b", "c", "d"] {
        queue.add_to_queue(track(title, sound(10)));
    }
    assert_eq!(queue.skip_current().unwrap().unwrap().title, "b");
    assert_eq!(queue.skip_current().unwrap().unwrap().title, "c");
    assert_eq!(queue.skip_current().unwrap().unwrap().title, "d");
    assert!(queue.skip_current().unwrap().is_none());
    assert!(queue.is_playing());
    assert!(queue.skip_current().unwrap().is_none());
    assert!(!queue.is_playing());
}

#[test]
fn stop_keeps_the_tracks() {
    let mut queue = silent_queue();
    queue.add_to_queue(track("a", sound(10)));
    queue.add_to_queue(track("b", sound(10)));
    queue.play_next().unwrap();
    queue.take_commands();
    queue.stop();
    assert!(!queue.is_playing());
    assert!(!queue.should_play_next(true));
    assert_eq!(queue.queue_length(), 1);
    let commands = queue.take_commands();
    assert_eq!(commands.len(), 1);
    assert!(matches!(commands[0], SinkCommand::Stop));
}

#[test]
fn clearing_keeps_no_track_and_stops() {
    let mut queue = silent_queue();
    queue.add_to_queue(track("a", sound(10)));
    queue.add_to_queue(track("b", sound(10)));
    queue.play_next().unwrap();
    queue.take_commands();
    queue.clear_queue();
    assert_eq!(queue.queue_length(), 0);
    assert!(!queue.is_playing());
    let commands = queue.take_commands();
    assert_eq!(commands.len(), 1);
    assert!(matches!(commands[0], SinkCommand::Stop));
}

#[test]
fn pause_and_resume_are_orders_alone() {
    let mut queue = silent_queue();
    queue.pause();
    queue.resume();
    assert!(!queue.is_playing());
    let commands = queue.take_commands();
    assert_eq!(commands.len(), 2);
    assert!(matches!(commands[0], SinkCommand::Pause));
    assert!(matches!(commands[1], SinkCommand::Play));
}

#[test]
fn removing_takes_out_one_track() {
    let mut queue = silent_queue();
    for title in ["a", "b", "c"] {
        queue.add_to_queue(track(title, sound(10)));
    }
    assert_eq!(queue.remove_from_queue(1).unwrap().title, "b");
    assert!(queue.take_commands().is_empty());
    assert!(queue.remove_from_queue(2).is_none());
    assert_eq!(titles(&mut queue), ["a", "c"]);
}

#[test]
fn removing_the_current_track_moves_on() {
    let mut queue = silent_queue();
    queue.add_to_queue(track("a", sound(10)));
    queue.add_to_queue(track("b", sound(20)));
    assert_eq!(queue.remove_from_queue(0).unwrap().title, "a");
    assert!(queue.is_playing());
    assert_eq!(queue.take_commands().len(), 2);
    assert_eq!(queue.get_current_item().unwrap().title, "b");
}

#[test]
fn removing_the_current_track_does_not_mind_a_bad_next_one() {
    let mut queue = silent_queue();
    queue.add_to_queue(track("a", sound(10)));
    queue.add_to_queue(track("b", garbage()));
    assert_eq!(queue.remove_from_queue(0).unwrap().title, "a");
    assert!(!queue.is_playing());
    assert_eq!(queue.get_current_item().unwrap().title, "b");
}

#[test]
fn it_is_time_to_move_on_when_the_sound_has_ended() {
    let mut queue = silent_queue();
    assert!(!queue.should_play_next(true));
    queue.add_to_queue(track("a", sound(10)));
    queue.add_to_queue(track("b", sound(10)));
    queue.play_next().unwrap();
    assert!(!queue.should_play_next(false));
    assert!(queue.should_play_next(true));
    assert!(queue.sink_ran_out(true));
    assert!(!queue.sink_ran_out(false));
}

#[test]
fn a_tick_moves_on_when_the_sound_has_ended() {
    let mut queue = silent_queue();
    assert!(queue.tick(true).is_none());
    queue.add_to_queue(track("a", sound(10)));
    queue.add_to_queue(track("b", garbage()));
    queue.add_to_queue(track("c", sound(20)));
    assert!(queue.tick(true).is_none());
    assert!(queue.play_next().is_err());
    assert_eq!(queue.play_next().unwrap().unwrap().title, "c");
    assert!(queue.tick(false).is_none());
    assert_eq!(queue.queue_length(), 1);
    queue.add_to_queue(track("d", sound(30)));
    queue.add_to_queue(track("e", garbage()));
    queue.take_commands();
    assert_eq!(queue.tick(true).unwrap().unwrap().unwrap().title, "d");
    assert_eq!(queue.take_commands().len(), 2);
    assert_eq!(queue.tick(true).unwrap().unwrap_err(), "Unrecognized format");
    assert!(queue.tick(true).unwrap().unwrap().is_none());
    assert_eq!(queue.queue_length(), 0);
    assert!(queue.is_playing());
    assert!(queue.tick(true).unwrap().unwrap().is_none());
    assert!(!queue.is_playing());
    assert!(queue.tick(true).is_none());
}

#[test]
fn a_queue_keeps_its_output() {
    let mut queue = silent_queue();
    queue.stop();
    queue.clear_queue();
    queue.take_commands();
    queue.add_to_queue(track("a", garbage()));
    assert_eq!(queue.play_next().unwrap_err(), "Unrecognized format");
    queue.remove_from_queue(0);
    queue.add_to_queue(track("b", sound(10)));
    assert_eq!(queue.play_next().unwrap().unwrap().title, "b");
    assert_eq!(queue.take_commands().len(), 2);
}

#[test]
fn an_opening_decides_whether_data_is_played() {
    let mut queue = silent_queue();
    assert_eq!(queue.play_opened(vec![1, 2], Err("broken".to_string())), Err("broken".to_string()));
    assert!(queue.take_commands().is_empty());
    assert_eq!(queue.play_opened(vec![1, 2], Ok(None)), Ok(()));
    let commands = queue.take_commands();
    assert_eq!(commands.len(), 2);
    match &commands[1] {
        SinkCommand::Append(data) => assert_eq!(*data, vec![1, 2]),
        other => panic!("unexpected {:?}", other),
    }
}

#[test]
fn a_started_track_counts_as_playing() {
    let mut queue = silent_queue();
    let failed = queue.finish_play_next(track("a", vec![]), Err("broken".to_string()));
    assert_eq!(failed.unwrap_err(), "broken");
    assert!(!queue.is_playing());
    let started = queue.finish_play_next(track("a", vec![]), Ok(()));
    assert_eq!(started.unwrap().unwrap().title, "a");
    assert!(queue.is_playing());
}

#[test]
fn the_listing_of_an_empty_queue() {
    assert_eq!(silent_queue().get_queue_info(), "Queue is empty");
}

#[test]
fn the_listing_marks_the_current_track() {
    let mut queue = silent_queue();
    queue.add_to_queue(track("a", vec![]));
    let mut unknown = track("b", vec![]);
    unknown.duration = None;
    queue.add_to_queue(unknown);
    let mut long = track("c", vec![]);
    long.duration = Some(Span { secs: 6000, nanos: 0 });
    long.added_by = "bob".to_string();
    queue.add_to_queue(long);
    assert_eq!(
        queue.get_queue_info(),
        "Queue (3 items):\n\
         ▶ 1. [02:05] a - added by ann\n\
         \u{20} 2. [??:??] b - added by ann\n\
         \u{20} 3. [100:00] c - added by bob\n"
    );
}

#[test]
fn the_listing_of_a_long_queue() {
    let mut queue = silent_queue();
    for _ in 0..12 {
        queue.add_to_queue(track("a", vec![]));
    }
    let info = queue.get_queue_info();
    assert!(info.starts_with("Queue (12 items):\n"));
    assert!(info.ends_with("  12. [02:05] a - added by ann\n"));
    assert_eq!(info.lines().count(), 13);
}

#[test]
fn a_copy_holds_the_same() {
    let item = track("a", vec![1, 2, 3]);
    let copy = item.clone();
    assert_eq!(copy.title, item.title);
    assert_eq!(copy.audio_data, item.audio_data);
    assert_eq!(copy.duration, item.duration);
}
