use further_ng::audio_queue::{AudioQueue, QueueItem};
use further_ng::decoder::{open, settle};
use further_ng::download::{DownloadAction, DownloadEvent, DownloadJob};
use further_ng::span::Span;
use std::time::SystemTime;

const MALFORMED: &str = "Malformed audio data";

/// A frame of an MP3 file with 32000 samples per second. It holds no sound, but may say
/// how many frames there are.
fn frame(count: Option<u32>) -> Vec<u8> {
    let mut data = vec![0; 576];
    data[..4].copy_from_slice(&[0xff, 0xfb, 0x98, 0]);
    if let Some(count) = count {
        data[36..44].copy_from_slice(b"Info\x00\x00\x00\x01");
        data[44..48].copy_from_slice(&count.to_be_bytes());
    }
    data
}

/// What an MP3 file without any sound looks like: it says how many frames there are, but
/// none follows.
fn soundless() -> Vec<u8> {
    frame(Some(125))
}

#[test]
fn sound_data_tell_how_long_they_play() {
    assert_eq!(
        open([frame(Some(125)), frame(None)].concat()),
        Ok(Some(Span { secs: 4, nanos: 500_000_000 }))
    );
    assert_eq!(
        open([frame(Some(250)), frame(None)].concat()),
        Ok(Some(Span { secs: 9, nanos: 0 }))
    );
    assert_eq!(open([frame(None), frame(None)].concat()), Ok(None));
}

#[test]
fn a_tag_in_front_of_the_sound_is_passed_over() {
    let mut data: Vec<u8> = Vec::new();
    data.extend_from_slice(b"ID3\x03\x00\x00\x00\x00\x00\x0f");
    data.extend_from_slice(b"TIT2\x00\x00\x00\x05\x00\x00\x00Song");
    data.extend_from_slice(&frame(Some(125)));
    data.extend_from_slice(&frame(None));
    assert_eq!(open(data), Ok(Some(Span { secs: 4, nanos: 500_000_000 })));
}

#[test]
fn data_of_another_format_are_an_error() {
    assert_eq!(open(vec![7; 4096]), Err("Unrecognized format".to_string()));
    assert_eq!(
        open([&b"RIFF\x24\x00\x00\x00WAVEfmt "[..], &[0; 64][..]].concat()),
        Err("Unrecognized format".to_string())
    );
    assert!(open(vec![]).is_err());
}

#[test]
fn frames_without_sound_are_an_error() {
    assert_eq!(open(soundless()), Err(MALFORMED.to_string()));
}

#[test]
fn data_can_be_opened_from_within_a_task() {
    let runtime = tokio::runtime::Runtime::new().unwrap();
    let opened = runtime.block_on(async {
        let task = tokio::spawn(async {
            (open([frame(Some(125)), frame(None)].concat()), open(soundless()))
        });
        task.await.unwrap()
    });
    assert_eq!(opened.0, Ok(Some(Span { secs: 4, nanos: 500_000_000 })));
    assert_eq!(opened.1, Err(MALFORMED.to_string()));
}

#[test]
fn an_attempt_settles_how_opening_ends() {
    let span = Span { secs: 3, nanos: 4 };
    assert_eq!(settle(Some(Ok(Some(span)))), Ok(Some(span)));
    assert_eq!(settle(Some(Ok(None))), Ok(None));
    assert_eq!(settle(Some(Err("broken".to_string()))), Err("broken".to_string()));
    assert_eq!(settle(None), Err(MALFORMED.to_string()));
}

#[test]
fn malformed_data_are_not_played() {
    let mut queue = AudioQueue::new(Ok(())).unwrap();
    queue.add_to_queue(QueueItem {
        url: "https://example.org/".to_string(),
        title: "a".to_string(),
        duration: None,
        added_by: "ann".to_string(),
        added_at: SystemTime::UNIX_EPOCH,
        audio_data: soundless(),
    });
    assert_eq!(queue.play_next().unwrap_err(), MALFORMED);
    assert!(!queue.is_playing());
    assert_eq!(queue.queue_length(), 1);
    assert!(queue.take_commands().is_empty());
}

#[test]
fn a_download_of_malformed_data_fails() {
    let (mut job, _) = DownloadJob::new("abc");
    job.step(DownloadEvent::FetcherPrepared(Ok(())));
    job.step(DownloadEvent::VideoFetched(Ok(())));
    job.step(DownloadEvent::DownloadStarted(Ok(())));
    job.step(DownloadEvent::DownloadFinished);
    job.step(DownloadEvent::AudioExtracted(Ok(true)));
    job.step(DownloadEvent::AudioRead(Ok(vec![])));
    job.step(DownloadEvent::TagRead(Ok(vec![])));
    match job.step(DownloadEvent::AudioOpened(soundless())) {
        Some(DownloadAction::Finish(Err(text))) => assert_eq!(text, "Failed to decode audio"),
        other => panic!("unexpected {:?}", other),
    }
}
