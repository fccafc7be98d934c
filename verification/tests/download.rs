use further_ng::download::{
    progress_text, track_title, DownloadAction, DownloadEvent, DownloadJob, DownloadedTrack,
};
use further_ng::span::Span;

/// The name of the files for the address `abc`.
const NAME: &str = "3a985da74fe225b2045c172d6bd390bd855f086e3e9d525b46bfe24511431532";

/// A frame of an MP3 file with 32000 samples per second. It holds no sound, but may say
/// how many frames there are.
fn frame(count: Option<u32>) -> Vec<u8> {
    let mut data = vec![0; 576];
    data[..4].copy_from_slice(&[0xff, 0xfb, 0x98, 0]);
    if let Some(count) = count {
        data[36..44].copy_from_slice(b"Info\x00\x00\x00\x01");
        data[44..48].copy_from_slice(&count.to_be_bytes());
    }
    data
}

/// An MP3 file that claims to play for four and a half seconds.
fn sound() -> Vec<u8> {
    [frame(Some(125)), frame(None)].concat()
}

/// The start of a sound file whose tag holds the title `Song`.
fn tagged() -> Vec<u8> {
    let mut data: Vec<u8> = Vec::new();
    data.extend_from_slice(b"ID3\x03\x00\x00\x00\x00\x00\x0f");
    data.extend_from_slice(b"TIT2\x00\x00\x00\x05\x00\x00\x00Song");
    data
}

/// The start of a sound file whose tag holds an artist and no title.
fn untitled() -> Vec<u8> {
    let mut data: Vec<u8> = Vec::new();
    data.extend_from_slice(b"ID3\x03\x00\x00\x00\x00\x00\x0f");
    data.extend_from_slice(b"TPE1\x00\x00\x00\x05\x00\x00\x00Song");
    data
}

fn video() -> String {
    format!("/tmp/{}.mp4", NAME)
}

fn audio() -> String {
    format!("/tmp/{}.mp3", NAME)
}

/// A job that has taken some number of good steps.
fn job_after(steps: usize) -> DownloadJob {
    let (mut job, _) = DownloadJob::new("abc");
    for step in 0..steps {
        let event = match step {
            0 => DownloadEvent::FetcherPrepared(Ok(())),
            1 => DownloadEvent::VideoFetched(Ok(())),
            2 => DownloadEvent::DownloadStarted(Ok(())),
            3 => DownloadEvent::DownloadFinished,
            4 => DownloadEvent::AudioExtracted(Ok(true)),
            5 => DownloadEvent::AudioRead(Ok(vec![1, 2, 3])),
            6 => DownloadEvent::TagRead(Ok(tagged())),
            7 => DownloadEvent::AudioOpened(sound()),
            8 => DownloadEvent::AudioRemoved,
            9 => DownloadEvent::VideoRemoved,
            _ => DownloadEvent::Reported,
        };
        assert!(job.step(event).is_some());
    }
    job
}

fn ended(action: Option<DownloadAction>) -> Result<DownloadedTrack, String> {
    match action {
        Some(DownloadAction::Finish(result)) => result,
        other => panic!("unexpected {:?}", other),
    }
}

#[test]
fn good_steps_end_well() {
    let (mut job, first) = DownloadJob::new("abc");
    match first {
        DownloadAction::PrepareFetcher { executables_dir, output_dir, timeout_secs } => {
            assert_eq!(executables_dir, "libs");
            assert_eq!(output_dir, "/tmp/further-ng-cache");
            assert_eq!(timeout_secs, 600);
        }
        other => panic!("unexpected {:?}", other),
    }
    match job.step(DownloadEvent::FetcherPrepared(Ok(()))) {
        Some(DownloadAction::FetchVideo { url }) => assert_eq!(url, "abc"),
        other => panic!("unexpected {:?}", other),
    }
    match job.step(DownloadEvent::VideoFetched(Ok(()))) {
        Some(DownloadAction::DownloadVideo { path }) => assert_eq!(path, video()),
        other => panic!("unexpected {:?}", other),
    }
    assert!(matches!(
        job.step(DownloadEvent::DownloadStarted(Ok(()))),
        Some(DownloadAction::WaitForDownload)
    ));
    match job.step(DownloadEvent::DownloadFinished) {
        Some(DownloadAction::ExtractAudio { program, arguments }) => {
            assert_eq!(program, "ffmpeg");
            assert_eq!(
                arguments,
                ["-i", &video(), "-q:a", "0", "-map", "a", &audio()]
            );
        }
        other => panic!("unexpected {:?}", other),
    }
    match job.step(DownloadEvent::AudioExtracted(Ok(true))) {
        Some(DownloadAction::ReadAudio { path }) => assert_eq!(path, audio()),
        other => panic!("unexpected {:?}", other),
    }
    match job.step(DownloadEvent::AudioRead(Ok(vec![1, 2, 3]))) {
        Some(DownloadAction::ReadTitle { path }) => assert_eq!(path, audio()),
        other => panic!("unexpected {:?}", other),
    }
    match job.step(DownloadEvent::TagRead(Ok(tagged()))) {
        Some(DownloadAction::OpenAudio { path }) => assert_eq!(path, audio()),
        other => panic!("unexpected {:?}", other),
    }
    match job.step(DownloadEvent::AudioOpened(sound())) {
        Some(DownloadAction::RemoveAudio { path }) => assert_eq!(path, audio()),
        other => panic!("unexpected {:?}", other),
    }
    match job.step(DownloadEvent::AudioRemoved) {
        Some(DownloadAction::RemoveVideo { path }) => assert_eq!(path, video()),
        other => panic!("unexpected {:?}", other),
    }
    match job.step(DownloadEvent::VideoRemoved) {
        Some(DownloadAction::Report { text }) => {
            assert_eq!(text, "Download complete! Added to queue.")
        }
        other => panic!("unexpected {:?}", other),
    }
    let track = ended(job.step(DownloadEvent::Reported)).unwrap();
    assert_eq!(track.audio_data, vec![1, 2, 3]);
    assert_eq!(track.title, "Song");
    assert_eq!(track.duration, Some(Span { secs: 4, nanos: 500_000_000 }));
    assert!(job.step(DownloadEvent::Reported).is_none());
}

#[test]
fn each_failure_ends_the_job_with_its_message() {
    let broken = || "broken".to_string();
    let mut job = job_after(0);
    assert_eq!(ended(job.step(DownloadEvent::FetcherPrepared(Err(broken())))).unwrap_err(), "broken");
    let mut job = job_after(1);
    assert_eq!(ended(job.step(DownloadEvent::VideoFetched(Err(broken())))).unwrap_err(), "broken");
    let mut job = job_after(2);
    assert_eq!(ended(job.step(DownloadEvent::DownloadStarted(Err(broken())))).unwrap_err(), "broken");
    let mut job = job_after(4);
    assert_eq!(ended(job.step(DownloadEvent::AudioExtracted(Err(broken())))).unwrap_err(), "broken");
    let mut job = job_after(4);
    assert_eq!(
        ended(job.step(DownloadEvent::AudioExtracted(Ok(false)))).unwrap_err(),
        "Failed to extract audio from video"
    );
    let mut job = job_after(5);
    assert_eq!(ended(job.step(DownloadEvent::AudioRead(Err(broken())))).unwrap_err(), "broken");
    assert!(job.step(DownloadEvent::AudioRead(Ok(vec![]))).is_none());
}

#[test]
fn sound_that_cannot_be_opened_or_decoded_is_an_error() {
    let mut job = job_after(7);
    assert_eq!(
        ended(job.step(DownloadEvent::AudioNotOpened)).unwrap_err(),
        "Failed to open audio file"
    );
    let mut job = job_after(7);
    assert_eq!(
        ended(job.step(DownloadEvent::AudioNotReadable)).unwrap_err(),
        "Failed to decode audio"
    );
    let mut job = job_after(7);
    assert_eq!(
        ended(job.step(DownloadEvent::AudioOpened(vec![7; 4096]))).unwrap_err(),
        "Failed to decode audio"
    );
}

#[test]
fn an_opening_decides_how_a_job_goes_on() {
    let mut job = job_after(7);
    assert_eq!(
        ended(job.measured(Err("broken".to_string()))).unwrap_err(),
        "Failed to decode audio"
    );
    let mut job = job_after(7);
    assert!(matches!(
        job.measured(Ok(Some(Span { secs: 9, nanos: 8 }))),
        Some(DownloadAction::RemoveAudio { .. })
    ));
    job.step(DownloadEvent::AudioRemoved);
    job.step(DownloadEvent::VideoRemoved);
    let track = ended(job.step(DownloadEvent::Reported)).unwrap();
    assert_eq!(track.duration, Some(Span { secs: 9, nanos: 8 }));
    let mut job = job_after(3);
    assert!(job.measured(Ok(None)).is_none());
}

#[test]
fn the_files_of_a_download_are_cleaned_up() {
    let mut job = job_after(7);
    let mut removed = Vec::new();
    let mut event = DownloadEvent::AudioOpened(sound());
    let outcome = loop {
        event = match job.step(event) {
            Some(DownloadAction::RemoveAudio { path }) => {
                removed.push(path);
                DownloadEvent::AudioRemoved
            }
            Some(DownloadAction::RemoveVideo { path }) => {
                removed.push(path);
                DownloadEvent::VideoRemoved
            }
            Some(DownloadAction::Report { .. }) => DownloadEvent::Reported,
            other => break ended(other),
        };
    };
    assert!(outcome.is_ok());
    assert_eq!(removed, [audio(), video()]);
}

#[test]
fn an_event_out_of_turn_changes_nothing() {
    let mut job = job_after(1);
    assert!(job.step(DownloadEvent::Reported).is_none());
    assert!(job.step(DownloadEvent::FetcherPrepared(Ok(()))).is_none());
    assert!(matches!(
        job.step(DownloadEvent::VideoFetched(Ok(()))),
        Some(DownloadAction::DownloadVideo { .. })
    ));
}

#[test]
fn titles_have_a_stand_in() {
    assert_eq!(track_title(Ok(Some("Song".to_string()))), "Song");
    assert_eq!(track_title(Ok(None)), "Unknown Title");
    assert_eq!(track_title(Err(())), "Unknown Title");
}

/// The title that a job ends with after `event` at the place of the tag.
fn title_after(event: DownloadEvent) -> String {
    let mut job = job_after(6);
    assert!(matches!(job.step(event), Some(DownloadAction::OpenAudio { .. })));
    job.step(DownloadEvent::AudioOpened(sound()));
    job.step(DownloadEvent::AudioRemoved);
    job.step(DownloadEvent::VideoRemoved);
    ended(job.step(DownloadEvent::Reported)).unwrap().title
}

#[test]
fn titles_come_from_the_tag() {
    assert_eq!(title_after(DownloadEvent::TagRead(Ok(tagged()))), "Song");
    assert_eq!(title_after(DownloadEvent::TagRead(Ok(untitled()))), "Unknown Title");
    assert_eq!(title_after(DownloadEvent::TagRead(Ok(sound()))), "Unknown Title");
    assert_eq!(title_after(DownloadEvent::TagRead(Ok(vec![]))), "Unknown Title");
    assert_eq!(
        title_after(DownloadEvent::TagRead(Err("no such file".to_string()))),
        "Unknown Title"
    );
}

#[test]
fn a_title_decides_how_a_job_goes_on() {
    let mut job = job_after(6);
    assert!(matches!(
        job.titled(Ok(Some("Other".to_string()))),
        Some(DownloadAction::OpenAudio { .. })
    ));
    job.step(DownloadEvent::AudioOpened(sound()));
    job.step(DownloadEvent::AudioRemoved);
    job.step(DownloadEvent::VideoRemoved);
    let track = ended(job.step(DownloadEvent::Reported)).unwrap();
    assert_eq!(track.title, "Other");
    let mut job = job_after(2);
    assert!(job.titled(Err(())).is_none());
}

#[test]
fn progress_is_shown_in_percent() {
    assert_eq!(progress_text(1000, 42), "Downloading... 42% complete");
    assert_eq!(progress_text(1000, 100), "Downloading... 100% complete");
    assert_eq!(progress_text(0, 42), "Downloading... 0% complete");
}
