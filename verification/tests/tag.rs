use further_ng::download::{DownloadAction, DownloadEvent, DownloadJob};
use further_ng::tag::{is_readable, title};

/// A size as version 4 of the tag writes it.
fn safe(size: usize) -> [u8; 4] {
    let size = size as u32;
    [(size >> 21) as u8 & 127, (size >> 14) as u8 & 127, (size >> 7) as u8 & 127, size as u8 & 127]
}

/// A frame of a tag in version 4.
fn frame(name: &[u8; 4], flags: u8, content: &[u8]) -> Vec<u8> {
    [&name[..], &safe(content.len())[..], &[0, flags][..], content].concat()
}

/// A tag in version 4 that holds the title `Song` and then some frames.
fn tag(frames: &[u8]) -> Vec<u8> {
    let content = [&frame(b"TIT2", 0, b"\x03Song")[..], frames].concat();
    [&b"ID3\x04\x00\x00"[..], &safe(content.len())[..], &content].concat()
}

/// A chapter that holds some frames.
fn chapter(frames: &[u8]) -> Vec<u8> {
    frame(b"CHAP", 0, &[&b"c\x00"[..], &[0; 16][..], frames].concat())
}

/// Chapters within each other.
fn nested(depth: usize) -> Vec<u8> {
    let mut frames = Vec::new();
    for _ in 0..depth {
        frames = chapter(&frames);
    }
    frames
}

/// Tables of contents within each other.
fn nested_tables(depth: usize) -> Vec<u8> {
    let mut frames = Vec::new();
    for _ in 0..depth {
        frames = frame(b"CTOC", 0, &[&b"t\x00\x00\x00"[..], &frames].concat());
    }
    frames
}

fn song() -> Result<Option<String>, ()> {
    Ok(Some("Song".to_string()))
}

#[test]
fn a_title_is_found() {
    assert_eq!(title(tag(&[])), song());
    assert_eq!(title(b"ID3\x04\x00\x00\x00\x00\x00\x00".to_vec()), Ok(None));
    assert_eq!(title(vec![7; 100]), Err(()));
    assert_eq!(title(vec![]), Err(()));
}

#[test]
fn chapters_side_by_side_do_no_harm() {
    let entry = chapter(&frame(b"TIT2", 0, b"\x03One"));
    let many = entry.repeat(300);
    assert!(is_readable(&tag(&many)));
    assert_eq!(title(tag(&many)), song());
}

#[test]
fn chapters_may_lie_within_chapters() {
    assert_eq!(title(tag(&nested(1))), song());
    assert_eq!(title(tag(&nested(8))), song());
    assert_eq!(title(tag(&nested_tables(8))), song());
    assert_eq!(title(tag(&nested(8).repeat(3))), song());
}

#[test]
fn chapters_that_lie_too_deep_are_not_read() {
    assert_eq!(title(tag(&nested(9))), Err(()));
    assert_eq!(title(tag(&nested(5000))), Err(()));
    assert_eq!(title(tag(&nested_tables(9))), Err(()));
    assert_eq!(title(tag(&nested_tables(50000))), Err(()));
}

#[test]
fn stuffing_does_not_hide_depth() {
    let entry = chapter(&frame(b"PRIV", 0, b"\x00\xff\x00"));
    assert_eq!(title(tag(&entry.repeat(8))), song());
    assert!(!is_readable(&tag(&entry.repeat(9))));
}

#[test]
fn a_compressed_chapter_is_not_read() {
    let packed = frame(b"CHAP", 8, &[&b"c\x00"[..], &[0; 16][..]].concat());
    assert!(!is_readable(&tag(&packed)));
    let text = frame(b"TALB", 8, &[0; 8]);
    assert!(is_readable(&tag(&text)));
}

#[test]
fn a_chapter_that_reaches_beyond_the_tag_is_not_read() {
    let mut data = tag(&frame(b"TALB", 0, b"\x03Album"));
    data.extend_from_slice(&vec![0; 1000]);
    assert_eq!(title(data.clone()), song());
    let start = data.len() - 1000;
    let long = [&b"CHAP"[..], &safe(900)[..], &[0, 0][..]].concat();
    data[start..start + 10].copy_from_slice(&long);
    assert!(!is_readable(&data));
}

#[test]
fn letters_behind_the_tag_do_no_harm() {
    let mut data = tag(&[]);
    data.extend_from_slice(&vec![0; 1000]);
    data.extend_from_slice(&b"CHAP\xff\xff\xff\xff\xff\xff".repeat(100));
    assert_eq!(title(data), song());
}

#[test]
fn a_download_with_too_deep_a_tag_gets_the_stand_in_title() {
    let (mut job, _) = DownloadJob::new("abc");
    job.step(DownloadEvent::FetcherPrepared(Ok(())));
    job.step(DownloadEvent::VideoFetched(Ok(())));
    job.step(DownloadEvent::DownloadStarted(Ok(())));
    job.step(DownloadEvent::DownloadFinished);
    job.step(DownloadEvent::AudioExtracted(Ok(true)));
    job.step(DownloadEvent::AudioRead(Ok(vec![1])));
    job.step(DownloadEvent::TagRead(Ok(tag(&nested(5000)))));
    job.measured(Ok(None));
    job.step(DownloadEvent::AudioRemoved);
    job.step(DownloadEvent::VideoRemoved);
    match job.step(DownloadEvent::Reported) {
        Some(DownloadAction::Finish(Ok(track))) => assert_eq!(track.title, "Unknown Title"),
        other => panic!("unexpected {:?}", other),
    }
}
