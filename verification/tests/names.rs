use further_ng::cache::{audio_path, digest_name, url_hash, video_path};
use further_ng::span::{push_clock, Span};
use further_ng::text::{push_decimal, push_two_digits};

fn decimal(n: u64) -> String {
    let mut text = "n=".to_string();
    push_decimal(&mut text, n);
    text
}

fn two_digits(n: u64) -> String {
    let mut text = String::new();
    push_two_digits(&mut text, n);
    text
}

fn clock(span: Option<Span>) -> String {
    let mut text = String::new();
    push_clock(&mut text, span);
    text
}

#[test]
fn decimal_numbers() {
    assert_eq!(decimal(0), "n=0");
    assert_eq!(decimal(9), "n=9");
    assert_eq!(decimal(10), "n=10");
    assert_eq!(decimal(1234567890), "n=1234567890");
    assert_eq!(decimal(u64::MAX), "n=18446744073709551615");
}

#[test]
fn at_least_two_digits() {
    assert_eq!(two_digits(0), "00");
    assert_eq!(two_digits(7), "07");
    assert_eq!(two_digits(10), "10");
    assert_eq!(two_digits(123), "123");
}

#[test]
fn clocks() {
    assert_eq!(clock(None), "??:??");
    assert_eq!(clock(Some(Span { secs: 0, nanos: 999_999_999 })), "00:00");
    assert_eq!(clock(Some(Span { secs: 59, nanos: 0 })), "00:59");
    assert_eq!(clock(Some(Span { secs: 60, nanos: 0 })), "01:00");
    assert_eq!(clock(Some(Span { secs: 3_725, nanos: 0 })), "62:05");
}

#[test]
fn names_are_digests_in_hexadecimal() {
    assert_eq!(
        url_hash(""),
        "a7ffc6f8bf1ed76651c14756a061d662f580ff4de43b49fa82d80a4b80f8434a"
    );
    assert_eq!(
        url_hash("abc"),
        "3a985da74fe225b2045c172d6bd390bd855f086e3e9d525b46bfe24511431532"
    );
    assert_eq!(digest_name(&[0, 1, 15, 16, 171, 255]), "00010f10abff");
}

#[test]
fn names_are_plain_for_any_address() {
    let name = url_hash("../../etc/passwd?x=/ü");
    assert_eq!(name.len(), 64);
    assert!(name.chars().all(|c| c.is_ascii_digit() || ('a'..='f').contains(&c)));
}

#[test]
fn files_carry_the_name() {
    assert_eq!(video_path("12ab"), "/tmp/12ab.mp4");
    assert_eq!(audio_path("12ab"), "/tmp/12ab.mp3");
    assert_ne!(video_path("12ab"), audio_path("12ab"));
    assert_ne!(audio_path("12ab"), audio_path("12ac"));
}
