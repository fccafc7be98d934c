//! The names of the files that a download leaves on disk.

use sha3::{Digest, Sha3_256};
use vstd::prelude::*;
use vstd::string::*;

verus! {

/// The SHA3-256 digest of a message.
pub uninterp spec fn sha3_256_digest(message: Seq<u8>) -> Seq<u8>;

/// The digest of a message by `sha3::Sha3_256` (`default`, one `update` with the whole
/// message, `finalize`): 32 bytes that depend on the message alone.
#[verifier::external_body]
fn sha3_256(message: &[u8]) -> (digest: Vec<u8>)
    ensures
        digest@ == sha3_256_digest(message@),
        digest@.len() == 32,
{
    let mut hasher = Sha3_256::default();
    hasher.update(message);
    hasher.finalize().to_vec()
}

/// The character of a hexadecimal digit, in lower case.
pub open spec fn hex_char(digit: nat) -> char {
    if digit < 10 {
        (48 + digit) as char
    } else {
        (87 + digit) as char
    }
}

/// Bytes in hexadecimal notation: two digits for each byte, the higher one first.
pub open spec fn hex_string(bytes: Seq<u8>) -> Seq<char> {
    Seq::new(
        2 * bytes.len(),
        |i: int|
            if i % 2 == 0 {
                hex_char((bytes[i / 2] / 16) as nat)
            } else {
                hex_char((bytes[i / 2] % 16) as nat)
            },
    )
}

/// Hexadecimal notation by `hex::encode`: two lower-case digits for each byte, the
/// higher one first.
#[verifier::external_body]
fn hex_encode(bytes: &[u8]) -> (text: String)
    ensures
        text@ == hex_string(bytes@),
{
    hex::encode(bytes)
}

/// The name under which the files for an address are kept.
pub open spec fn hash_name(url: Seq<char>) -> Seq<char> {
    hex_string(sha3_256_digest(vstd::utf8::encode_utf8(url)))
}

/// The file that a downloaded video is kept in.
pub open spec fn video_file(name: Seq<char>) -> Seq<char> {
    "/tmp/"@ + name + ".mp4"@
}

/// The file that the sound of a video is kept in.
pub open spec fn audio_file(name: Seq<char>) -> Seq<char> {
    "/tmp/"@ + name + ".mp3"@
}

/// The hexadecimal notation of a digest.
pub fn digest_name(digest: &[u8]) -> (name: String)
    ensures
        name@ == hex_string(digest@),
{
    hex_encode(digest)
}

/// The name under which the files for an address are kept.
pub fn url_hash(url: &str) -> (name: String)
    ensures
        name@ == hash_name(url@),
        name@.len() == 64,
{
    let digest = sha3_256(url.as_bytes());
    digest_name(digest.as_slice())
}

/// The file that a downloaded video is kept in.
pub fn video_path(name: &str) -> (path: String)
    ensures
        path@ == video_file(name@),
{
    let mut path = String::from_str("/tmp/");
    path.append(name);
    path.append(".mp4");
    path
}

/// The file that the sound of a video is kept in.
pub fn audio_path(name: &str) -> (path: String)
    ensures
        path@ == audio_file(name@),
{
    let mut path = String::from_str("/tmp/");
    path.append(name);
    path.append(".mp3");
    path
}

/// Whether a character is a hexadecimal digit in lower case.
pub open spec fn is_hex_char(c: char) -> bool {
    '0' <= c <= '9' || 'a' <= c <= 'f'
}

/// A name is made of hexadecimal digits alone, whatever the address holds, so a file
/// lies in the directory `/tmp/` itself: nothing behind that is a slash.
pub proof fn law_names_are_plain(url: Seq<char>)
    ensures
        forall|i: int| 0 <= i < hash_name(url).len() ==> is_hex_char(#[trigger] hash_name(url)[i]),
        "/tmp/"@.is_prefix_of(video_file(hash_name(url))),
        "/tmp/"@.is_prefix_of(audio_file(hash_name(url))),
        forall|i: int|
            "/tmp/"@.len() <= i < video_file(hash_name(url)).len() ==> #[trigger] video_file(
                hash_name(url),
            )[i] != '/',
        forall|i: int|
            "/tmp/"@.len() <= i < audio_file(hash_name(url)).len() ==> #[trigger] audio_file(
                hash_name(url),
            )[i] != '/',
{
    reveal_strlit("/tmp/");
    reveal_strlit(".mp4");
    reveal_strlit(".mp3");
    let name = hash_name(url);
    assert(forall|i: int| 0 <= i < name.len() ==> is_hex_char(#[trigger] name[i]));
    assert forall|i: int| 5 <= i < video_file(name).len() implies #[trigger] video_file(name)[i]
        != '/' by {
        if i < 5 + name.len() {
            assert(is_hex_char(name[i - 5]));
        }
    }
    assert forall|i: int| 5 <= i < audio_file(name).len() implies #[trigger] audio_file(name)[i]
        != '/' by {
        if i < 5 + name.len() {
            assert(is_hex_char(name[i - 5]));
        }
    }
}

proof fn lemma_hex_char_differs(a: nat, b: nat)
    requires
        a < 16,
        b < 16,
        hex_char(a) == hex_char(b),
    ensures
        a == b,
{
}

/// Different digests have different names.
pub proof fn law_names_tell_digests_apart(first: Seq<u8>, second: Seq<u8>)
    requires
        hex_string(first) == hex_string(second),
    ensures
        first == second,
{
    assert(hex_string(first).len() == 2 * first.len());
    assert(hex_string(second).len() == 2 * second.len());
    assert forall|i: int| 0 <= i < first.len() implies first[i] == second[i] by {
        let high = 2 * i;
        let low = 2 * i + 1;
        assert(high / 2 == i && high % 2 == 0 && low / 2 == i && low % 2 == 1);
        assert(hex_string(first)[high] == hex_char((first[i] / 16) as nat));
        assert(hex_string(second)[high] == hex_char((second[i] / 16) as nat));
        assert(hex_string(first)[low] == hex_char((first[i] % 16) as nat));
        assert(hex_string(second)[low] == hex_char((second[i] % 16) as nat));
        lemma_hex_char_differs((first[i] / 16) as nat, (second[i] / 16) as nat);
        lemma_hex_char_differs((first[i] % 16) as nat, (second[i] % 16) as nat);
    }
    assert(first =~= second);
}

/// Two names never share a file, and no file is both a video and its sound.
pub proof fn law_files_are_distinct(first: Seq<char>, second: Seq<char>)
    ensures
        video_file(first) == video_file(second) ==> first == second,
        audio_file(first) == audio_file(second) ==> first == second,
        video_file(first) != audio_file(second),
{
    reveal_strlit("/tmp/");
    reveal_strlit(".mp4");
    reveal_strlit(".mp3");
    let n = first.len() as int;
    assert(video_file(first).subrange(5, 5 + n) =~= first);
    assert(audio_file(first).subrange(5, 5 + n) =~= first);
    assert(video_file(second).subrange(5, 5 + second.len() as int) =~= second);
    assert(audio_file(second).subrange(5, 5 + second.len() as int) =~= second);
    assert(video_file(first).last() == '4');
    assert(audio_file(second).last() == '3');
}

/// A name spells a digest byte by byte: each further byte adds two hexadecimal digits
/// behind those of the bytes in front of it, the higher one first.
pub proof fn law_names_spell_the_digest(bytes: Seq<u8>, high: nat, low: nat)
    requires
        high < 16,
        low < 16,
    ensures
        hex_string(Seq::empty()) == Seq::<char>::empty(),
        hex_string(bytes.push((16 * high + low) as u8)) == hex_string(bytes).push(
            "0123456789abcdef"@[high as int],
        ).push("0123456789abcdef"@[low as int]),
{
    reveal_strlit("0123456789abcdef");
    let byte = (16 * high + low) as u8;
    let longer = bytes.push(byte);
    let n = 2 * bytes.len() as int;
    assert(byte / 16 == high && byte % 16 == low);
    assert("0123456789abcdef"@[high as int] == hex_char(high));
    assert("0123456789abcdef"@[low as int] == hex_char(low));
    assert(n / 2 == bytes.len() && n % 2 == 0 && (n + 1) / 2 == bytes.len() && (n + 1) % 2 == 1);
    assert forall|i: int| 0 <= i < n implies hex_string(longer)[i] == hex_string(bytes)[i] by {
        assert(longer[i / 2] == bytes[i / 2]);
    }
    assert(hex_string(longer) =~= hex_string(bytes).push(hex_char(high)).push(hex_char(low)));
}

/// The files for an address lie in `/tmp/` and are named after the SHA3-256 digest of the
/// address, the video with the ending `.mp4` and its sound with the ending `.mp3`.
pub proof fn law_files_are_named_after_the_digest(url: Seq<char>, name: Seq<char>)
    requires
        name == hex_string(sha3_256_digest(vstd::utf8::encode_utf8(url))),
    ensures
        hash_name(url) == name,
        video_file(name) == "/tmp/"@ + name + ".mp4"@,
        audio_file(name) == "/tmp/"@ + name + ".mp3"@,
{
}

} // verus!
