//! Reading the tag of a sound file with `id3`.
//!
//! A frame of a tag that describes a chapter or a table of contents holds frames
//! itself, and the reader goes into them however deep they lie. So a tag is looked over
//! first: one in which they may lie too deep is not read.

use id3::{Tag, TagLike};
use std::io::Cursor;
use vstd::prelude::*;

verus! {

/// How deep frames may lie within frames.
pub const DEPTH: usize = 8;

/// Whether the header of a frame that holds frames stands at `i`: one named `CHAP` or
/// `CTOC`.
pub open spec fn nests_at(data: Seq<u8>, i: int) -> bool {
    &&& 0 <= i
    &&& i + 10 <= data.len()
    &&& data[i] == 67
    &&& (data[i + 1] == 72 && data[i + 2] == 65 && data[i + 3] == 80) || (data[i + 1] == 84
        && data[i + 2] == 79 && data[i + 3] == 67)
}

/// The places before `end` at which the header of a frame that holds frames stands.
pub open spec fn nests(data: Seq<u8>, end: int) -> Seq<int>
    decreases end,
{
    if end <= 0 {
        Seq::empty()
    } else if nests_at(data, end - 1) {
        nests(data, end - 1).push(end - 1)
    } else {
        nests(data, end - 1)
    }
}

/// Whether the byte behind `i` may be stuffing: a zero behind 0xff is passed over where
/// a tag is marked as unsynchronised.
pub open spec fn stuffed_at(data: Seq<u8>, i: int) -> bool {
    0 <= i && i + 1 < data.len() && data[i] == 0xff && data[i + 1] == 0
}

/// Whether there may be stuffing behind one of the bytes from `from` up to `to`.
pub open spec fn stuffed(data: Seq<u8>, from: int, to: int) -> bool {
    exists|i: int| from <= i < to && #[trigger] stuffed_at(data, i)
}

/// A number of four bytes, of which each counts `base` times the one behind it.
pub open spec fn number(data: Seq<u8>, i: int, base: int) -> int {
    ((data[i] * base + data[i + 1]) * base + data[i + 2]) * base + data[i + 3]
}

/// Whether the data begin with a tag.
pub open spec fn tagged(data: Seq<u8>) -> bool {
    10 <= data.len() && data[0] == 73 && data[1] == 68 && data[2] == 51
}

/// What each byte of a frame's size counts against the one behind it: 128 in version 4
/// of the tag, else 256.
pub open spec fn size_base(data: Seq<u8>) -> int {
    if tagged(data) && data[3] == 4 {
        128
    } else {
        256
    }
}

/// The most bytes that the frame at `i` can have behind its header.
pub open spec fn frame_size(data: Seq<u8>, i: int) -> int {
    number(data, i + 4, size_base(data))
}

/// Where the tag has ended at the latest: the size in its header counts bytes without
/// stuffing, which can at most double them. A tag that does not stand at the beginning
/// may reach to the end.
pub open spec fn tag_end(data: Seq<u8>) -> int {
    let end = 20 + 2 * number(data, 6, 128);
    if tagged(data) && end < data.len() {
        end
    } else {
        data.len() as int
    }
}

/// Whether the frame at `i` may be compressed: its flags say so, or stuffing hides
/// where they are.
pub open spec fn packed(data: Seq<u8>, i: int) -> bool {
    stuffed(data, i + 4, i + 9) || data[i + 9] / 128 % 2 == 1 || data[i + 9] / 8 % 2 == 1
}

/// Whether the frame at `i` ends within the tag, whatever stuffing there is in it.
pub open spec fn contained(data: Seq<u8>, i: int) -> bool {
    tag_end(data) == data.len() || i + 20 + 2 * frame_size(data, i) <= tag_end(data)
}

/// Whether the frame at `i` has ended before `j`, and no stuffing hides that.
pub open spec fn apart(data: Seq<u8>, i: int, j: int) -> bool {
    i + 10 + frame_size(data, i) <= j && !stuffed(data, i, j)
}

/// Whether the tag can be read: each frame in it that holds frames is in plain and ends
/// within the tag, and has ended before as many others as may lie within each other
/// have begun.
pub open spec fn readable(data: Seq<u8>) -> bool {
    let places = nests(data, tag_end(data));
    &&& forall|k: int|
        0 <= k < places.len() ==> !packed(data, #[trigger] places[k]) && contained(data, places[k])
    &&& forall|k: int|
        DEPTH <= k < places.len() ==> apart(data, places[k - DEPTH], #[trigger] places[k])
}

/// The title in the tag of a sound file, if the tag holds one, or an error where there
/// is no tag that can be read.
pub uninterp spec fn tag_title(data: Seq<u8>) -> Result<Option<Seq<char>>, ()>;

/// What looking for a title can come to, in the form that [`tag_title`] gives it.
pub type Titling = Result<Option<Seq<char>>, ()>;

/// What looking for a title comes to. A tag in which frames may lie too deep counts as
/// one that cannot be read.
pub open spec fn titling(data: Seq<u8>) -> Titling {
    if readable(data) {
        tag_title(data)
    } else {
        Err(())
    }
}

/// What looking for a title came to, with the title taken by its view.
pub open spec fn outcome(result: Result<Option<String>, ()>) -> Titling {
    match result {
        Ok(Some(title)) => Ok(Some(title@)),
        Ok(None) => Ok(None),
        Err(_) => Err(()),
    }
}

/// Reads the tag of a sound file from its contents (`id3::Tag::read_from2` on a cursor)
/// and looks up the title in it (`id3::TagLike::title`). What comes out depends on the
/// contents alone. Which error it was is not handed on.
///
/// The reader calls itself for the frames within a `CHAP` or `CTOC` frame, at some 40 KiB
/// of stack a level. Contents in which such frames may lie more than [`DEPTH`] deep are
/// left out, and those with a compressed one, whose depth does not show. The letters of
/// a name stand together in the contents, whether or not there is stuffing, so [`nests`]
/// finds every frame that the reader goes into. That there is stack for so many levels,
/// and memory for what a tag claims to hold, is taken for granted.
#[verifier::external_body]
fn read_title(data: Vec<u8>) -> (result: Result<Option<String>, ()>)
    requires
        readable(data@),
    ensures
        outcome(result) == tag_title(data@),
{
    match Tag::read_from2(Cursor::new(data)) {
        Ok(tag) => Ok(tag.title().map(|title| title.to_string())),
        Err(_) => Err(()),
    }
}

fn header_nests(data: &Vec<u8>, i: usize) -> (result: bool)
    requires
        i < data.len(),
    ensures
        result == nests_at(data@, i as int),
{
    data.len() - i >= 10 && data[i] == 67 && ((data[i + 1] == 72 && data[i + 2] == 65 && data[i + 3]
        == 80) || (data[i + 1] == 84 && data[i + 2] == 79 && data[i + 3] == 67))
}

fn may_be_stuffed(data: &Vec<u8>, i: usize) -> (result: bool)
    requires
        i < data.len(),
    ensures
        result == stuffed_at(data@, i as int),
{
    data.len() - i >= 2 && data[i] == 0xff && data[i + 1] == 0
}

fn read_number(data: &Vec<u8>, i: usize, base: u64) -> (result: u64)
    requires
        i + 4 <= data.len(),
        base == 128 || base == 256,
    ensures
        result == number(data@, i as int, base as int),
        result <= 0xffff_ffff,
{
    let (a, b, c, d) = (data[i] as u64, data[i + 1] as u64, data[i + 2] as u64, data[i + 3] as u64);
    if base == 128 {
        ((a * 128 + b) * 128 + c) * 128 + d
    } else {
        ((a * 256 + b) * 256 + c) * 256 + d
    }
}

fn begins_with_tag(data: &Vec<u8>) -> (result: bool)
    ensures
        result == tagged(data@),
{
    data.len() >= 10 && data[0] == 73 && data[1] == 68 && data[2] == 51
}

fn find_tag_end(data: &Vec<u8>) -> (end: usize)
    ensures
        end == tag_end(data@),
{
    if begins_with_tag(data) {
        let end: u64 = 20 + 2 * read_number(data, 6, 128);
        if end < data.len() as u64 {
            return end as usize;
        }
    }
    data.len()
}

fn read_frame_size(data: &Vec<u8>, i: usize) -> (size: u64)
    requires
        i + 10 <= data.len(),
    ensures
        size == frame_size(data@, i as int),
        size <= 0xffff_ffff,
{
    if begins_with_tag(data) && data[3] == 4 {
        read_number(data, i + 4, 128)
    } else {
        read_number(data, i + 4, 256)
    }
}

fn may_be_packed(data: &Vec<u8>, i: usize) -> (result: bool)
    requires
        i + 10 <= data.len(),
    ensures
        result == packed(data@, i as int),
{
    let mut p: usize = i + 4;
    while p < i + 9
        invariant
            i + 10 <= data.len(),
            i + 4 <= p <= i + 9,
            !stuffed(data@, i + 4, p as int),
        decreases i + 9 - p,
    {
        if may_be_stuffed(data, p) {
            return true;
        }
        p += 1;
    }
    data[i + 9] / 128 % 2 == 1 || data[i + 9] / 8 % 2 == 1
}

/// The places found so far stand first among all that there are.
proof fn lemma_nests_grow(data: Seq<u8>, from: int, to: int)
    requires
        from <= to,
    ensures
        nests(data, from).len() <= nests(data, to).len(),
        forall|k: int|
            0 <= k < nests(data, from).len() ==> #[trigger] nests(data, to)[k] == nests(
                data,
                from,
            )[k],
    decreases to - from,
{
    if from < to {
        lemma_nests_grow(data, from, to - 1);
    }
}

/// Whether the tag of a sound file can be read.
pub fn is_readable(data: &Vec<u8>) -> (result: bool)
    ensures
        result == readable(data@),
{
    let end = find_tag_end(data);
    let mut places: Vec<usize> = Vec::new();
    // There is no stuffing behind the bytes from here on, as far as they have been seen.
    let mut plain: usize = 0;
    let mut i: usize = 0;
    while i < end
        invariant
            i <= end,
            end == tag_end(data@),
            end <= data.len(),
            plain <= i,
            plain > 0 ==> stuffed_at(data@, plain - 1),
            !stuffed(data@, plain as int, i as int),
            places@.map_values(|place: usize| place as int) == nests(data@, i as int),
            forall|k: int|
                0 <= k < places.len() ==> #[trigger] places[k] < i && nests_at(
                    data@,
                    places[k] as int,
                ) && !packed(data@, places[k] as int) && contained(data@, places[k] as int),
            forall|k: int|
                DEPTH <= k < places.len() ==> apart(
                    data@,
                    places[k - DEPTH] as int,
                    #[trigger] places[k] as int,
                ),
        decreases end - i,
    {
        if header_nests(data, i) {
            let ghost all = nests(data@, end as int);
            let ghost here = nests(data@, i + 1);
            let count = places.len();
            proof {
                lemma_nests_grow(data@, i + 1, end as int);
                assert(here == nests(data@, i as int).push(i as int));
                assert(here.len() == count + 1);
                assert(all[count as int] == i);
            }
            let size = read_frame_size(data, i);
            if may_be_packed(data, i) || (end < data.len() && ((end - i) as u64) < 20 + 2 * size) {
                return false;
            }
            if count >= DEPTH {
                let earlier = places[count - DEPTH];
                proof {
                    assert(places@.map_values(|place: usize| place as int)[count - DEPTH]
                        == earlier);
                    assert(all[count - DEPTH] == earlier);
                }
                let earlier_size = read_frame_size(data, earlier);
                if ((i - earlier) as u64) < 10 + earlier_size || plain > earlier {
                    return false;
                }
            }
            places.push(i);
            assert(places@.map_values(|place: usize| place as int) =~= here);
        }
        if may_be_stuffed(data, i) {
            plain = i + 1;
        }
        i += 1;
    }
    proof {
        let all = nests(data@, end as int);
        assert forall|k: int| 0 <= k < all.len() implies #[trigger] all[k] == places[k] by {
            assert(places@.map_values(|place: usize| place as int)[k] == places[k]);
        }
    }
    true
}

/// Looks for the title in the tag of a sound file.
pub fn title(data: Vec<u8>) -> (result: Result<Option<String>, ()>)
    ensures
        outcome(result) == titling(data@),
{
    if is_readable(&data) {
        read_title(data)
    } else {
        Err(())
    }
}

proof fn lemma_nests_are_found(data: Seq<u8>, end: int)
    ensures
        forall|k: int|
            0 <= k < nests(data, end).len() ==> nests_at(data, #[trigger] nests(data, end)[k]),
    decreases end,
{
    if end > 0 {
        lemma_nests_are_found(data, end - 1);
        assert forall|k: int| 0 <= k < nests(data, end).len() implies nests_at(
            data,
            #[trigger] nests(data, end)[k],
        ) by {
            if k < nests(data, end - 1).len() {
                assert(nests(data, end)[k] == nests(data, end - 1)[k]);
            }
        }
    }
}

/// The title of a file is looked up in its tag wherever no frame holds frames, and also
/// where some do but are too few to lie too deep, are in plain and end within the tag.
pub proof fn law_ordinary_tags_are_read(data: Seq<u8>)
    requires
        nests(data, tag_end(data)).len() <= DEPTH,
        forall|i: int| #[trigger] nests_at(data, i) ==> !packed(data, i) && contained(data, i),
    ensures
        titling(data) == tag_title(data),
{
    lemma_nests_are_found(data, tag_end(data));
}

/// The title is looked up in the tag of every file in which neither of the names `CHAP`
/// and `CTOC` stands.
pub proof fn law_tags_without_chapters_are_read(data: Seq<u8>)
    requires
        forall|i: int|
            0 <= i && i + 4 <= data.len() && #[trigger] data[i] == 67 ==> {
                &&& !(data[i + 1] == 72 && data[i + 2] == 65 && data[i + 3] == 80)
                &&& !(data[i + 1] == 84 && data[i + 2] == 79 && data[i + 3] == 67)
            },
    ensures
        readable(data),
        titling(data) == tag_title(data),
{
    lemma_nests_are_found(data, tag_end(data));
    assert forall|i: int| !nests_at(data, i) by {
        if nests_at(data, i) {
            assert(data[i] == 67);
        }
    }
}

proof fn lemma_nests_hold_all(data: Seq<u8>, end: int, i: int)
    requires
        nests_at(data, i),
        i < end,
    ensures
        exists|k: int| 0 <= k < nests(data, end).len() && #[trigger] nests(data, end)[k] == i,
    decreases end,
{
    let places = nests(data, end);
    if i == end - 1 {
        assert(places[places.len() - 1] == i);
    } else {
        lemma_nests_hold_all(data, end - 1, i);
        let k = choose|k: int|
            0 <= k < nests(data, end - 1).len() && #[trigger] nests(data, end - 1)[k] == i;
        assert(places[k] == i);
    }
}

/// A file is not read for its title where a frame in its tag that holds frames is marked
/// as compressed, in either of the places where versions of the tag have that mark.
pub proof fn law_compressed_chapters_are_not_read(data: Seq<u8>, i: int)
    requires
        0 <= i < tag_end(data),
        i + 10 <= data.len(),
        data[i] == 67,
        (data[i + 1] == 72 && data[i + 2] == 65 && data[i + 3] == 80) || (data[i + 1] == 84
            && data[i + 2] == 79 && data[i + 3] == 67),
        data[i + 9] / 128 % 2 == 1 || data[i + 9] / 8 % 2 == 1,
    ensures
        !readable(data),
        titling(data) is Err,
{
    lemma_nests_hold_all(data, tag_end(data), i);
    let places = nests(data, tag_end(data));
    let k = choose|k: int| 0 <= k < places.len() && #[trigger] places[k] == i;
    assert(packed(data, places[k]));
}

/// A file is not read for its title where a frame in its tag that holds frames reaches
/// beyond the beginnings of the eight behind it: they may lie within each other.
pub proof fn law_deep_chapters_are_not_read(data: Seq<u8>, k: int)
    requires
        8 <= k < nests(data, tag_end(data)).len(),
        nests(data, tag_end(data))[k - 8] + 10 + frame_size(
            data,
            nests(data, tag_end(data))[k - 8],
        ) > nests(data, tag_end(data))[k],
    ensures
        !readable(data),
        titling(data) is Err,
{
    let places = nests(data, tag_end(data));
    assert(!apart(data, places[k - 8], places[k]));
}

/// The size of a frame is a number of four bytes, the highest one first, of which version
/// 4 of the tag uses seven bits each. The tag ends at the latest behind twice the size in
/// its header, which is such a number too, and the headers in front. Data that do not begin
/// with the letters `ID3` may hold a tag anywhere, and it may reach to their end.
pub proof fn law_sizes_are_four_bytes(data: Seq<u8>, i: int)
    ensures
        ({
            let begins = data.len() >= 10 && data[0] == 73 && data[1] == 68 && data[2] == 51;
            let end = 20 + 2 * (2097152 * data[6] + 16384 * data[7] + 128 * data[8] + data[9]);
            &&& begins && data[3] == 4 ==> frame_size(data, i) == 2097152 * data[i + 4] + 16384
                * data[i + 5] + 128 * data[i + 6] + data[i + 7]
            &&& !(begins && data[3] == 4) ==> frame_size(data, i) == 16777216 * data[i + 4] + 65536
                * data[i + 5] + 256 * data[i + 6] + data[i + 7]
            &&& begins && end < data.len() ==> tag_end(data) == end
            &&& !(begins && end < data.len()) ==> tag_end(data) == data.len()
        }),
{
}

/// What is said of the end of a look for a title is what it holds.
pub proof fn law_titles_are_kept(title: String)
    ensures
        outcome(Ok(Some(title))) == Ok::<Option<Seq<char>>, ()>(Some(title@)),
        outcome(Ok(None)) == Ok::<Option<Seq<char>>, ()>(None),
        outcome(Err(())) == Err::<Option<Seq<char>>, ()>(()),
{
}

proof fn lemma_nests_ascend(data: Seq<u8>, end: int)
    ensures
        forall|k: int|
            0 <= k < nests(data, end).len() ==> 0 <= #[trigger] nests(data, end)[k] < end,
        forall|j: int, k: int|
            0 <= j < k < nests(data, end).len() ==> #[trigger] nests(data, end)[j]
                < #[trigger] nests(data, end)[k],
    decreases end,
{
    if end > 0 {
        lemma_nests_ascend(data, end - 1);
        let earlier = nests(data, end - 1);
        let places = nests(data, end);
        assert forall|k: int| 0 <= k < places.len() implies 0 <= #[trigger] places[k] < end by {
            if k < earlier.len() {
                assert(places[k] == earlier[k]);
            }
        }
        assert forall|j: int, k: int| 0 <= j < k < places.len() implies #[trigger] places[j]
            < #[trigger] places[k] by {
            assert(places[j] == earlier[j]);
            if k < earlier.len() {
                assert(places[k] == earlier[k]);
            }
        }
    }
}

/// The frames that hold frames are found exactly where one of the names `CHAP` and `CTOC`
/// stands with room for the rest of a header behind it, each of them once and in the order
/// in which they stand.
pub proof fn law_chapters_are_found(data: Seq<u8>, end: int, i: int)
    ensures
        (exists|k: int| 0 <= k < nests(data, end).len() && #[trigger] nests(data, end)[k] == i)
            <==> {
            &&& 0 <= i < end
            &&& i + 10 <= data.len()
            &&& data[i] == 67
            &&& (data[i + 1] == 72 && data[i + 2] == 65 && data[i + 3] == 80) || (data[i + 1] == 84
                && data[i + 2] == 79 && data[i + 3] == 67)
        },
        forall|j: int, k: int|
            0 <= j < k < nests(data, end).len() ==> #[trigger] nests(data, end)[j]
                < #[trigger] nests(data, end)[k],
{
    lemma_nests_ascend(data, end);
    lemma_nests_are_found(data, end);
    if nests_at(data, i) && i < end {
        lemma_nests_hold_all(data, end, i);
    }
}

/// A tag that can be read is read, and one that cannot counts as none.
pub proof fn law_only_readable_tags_are_read(data: Seq<u8>)
    ensures
        readable(data) ==> titling(data) == tag_title(data),
        !readable(data) ==> titling(data) == Err::<Option<Seq<char>>, ()>(()),
{
}

/// However many frames hold frames, the title is looked up where each of them is in plain
/// and ends within the tag, each has ended before the eighth one behind it begins, and no
/// byte 0xff has a zero behind it, which could be stuffing.
pub proof fn law_chapters_side_by_side_are_read(data: Seq<u8>)
    requires
        forall|i: int|
            0 <= i && i + 1 < data.len() && #[trigger] data[i] == 0xff ==> data[i + 1] != 0,
        forall|k: int|
            0 <= k < nests(data, tag_end(data)).len() ==> {
                let i = #[trigger] nests(data, tag_end(data))[k];
                &&& data[i + 9] / 128 % 2 == 0
                &&& data[i + 9] / 8 % 2 == 0
                &&& tag_end(data) == data.len() || i + 20 + 2 * frame_size(data, i) <= tag_end(data)
            },
        forall|k: int|
            8 <= k < nests(data, tag_end(data)).len() ==> {
                let i = nests(data, tag_end(data))[k - 8];
                i + 10 + frame_size(data, i) <= #[trigger] nests(data, tag_end(data))[k]
            },
    ensures
        titling(data) == tag_title(data),
{
    assert(forall|i: int| !stuffed_at(data, i));
}

/// A file is not read for its title where a frame in its tag that holds frames may have
/// stuffing in its header, or may reach beyond the end of a tag that more data follow.
pub proof fn law_doubtful_chapters_are_not_read(data: Seq<u8>, i: int, j: int)
    requires
        0 <= i < tag_end(data),
        nests_at(data, i),
        (i + 4 <= j < i + 9 && data[j] == 0xff && data[j + 1] == 0) || (tag_end(data) < data.len()
            && i + 20 + 2 * frame_size(data, i) > tag_end(data)),
    ensures
        titling(data) is Err,
{
    lemma_nests_hold_all(data, tag_end(data), i);
    let places = nests(data, tag_end(data));
    let k = choose|k: int| 0 <= k < places.len() && #[trigger] places[k] == i;
    if tag_end(data) < data.len() && i + 20 + 2 * frame_size(data, i) > tag_end(data) {
        assert(!contained(data, places[k]));
    } else {
        assert(stuffed_at(data, j));
        assert(packed(data, places[k]));
    }
}

/// A file is not read for its title either where stuffing may hide how far such a frame
/// reaches: a byte 0xff with a zero behind it, anywhere from one of them up to the eighth
/// one behind it.
pub proof fn law_stuffing_hides_no_depth(data: Seq<u8>, k: int, j: int)
    requires
        8 <= k < nests(data, tag_end(data)).len(),
        nests(data, tag_end(data))[k - 8] <= j < nests(data, tag_end(data))[k],
        j + 1 < data.len(),
        data[j] == 0xff,
        data[j + 1] == 0,
    ensures
        titling(data) is Err,
{
    let places = nests(data, tag_end(data));
    lemma_nests_ascend(data, tag_end(data));
    assert(places[k - 8] >= 0);
    assert(stuffed_at(data, j));
    assert(!apart(data, places[k - 8], places[k]));
}

} // verus!
