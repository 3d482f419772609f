//! The anchor grid against which the detector model predicts offsets.
//!
//! The model looks at a 128 by 128 input on two levels: a 16 by 16 grid of
//! cells with two anchors in each cell, then an 8 by 8 grid with six anchors
//! in each cell.  Every anchor sits at the center of its cell.

use vstd::prelude::*;
use crate::fixed::{from_single, from_single_bits, FIXED_LIMIT, UNIT};

verus! {

/// An anchor position as `(x, y)` in normalized coordinates.
pub type Anchor = (i64, i64);

/// Number of anchors on the fine level: 16 by 16 cells, two in each.
pub const FINE_ANCHORS: usize = 512;

/// Number of anchors on both levels together.
pub const ANCHOR_COUNT: usize = 896;

/// Largest magnitude that an anchor coordinate may have.
pub const ANCHOR_LIMIT: i64 = FIXED_LIMIT;

/// Center of cell `k` on a grid of `grid` cells per side.
pub open spec fn cell_center(k: int, grid: int) -> int {
    (2 * k + 1) * UNIT / (2 * grid)
}

/// Position of anchor `i` of the generated grid.
pub open spec fn grid_anchor(i: int) -> Anchor {
    if i < FINE_ANCHORS {
        let cell = i / 2;
        (cell_center(cell % 16, 16) as i64, cell_center(cell / 16, 16) as i64)
    } else {
        let cell = (i - FINE_ANCHORS) / 6;
        (cell_center(cell % 8, 8) as i64, cell_center(cell / 8, 8) as i64)
    }
}

/// The generated grid: all anchors in order.
pub open spec fn grid_anchors() -> Seq<Anchor> {
    Seq::new(ANCHOR_COUNT as nat, |i: int| grid_anchor(i))
}

/// Whether `anchors` can serve a detector: one anchor for each prediction of
/// the model, none farther out than the limit.
pub open spec fn anchors_wf(anchors: Seq<Anchor>) -> bool {
    &&& anchors.len() == ANCHOR_COUNT
    &&& forall|i: int|
        0 <= i < anchors.len() ==> -ANCHOR_LIMIT <= (#[trigger] anchors[i]).0 <= ANCHOR_LIMIT
            && -ANCHOR_LIMIT <= anchors[i].1 <= ANCHOR_LIMIT
}

/// The center of a cell of the grid lies strictly inside the frame.
pub proof fn lemma_cell_center_in_frame(k: int, grid: int)
    requires
        0 <= k < grid,
        grid == 8 || grid == 16,
    ensures
        0 < cell_center(k, grid) < UNIT,
{
    if grid == 8 {
        assert(cell_center(k, grid) == (2 * k + 1) * 1_000_000 / 16);
    } else {
        assert(cell_center(k, grid) == (2 * k + 1) * 1_000_000 / 32);
    }
}

/// Every anchor of the generated grid lies strictly inside the frame.
pub proof fn lemma_grid_anchor_in_frame(i: int)
    requires
        0 <= i < ANCHOR_COUNT,
    ensures
        0 < grid_anchor(i).0 < UNIT,
        0 < grid_anchor(i).1 < UNIT,
{
    if i < FINE_ANCHORS {
        let cell = i / 2;
        assert(0 <= cell < 256);
        assert(0 <= cell % 16 < 16);
        assert(0 <= cell / 16 < 16);
        lemma_cell_center_in_frame(cell % 16, 16);
        lemma_cell_center_in_frame(cell / 16, 16);
    } else {
        let cell = (i - FINE_ANCHORS) / 6;
        assert(0 <= cell < 64);
        assert(0 <= cell % 8 < 8);
        assert(0 <= cell / 8 < 8);
        lemma_cell_center_in_frame(cell % 8, 8);
        lemma_cell_center_in_frame(cell / 8, 8);
    }
}

/// Builds the generated grid.
pub fn generate_anchors() -> (anchors: Vec<Anchor>)
    ensures
        anchors@ == grid_anchors(),
        anchors_wf(anchors@),
{
    let mut anchors: Vec<Anchor> = Vec::new();
    let mut i: usize = 0;
    while i < ANCHOR_COUNT
        invariant
            0 <= i <= ANCHOR_COUNT,
            anchors.len() == i,
            forall|j: int| 0 <= j < i ==> anchors@[j] == grid_anchor(j),
        decreases ANCHOR_COUNT - i,
    {
        let (cell, grid): (usize, usize) = if i < FINE_ANCHORS {
            (i / 2, 16)
        } else {
            ((i - FINE_ANCHORS) / 6, 8)
        };
        let x: i64 = (cell % grid) as i64;
        let y: i64 = (cell / grid) as i64;
        let side: i64 = 2 * (grid as i64);
        anchors.push(((2 * x + 1) * UNIT / side, (2 * y + 1) * UNIT / side));
        i += 1;
    }
    proof {
        assert(anchors@ =~= grid_anchors());
        assert forall|j: int| 0 <= j < anchors.len() implies -ANCHOR_LIMIT <= (
        #[trigger] anchors@[j]).0 <= ANCHOR_LIMIT && -ANCHOR_LIMIT <= anchors@[j].1
            <= ANCHOR_LIMIT by {
            lemma_grid_anchor_in_frame(j);
        }
    }
    anchors
}

/// The line feed that ends the header of an anchor file.
pub const LINE_FEED: u8 = 0x0A;

/// The character that pads the header of an anchor file.
pub const SPACE: u8 = 0x20;

/// Where the header is taken to end when it holds no line feed.
pub const HEADER_GUESS: usize = 81;

/// Position of the first line feed at or behind `from`; the length of
/// `bytes` if there is none.
pub open spec fn line_feed_from(bytes: Seq<u8>, from: int) -> int
    decreases bytes.len() - from,
{
    if from >= bytes.len() {
        bytes.len() as int
    } else if bytes[from] == LINE_FEED {
        from
    } else {
        line_feed_from(bytes, from + 1)
    }
}

/// Position of the first byte at or behind `from` that is neither a line
/// feed nor a space; the length of `bytes` if there is none.
pub open spec fn content_from(bytes: Seq<u8>, from: int) -> int
    decreases bytes.len() - from,
{
    if from >= bytes.len() {
        bytes.len() as int
    } else if bytes[from] != LINE_FEED && bytes[from] != SPACE {
        from
    } else {
        content_from(bytes, from + 1)
    }
}

/// Position behind the header: behind the first line feed, or at the guess
/// where there is no line feed.
pub open spec fn header_end(bytes: Seq<u8>) -> int {
    if line_feed_from(bytes, 0) < bytes.len() {
        line_feed_from(bytes, 0) + 1
    } else {
        HEADER_GUESS as int
    }
}

/// Position of the first number, if the file is long enough to hold its
/// header: behind the header, one more line feed, and any line feeds and
/// spaces that follow.  Where nothing else follows, the position is not
/// moved over them.
pub open spec fn payload_start(bytes: Seq<u8>) -> Option<int> {
    let end = header_end(bytes);
    if end > bytes.len() {
        None
    } else {
        let behind = if end < bytes.len() && bytes[end] == LINE_FEED {
            end + 1
        } else {
            end
        };
        if content_from(bytes, behind) < bytes.len() {
            Some(content_from(bytes, behind))
        } else {
            Some(behind)
        }
    }
}

/// The four bytes at `at` as one number, lowest byte first.
pub open spec fn word_at(bytes: Seq<u8>, at: int) -> u32 {
    (bytes[at] + 0x100 * bytes[at + 1] + 0x1_0000 * bytes[at + 2] + 0x100_0000 * bytes[at
        + 3]) as u32
}

/// The anchor that the two single precision numbers at `at` describe.
pub open spec fn anchor_at(bytes: Seq<u8>, at: int) -> Anchor {
    (from_single(word_at(bytes, at)) as i64, from_single(word_at(bytes, at + 4)) as i64)
}

/// How many whole numbers of four bytes a file holds from `start` on.
pub open spec fn payload_count(bytes: Seq<u8>, start: int) -> int {
    (bytes.len() - start) / 4
}

/// Whether a file holds exactly two numbers for each anchor.
pub open spec fn file_usable(bytes: Seq<u8>) -> bool {
    payload_start(bytes) is Some && payload_count(bytes, payload_start(bytes).unwrap()) == 2
        * ANCHOR_COUNT
}

/// The anchors that a file yields: those it holds if it is usable, and the
/// generated grid otherwise.
pub open spec fn spec_load_anchors(bytes: Seq<u8>) -> Seq<Anchor> {
    if file_usable(bytes) {
        Seq::new(ANCHOR_COUNT as nat, |i: int| anchor_at(bytes, payload_start(bytes).unwrap() + 8 * i))
    } else {
        grid_anchors()
    }
}

/// Finds the first line feed at or behind `from`.
fn find_line_feed(bytes: &Vec<u8>, from: usize) -> (at: usize)
    requires
        from <= bytes.len(),
    ensures
        at == line_feed_from(bytes@, from as int),
        from <= at <= bytes.len(),
{
    let mut at: usize = from;
    while at < bytes.len() && bytes[at] != LINE_FEED
        invariant
            from <= at <= bytes.len(),
            line_feed_from(bytes@, from as int) == line_feed_from(bytes@, at as int),
        decreases bytes.len() - at,
    {
        at += 1;
    }
    at
}

/// Finds the first byte at or behind `from` that is neither a line feed nor
/// a space.
fn find_content(bytes: &Vec<u8>, from: usize) -> (at: usize)
    requires
        from <= bytes.len(),
    ensures
        at == content_from(bytes@, from as int),
        from <= at <= bytes.len(),
{
    let mut at: usize = from;
    while at < bytes.len() && (bytes[at] == LINE_FEED || bytes[at] == SPACE)
        invariant
            from <= at <= bytes.len(),
            content_from(bytes@, from as int) == content_from(bytes@, at as int),
        decreases bytes.len() - at,
    {
        at += 1;
    }
    at
}

/// Finds the first number of an anchor file.
pub fn find_payload(bytes: &Vec<u8>) -> (start: Option<usize>)
    ensures
        start is Some <==> payload_start(bytes@) is Some,
        start is Some ==> start.unwrap() == payload_start(bytes@).unwrap() && start.unwrap()
            <= bytes.len(),
{
    let feed = find_line_feed(bytes, 0);
    let end: usize = if feed < bytes.len() {
        feed + 1
    } else {
        HEADER_GUESS
    };
    if end > bytes.len() {
        return None;
    }
    let behind: usize = if end < bytes.len() && bytes[end] == LINE_FEED {
        end + 1
    } else {
        end
    };
    let content = find_content(bytes, behind);
    if content < bytes.len() {
        Some(content)
    } else {
        Some(behind)
    }
}

/// Reads four bytes as one number, lowest byte first.
fn read_word(bytes: &Vec<u8>, at: usize) -> (word: u32)
    requires
        at + 4 <= bytes.len(),
    ensures
        word == word_at(bytes@, at as int),
{
    let b0: u32 = bytes[at] as u32;
    let b1: u32 = bytes[at + 1] as u32;
    let b2: u32 = bytes[at + 2] as u32;
    let b3: u32 = bytes[at + 3] as u32;
    b0 + 0x100 * b1 + 0x1_0000 * b2 + 0x100_0000 * b3
}

/// Reads the anchors of an anchor file: behind a header that ends with a
/// line feed, two single precision numbers for each anchor, lowest byte
/// first.  A file that does not hold exactly that many numbers is passed
/// over, and the generated grid takes its place.
pub fn load_anchors(bytes: &Vec<u8>) -> (anchors: Vec<Anchor>)
    ensures
        anchors@ == spec_load_anchors(bytes@),
        anchors_wf(anchors@),
{
    let start = match find_payload(bytes) {
        Some(start) => start,
        None => {
            return generate_anchors();
        },
    };
    if (bytes.len() - start) / 4 != 2 * ANCHOR_COUNT {
        return generate_anchors();
    }
    let mut anchors: Vec<Anchor> = Vec::new();
    let mut i: usize = 0;
    while i < ANCHOR_COUNT
        invariant
            0 <= i <= ANCHOR_COUNT,
            start <= bytes.len(),
            (bytes.len() - start) / 4 == 2 * ANCHOR_COUNT,
            anchors.len() == i,
            forall|j: int| 0 <= j < i ==> anchors@[j] == anchor_at(bytes@, start + 8 * j),
            forall|j: int|
                0 <= j < i ==> -ANCHOR_LIMIT <= (#[trigger] anchors@[j]).0 <= ANCHOR_LIMIT
                    && -ANCHOR_LIMIT <= anchors@[j].1 <= ANCHOR_LIMIT,
        decreases ANCHOR_COUNT - i,
    {
        let at: usize = start + 8 * i;
        let x = from_single_bits(read_word(bytes, at));
        let y = from_single_bits(read_word(bytes, at + 4));
        anchors.push((x, y));
        i += 1;
    }
    proof {
        assert(anchors@ =~= spec_load_anchors(bytes@));
    }
    anchors
}

} // verus!
