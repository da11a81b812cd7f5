//! The wall layout and its text format.
//!
//! The layout file holds one record per line: an index, the x and y of the
//! wall's bottom-left corner, then its width and height, separated by
//! blanks. Coordinates are decimal numbers with up to three fraction
//! digits, read exactly into milli-units; sizes carry no sign. Blank lines
//! are skipped. A wall is placed by its corner: the engine wants the center,
//! so the placement shifts it by the half size.

use vstd::prelude::*;
use crate::Vec2;

verus! {

/// Largest coordinate magnitude a layout may use, in milli-units: a
/// billion world units, far past any arena while keeping every placement
/// sum inside a machine word.
pub const MAX_COORD: i64 = 1_000_000_000_000;

/// Cap used while reading a digit run: anything above it is already out of
/// every field's range.
const DIGIT_CAP: u64 = 10_000_000_000_000;

/// One wall of the layout, in milli-units. `x` and `y` name its
/// bottom-left corner.
#[derive(Clone, Copy, PartialEq, Eq, Structural, Debug)]
pub struct Wall {
    pub idx: u32,
    pub x: i64,
    pub y: i64,
    pub width: i64,
    pub height: i64,
}

impl Wall {
    /// Coordinates stay within the layout bound and sizes are non-negative.
    pub open spec fn wf(self) -> bool {
        &&& -MAX_COORD <= self.x <= MAX_COORD
        &&& -MAX_COORD <= self.y <= MAX_COORD
        &&& 0 <= self.width <= MAX_COORD
        &&& 0 <= self.height <= MAX_COORD
    }
}

/// Where a malformed layout first goes wrong, by 1-based line number.
#[derive(Clone, Copy, PartialEq, Eq, Structural, Debug)]
pub struct WallError {
    pub line: usize,
}

/// Blank bytes within a line: space, tab, and the carriage return a
/// CRLF-ended line leaves behind.
pub open spec fn is_space(c: u8) -> bool {
    c == 32 || c == 9 || c == 13
}

pub open spec fn is_digit(c: u8) -> bool {
    48 <= c <= 57
}

/// First position at or after `i` (up to `end`) holding something other
/// than a blank.
pub open spec fn skip_spaces(s: Seq<u8>, i: int, end: int) -> int
    decreases end - i,
{
    if i < end && is_space(s[i]) {
        skip_spaces(s, i + 1, end)
    } else {
        i
    }
}

/// First position at or after `i` (up to `end`) holding a non-digit.
pub open spec fn scan_digits(s: Seq<u8>, i: int, end: int) -> int
    decreases end - i,
{
    if i < end && is_digit(s[i]) {
        scan_digits(s, i + 1, end)
    } else {
        i
    }
}

/// Value of the digit run from `i` to `j`.
pub open spec fn digits_val(s: Seq<u8>, i: int, j: int) -> int
    decreases j - i,
{
    if i < j {
        digits_val(s, i, j - 1) * 10 + (s[j - 1] - 48)
    } else {
        0
    }
}

/// What a fraction of the given digit count is worth per unit of its
/// value, in milli-units.
pub open spec fn frac_scale(n: int) -> int {
    if n == 1 {
        100int
    } else if n == 2 {
        10int
    } else {
        1int
    }
}

/// A decimal number starting at `i`: a digit run, optionally followed by a
/// point and one to three fraction digits. Yields its exact milli-unit
/// value (negated when read after a minus sign) and the position after it.
pub open spec fn spec_number_body(s: Seq<u8>, i: int, end: int, neg: bool) -> Option<(int, int)> {
    let j = scan_digits(s, i, end);
    if j == i {
        None
    } else {
        let whole = digits_val(s, i, j);
        if j < end && s[j] == 46 {
            let k = scan_digits(s, j + 1, end);
            let fd = k - (j + 1);
            if 1 <= fd <= 3 {
                let v = whole * 1000 + digits_val(s, j + 1, k) * frac_scale(fd);
                Some(((if neg { -v } else { v }), k))
            } else {
                None
            }
        } else {
            let v = whole * 1000;
            Some(((if neg { -v } else { v }), j))
        }
    }
}

/// A coordinate: an optional minus sign (where the field allows one) and a
/// decimal number.
pub open spec fn spec_milli(s: Seq<u8>, i: int, end: int, allow_neg: bool) -> Option<(int, int)> {
    if allow_neg && i < end && s[i] == 45 {
        spec_number_body(s, i + 1, end, true)
    } else {
        spec_number_body(s, i, end, false)
    }
}

/// A bare digit run and its value.
pub open spec fn spec_uint(s: Seq<u8>, i: int, end: int) -> Option<(int, int)> {
    let j = scan_digits(s, i, end);
    if j == i {
        None
    } else {
        Some((digits_val(s, i, j), j))
    }
}

/// A line is blank when nothing but blanks sits on it.
pub open spec fn spec_blank(s: Seq<u8>, i: int, end: int) -> bool {
    skip_spaces(s, i, end) == end
}

/// One record line between `start` and `end`: index, x, y, width and
/// height, blank-separated, every value within its range, and nothing else
/// on the line.
pub open spec fn spec_record(s: Seq<u8>, start: int, end: int) -> Option<Wall> {
    let i0 = skip_spaces(s, start, end);
    match spec_uint(s, i0, end) {
        None => None,
        Some((idxv, p1)) => if idxv > u32::MAX {
            None
        } else {
            let i1 = skip_spaces(s, p1, end);
            if i1 == p1 {
                None
            } else {
                match spec_milli(s, i1, end, true) {
                    None => None,
                    Some((xv, p2)) => if xv < -MAX_COORD || xv > MAX_COORD {
                        None
                    } else {
                        let i2 = skip_spaces(s, p2, end);
                        if i2 == p2 {
                            None
                        } else {
                            match spec_milli(s, i2, end, true) {
                                None => None,
                                Some((yv, p3)) => if yv < -MAX_COORD || yv > MAX_COORD {
                                    None
                                } else {
                                    let i3 = skip_spaces(s, p3, end);
                                    if i3 == p3 {
                                        None
                                    } else {
                                        match spec_milli(s, i3, end, false) {
                                            None => None,
                                            Some((wv, p4)) => if wv > MAX_COORD {
                                                None
                                            } else {
                                                let i4 = skip_spaces(s, p4, end);
                                                if i4 == p4 {
                                                    None
                                                } else {
                                                    match spec_milli(s, i4, end, false) {
                                                        None => None,
                                                        Some((hv, p5)) => if hv > MAX_COORD {
                                                            None
                                                        } else {
                                                            if skip_spaces(s, p5, end) == end {
                                                                Some(
                                                                    Wall {
                                                                        idx: idxv as u32,
                                                                        x: xv as i64,
                                                                        y: yv as i64,
                                                                        width: wv as i64,
                                                                        height: hv as i64,
                                                                    },
                                                                )
                                                            } else {
                                                                None
                                                            }
                                                        },
                                                    }
                                                }
                                            },
                                        }
                                    }
                                },
                            }
                        }
                    },
                }
            }
        },
    }
}

/// Position of the newline ending the line that starts at `i`, or the end
/// of the input.
pub open spec fn line_end(s: Seq<u8>, i: int) -> int
    decreases s.len() - i,
{
    if i >= s.len() {
        s.len() as int
    } else if s[i] == 10 {
        i
    } else {
        line_end(s, i + 1)
    }
}

/// The line's end lies between its start and the input's end.
pub proof fn lemma_line_end_bounds(s: Seq<u8>, i: int)
    requires
        i <= s.len(),
    ensures
        i <= line_end(s, i) <= s.len(),
    decreases s.len() - i,
{
    if i < s.len() && s[i] != 10 {
        lemma_line_end_bounds(s, i + 1);
    }
}

/// A layout is well formed from `i` on when every line is blank or a
/// record.
pub open spec fn walls_ok(s: Seq<u8>, i: int) -> bool
    decreases s.len() - i + 1,
{
    if i >= s.len() {
        true
    } else {
        let j = line_end(s, i);
        proof {
            lemma_line_end_bounds(s, i);
        }
        (spec_blank(s, i, j) || spec_record(s, i, j) is Some) && walls_ok(s, j + 1)
    }
}

/// The records of a well-formed layout from `i` on, in line order.
pub open spec fn walls_of(s: Seq<u8>, i: int) -> Seq<Wall>
    decreases s.len() - i + 1,
{
    if i >= s.len() {
        Seq::empty()
    } else {
        let j = line_end(s, i);
        proof {
            lemma_line_end_bounds(s, i);
        }
        let rest = walls_of(s, j + 1);
        if spec_blank(s, i, j) {
            rest
        } else {
            match spec_record(s, i, j) {
                Some(w) => seq![w] + rest,
                None => rest,
            }
        }
    }
}

/// 1-based number of the first bad line from `i` on, counting that line as
/// `n`; zero when every line is fine.
pub open spec fn first_bad(s: Seq<u8>, i: int, n: int) -> int
    decreases s.len() - i + 1,
{
    if i >= s.len() {
        0
    } else {
        let j = line_end(s, i);
        proof {
            lemma_line_end_bounds(s, i);
        }
        if spec_blank(s, i, j) || spec_record(s, i, j) is Some {
            first_bad(s, j + 1, n + 1)
        } else {
            n
        }
    }
}

/// A digit run's value is non-negative.
proof fn lemma_digits_val_nonneg(s: Seq<u8>, i: int, j: int)
    requires
        i <= j,
        forall|k: int| i <= k < j ==> is_digit(#[trigger] s[k]),
    ensures
        digits_val(s, i, j) >= 0,
    decreases j - i,
{
    if i < j {
        lemma_digits_val_nonneg(s, i, j - 1);
    }
}

/// A digit run of up to three digits stays below 1000, and each shorter
/// run below its own power of ten.
proof fn lemma_digits_val_cap(s: Seq<u8>, i: int, j: int)
    requires
        i <= j,
        j - i <= 3,
        forall|k: int| i <= k < j ==> is_digit(#[trigger] s[k]),
    ensures
        0 <= digits_val(s, i, j) < 1000,
        j - i <= 2 ==> digits_val(s, i, j) < 100,
        j - i <= 1 ==> digits_val(s, i, j) < 10,
    decreases j - i,
{
    if i < j {
        lemma_digits_val_cap(s, i, j - 1);
    }
}

/// First position at or after `from` that is not a blank.
fn next_nonspace(data: &[u8], from: usize, end: usize) -> (r: usize)
    requires
        from <= end <= data@.len(),
    ensures
        r == skip_spaces(data@, from as int, end as int),
        from <= r <= end,
{
    let mut i: usize = from;
    while i < end && (data[i] == 32 || data[i] == 9 || data[i] == 13)
        invariant
            from <= i <= end <= data@.len(),
            skip_spaces(data@, from as int, end as int) == skip_spaces(data@, i as int, end as int),
        decreases end - i,
    {
        i = i + 1;
    }
    i
}

/// Reads the digit run at `from`: where it ends, its value, and whether
/// that value left the cap behind.
fn scan_number(data: &[u8], from: usize, end: usize) -> (r: (usize, u64, bool))
    requires
        from <= end <= data@.len(),
    ensures
        r.0 == scan_digits(data@, from as int, end as int),
        from <= r.0 <= end,
        forall|k: int| from <= k < r.0 ==> is_digit(#[trigger] data@[k]),
        !r.2 ==> r.1 == digits_val(data@, from as int, r.0 as int) && r.1 <= DIGIT_CAP,
        r.2 ==> digits_val(data@, from as int, r.0 as int) > DIGIT_CAP,
{
    let mut i: usize = from;
    let mut acc: u64 = 0;
    let mut ovf: bool = false;
    while i < end && 48 <= data[i] && data[i] <= 57
        invariant
            from <= i <= end <= data@.len(),
            scan_digits(data@, from as int, end as int) == scan_digits(data@, i as int, end as int),
            forall|k: int| from <= k < i ==> is_digit(#[trigger] data@[k]),
            !ovf ==> acc == digits_val(data@, from as int, i as int) && acc <= DIGIT_CAP,
            ovf ==> digits_val(data@, from as int, i as int) > DIGIT_CAP,
        decreases end - i,
    {
        let d: u8 = data[i] - 48;
        proof {
            assert(digits_val(data@, from as int, i + 1) == digits_val(
                data@,
                from as int,
                i as int,
            ) * 10 + (data@[i as int] - 48));
        }
        if !ovf {
            acc = acc * 10 + d as u64;
            if acc > DIGIT_CAP {
                ovf = true;
            }
        }
        i = i + 1;
    }
    (i, acc, ovf)
}

/// Reads a coordinate field, returning its exact milli-unit value and the
/// position after it when the field is well formed and within range.
fn parse_milli(data: &[u8], from: usize, end: usize, allow_neg: bool) -> (r: Option<(i64, usize)>)
    requires
        from <= end <= data@.len(),
    ensures
        r matches Some(q) ==> from <= q.1 <= end,
        !allow_neg ==> (spec_milli(data@, from as int, end as int, allow_neg) matches Some(p)
            ==> p.0 >= 0),
        spec_milli(data@, from as int, end as int, allow_neg) is None ==> r is None,
        spec_milli(data@, from as int, end as int, allow_neg) matches Some(p) ==> {
            &&& (-MAX_COORD <= p.0 <= MAX_COORD) ==> (r matches Some(q) && q.0 == p.0 && q.1
                == p.1)
            &&& !(-MAX_COORD <= p.0 <= MAX_COORD) ==> r is None
        },
{
    let neg: bool = allow_neg && from < end && data[from] == 45;
    let start: usize = if neg {
        from + 1
    } else {
        from
    };
    let (j, whole, ovf) = scan_number(data, start, end);
    if j == start {
        return None;
    }
    proof {
        lemma_digits_val_nonneg(data@, start as int, j as int);
    }
    if j < end && data[j] == 46 {
        let fstart: usize = j + 1;
        let (k, frac, fovf) = scan_number(data, fstart, end);
        let fd: usize = k - fstart;
        if fd < 1 || fd > 3 {
            return None;
        }
        proof {
            lemma_digits_val_cap(data@, fstart as int, k as int);
        }
        let frac_milli: u64 = if fd == 1 {
            frac * 100
        } else if fd == 2 {
            frac * 10
        } else {
            frac
        };
        if ovf {
            return None;
        }
        let v: u64 = whole * 1000 + frac_milli;
        if v > MAX_COORD as u64 {
            return None;
        }
        let sv: i64 = if neg {
            -(v as i64)
        } else {
            v as i64
        };
        Some((sv, k))
    } else {
        if ovf {
            return None;
        }
        let v: u64 = whole * 1000;
        if v > MAX_COORD as u64 {
            return None;
        }
        let sv: i64 = if neg {
            -(v as i64)
        } else {
            v as i64
        };
        Some((sv, j))
    }
}

/// Reads one record line exactly as the grammar gives it.
fn parse_record(data: &[u8], start: usize, end: usize) -> (r: Option<Wall>)
    requires
        start <= end <= data@.len(),
    ensures
        r == spec_record(data@, start as int, end as int),
        r matches Some(w) ==> w.wf(),
{
    let i0: usize = next_nonspace(data, start, end);
    let (p1, idxv, iovf) = scan_number(data, i0, end);
    if p1 == i0 {
        return None;
    }
    if iovf || idxv > u32::MAX as u64 {
        return None;
    }
    let i1: usize = next_nonspace(data, p1, end);
    if i1 == p1 {
        return None;
    }
    let xr = parse_milli(data, i1, end, true);
    let (xv, p2) = match xr {
        None => { return None; },
        Some(q) => q,
    };
    let i2: usize = next_nonspace(data, p2, end);
    if i2 == p2 {
        return None;
    }
    let yr = parse_milli(data, i2, end, true);
    let (yv, p3) = match yr {
        None => { return None; },
        Some(q) => q,
    };
    let i3: usize = next_nonspace(data, p3, end);
    if i3 == p3 {
        return None;
    }
    let wr = parse_milli(data, i3, end, false);
    let (wv, p4) = match wr {
        None => { return None; },
        Some(q) => q,
    };
    let i4: usize = next_nonspace(data, p4, end);
    if i4 == p4 {
        return None;
    }
    let hr = parse_milli(data, i4, end, false);
    let (hv, p5) = match hr {
        None => { return None; },
        Some(q) => q,
    };
    let i5: usize = next_nonspace(data, p5, end);
    if i5 != end {
        return None;
    }
    Some(Wall { idx: idxv as u32, x: xv, y: yv, width: wv, height: hv })
}

/// Position of the newline ending the line at `from`, or the input's end.
fn find_line_end(data: &[u8], from: usize) -> (j: usize)
    requires
        from <= data@.len(),
    ensures
        j == line_end(data@, from as int),
        from <= j <= data@.len(),
{
    let mut i: usize = from;
    while i < data.len() && data[i] != 10
        invariant
            from <= i <= data@.len(),
            line_end(data@, from as int) == line_end(data@, i as int),
        decreases data@.len() - i,
    {
        i = i + 1;
    }
    i
}

/// Reads a whole layout. Returns the records of every non-blank line in
/// order exactly when each such line is a record within range; otherwise
/// names the first line that is neither blank nor a record.
pub fn parse_walls(data: &[u8]) -> (r: Result<Vec<Wall>, WallError>)
    requires
        data@.len() < usize::MAX,
    ensures
        walls_ok(data@, 0) <==> r is Ok,
        r matches Ok(v) ==> v@ == walls_of(data@, 0),
        r matches Ok(v) ==> forall|i: int| 0 <= i < v@.len() ==> (#[trigger] v@[i]).wf(),
        r matches Err(e) ==> e.line == first_bad(data@, 0, 1),
{
    let mut pos: usize = 0;
    let mut line_no: usize = 1;
    let mut acc: Vec<Wall> = Vec::new();
    while pos < data.len()
        invariant
            pos <= data@.len(),
            data@.len() < usize::MAX,
            line_no <= pos + 1,
            walls_ok(data@, 0) <==> walls_ok(data@, pos as int),
            walls_ok(data@, pos as int) ==> walls_of(data@, 0) == acc@ + walls_of(
                data@,
                pos as int,
            ),
            first_bad(data@, 0, 1) == first_bad(data@, pos as int, line_no as int),
            forall|i: int| 0 <= i < acc@.len() ==> (#[trigger] acc@[i]).wf(),
        decreases data@.len() - pos,
    {
        let j: usize = find_line_end(data, pos);
        let blank_to: usize = next_nonspace(data, pos, j);
        if blank_to == j {
            proof {
                if walls_ok(data@, pos as int) {
                    assert(walls_of(data@, pos as int) == walls_of(data@, j + 1));
                }
            }
        } else {
            let rec = parse_record(data, pos, j);
            match rec {
                Some(w) => {
                    proof {
                        if walls_ok(data@, pos as int) {
                            assert(walls_of(data@, pos as int) == seq![w] + walls_of(
                                data@,
                                j + 1,
                            ));
                            assert(acc@ + walls_of(data@, pos as int) =~= acc@.push(w)
                                + walls_of(data@, j + 1));
                        }
                    }
                    acc.push(w);
                },
                None => {
                    return Err(WallError { line: line_no });
                },
            }
        }
        pos = if j < data.len() {
            j + 1
        } else {
            j
        };
        proof {
            if j + 1 > data@.len() {
                assert(walls_ok(data@, j + 1));
                assert(walls_of(data@, j + 1) =~= walls_of(data@, pos as int));
                assert(first_bad(data@, j + 1, line_no + 1) == 0);
                assert(first_bad(data@, pos as int, line_no + 1) == 0);
            }
        }
        line_no = line_no + 1;
    }
    proof {
        assert(walls_ok(data@, pos as int));
        assert(acc@ + walls_of(data@, pos as int) =~= acc@);
    }
    Ok(acc)
}

/// How the engine should place one wall: sprite and collider sizes from
/// the record, and the body's translation at the wall's center, half a
/// size up and right of the corner the record names.
#[derive(Clone, Copy, PartialEq, Eq, Structural, Debug)]
pub struct WallPlacement {
    pub translation: Vec2,
    pub sprite_size: Vec2,
    pub collider_half: Vec2,
}

/// The placement a record calls for.
pub open spec fn spec_placement(w: Wall) -> WallPlacement {
    WallPlacement {
        translation: Vec2 { x: (w.x + w.width / 2) as i64, y: (w.y + w.height / 2) as i64 },
        sprite_size: Vec2 { x: w.width, y: w.height },
        collider_half: Vec2 { x: (w.width / 2) as i64, y: (w.height / 2) as i64 },
    }
}

/// Places one wall: the record names the bottom-left corner, the engine
/// wants the center, so the translation moves by the half size.
pub fn spawn_wall(wall: &Wall) -> (p: WallPlacement)
    requires
        wall.wf(),
    ensures
        p == spec_placement(*wall),
{
    let half_w: i64 = wall.width / 2;
    let half_h: i64 = wall.height / 2;
    WallPlacement {
        translation: Vec2 { x: wall.x + half_w, y: wall.y + half_h },
        sprite_size: Vec2 { x: wall.width, y: wall.height },
        collider_half: Vec2 { x: half_w, y: half_h },
    }
}

/// Reads a layout and places every wall in it, or names the first bad
/// line.
pub fn spawn_walls(data: &[u8]) -> (r: Result<Vec<WallPlacement>, WallError>)
    requires
        data@.len() < usize::MAX,
    ensures
        walls_ok(data@, 0) <==> r is Ok,
        r matches Ok(v) ==> {
            &&& v@.len() == walls_of(data@, 0).len()
            &&& forall|i: int|
                0 <= i < v@.len() ==> v@[i] == spec_placement(#[trigger] walls_of(data@, 0)[i])
        },
        r matches Err(e) ==> e.line == first_bad(data@, 0, 1),
{
    let walls = match parse_walls(data) {
        Ok(w) => w,
        Err(e) => { return Err(e); },
    };
    let mut out: Vec<WallPlacement> = Vec::new();
    let mut i: usize = 0;
    while i < walls.len()
        invariant
            i <= walls@.len(),
            out@.len() == i,
            walls@ == walls_of(data@, 0),
            forall|k: int| 0 <= k < walls@.len() ==> (#[trigger] walls@[k]).wf(),
            forall|k: int|
                0 <= k < i ==> out@[k] == spec_placement(#[trigger] walls_of(data@, 0)[k]),
        decreases walls@.len() - i,
    {
        let p = spawn_wall(&walls[i]);
        out.push(p);
        i = i + 1;
    }
    Ok(out)
}

} // verus!
