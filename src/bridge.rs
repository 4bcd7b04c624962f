//! Argument checks of the drawing and widget capabilities that scripts call.
//!
//! Every capability validates what the script handed it before anything is
//! drawn. The checks here turn raw script values into the plain values a
//! drawing call needs, or into a `BridgeError` that the script sees as a fault.
//! Coordinates stay generic: the checks only look at how many there are.
use vstd::prelude::*;
use crate::text::same_text;

verus! {

/// Why a capability call refused its arguments.
#[derive(Clone, Copy, Debug, PartialEq, Eq, Structural)]
pub enum BridgeError {
    /// The anchor is none of the nine compass positions.
    BadAnchor,
    /// A sense token is none of `click`, `drag`, `focusable`.
    BadSense,
    /// A color does not have exactly four channels.
    BadColor,
    /// A point or size does not have exactly two components.
    BadPoint,
    /// The handle belongs to a frame that has ended.
    StaleHandle,
}

impl BridgeError {
    /// The message that the script sees with the fault.
    pub fn message(&self) -> (r: String)
        ensures
            r@ == self.message_spec(),
    {
        match self {
            BridgeError::BadAnchor => "Must be {LEFT,CENTER,RIGHT}_{TOP,CENTER,BOTTOM}".to_owned(),
            BridgeError::BadSense => "Must be click, drag, or focusable".to_owned(),
            BridgeError::BadColor => "Colors are from premultiplied RGBA".to_owned(),
            BridgeError::BadPoint => "Points must be of dimension 2".to_owned(),
            BridgeError::StaleHandle => "This handle belongs to a frame that has ended".to_owned(),
        }
    }

    pub open spec fn message_spec(&self) -> Seq<char> {
        match self {
            BridgeError::BadAnchor => "Must be {LEFT,CENTER,RIGHT}_{TOP,CENTER,BOTTOM}"@,
            BridgeError::BadSense => "Must be click, drag, or focusable"@,
            BridgeError::BadColor => "Colors are from premultiplied RGBA"@,
            BridgeError::BadPoint => "Points must be of dimension 2"@,
            BridgeError::StaleHandle => "This handle belongs to a frame that has ended"@,
        }
    }
}

/// The generation number of the frame after `frame`. Every frame's handles
/// carry the number of the frame that made them; after 2^64 frames the
/// numbers start again from zero.
pub fn next_frame(frame: u64) -> (r: u64)
    ensures
        r == if frame == u64::MAX { 0 } else { frame + 1 },
{
    if frame == u64::MAX {
        0
    } else {
        frame + 1
    }
}

/// Lets a handle made in frame `handle_frame` act only while that frame is
/// the current one, `current_frame`.
pub fn check_frame(handle_frame: u64, current_frame: u64) -> (r: Result<(), BridgeError>)
    ensures
        r is Ok <==> handle_frame == current_frame,
        r is Err ==> r->Err_0 == BridgeError::StaleHandle,
{
    if handle_frame == current_frame {
        Ok(())
    } else {
        Err(BridgeError::StaleHandle)
    }
}

/// A color with premultiplied alpha, one byte per channel.
#[derive(Clone, Copy, Debug, PartialEq, Eq, Structural)]
pub struct Rgba {
    pub r: u8,
    pub g: u8,
    pub b: u8,
    pub a: u8,
}

pub open spec fn color_of(c: Seq<u8>) -> Result<Rgba, BridgeError> {
    if c.len() == 4 {
        Ok(Rgba { r: c[0], g: c[1], b: c[2], a: c[3] })
    } else {
        Err(BridgeError::BadColor)
    }
}

/// Reads a color given as its four premultiplied channels.
pub fn parse_color(color: &Vec<u8>) -> (r: Result<Rgba, BridgeError>)
    ensures
        r == color_of(color@),
{
    if color.len() != 4 {
        Err(BridgeError::BadColor)
    } else {
        Ok(Rgba { r: color[0], g: color[1], b: color[2], a: color[3] })
    }
}

pub open spec fn pair_of<T>(v: Seq<T>) -> Result<(T, T), BridgeError> {
    if v.len() == 2 {
        Ok((v[0], v[1]))
    } else {
        Err(BridgeError::BadPoint)
    }
}

/// Reads a two-component vector (a point or a size).
pub fn parse_vec2<T: Copy>(value: &Vec<T>) -> (r: Result<(T, T), BridgeError>)
    ensures
        r == pair_of(value@),
{
    if value.len() != 2 {
        Err(BridgeError::BadPoint)
    } else {
        Ok((value[0], value[1]))
    }
}

/// Where along one axis a text is pinned to its position.
#[derive(Clone, Copy, Debug, PartialEq, Eq, Structural)]
pub enum Align {
    /// Left, or top.
    Min,
    Center,
    /// Right, or bottom.
    Max,
}

/// The compass point of a text's box that sits at the given position.
#[derive(Clone, Copy, Debug, PartialEq, Eq, Structural)]
pub struct Anchor {
    pub x: Align,
    pub y: Align,
}

/// The anchor that an upper-case anchor name stands for. The empty name is
/// the center.
pub open spec fn anchor_of(u: Seq<char>) -> Result<Anchor, BridgeError> {
    if u == "LEFT_BOTTOM"@ {
        Ok(Anchor { x: Align::Min, y: Align::Max })
    } else if u == "LEFT_CENTER"@ {
        Ok(Anchor { x: Align::Min, y: Align::Center })
    } else if u == "LEFT_TOP"@ {
        Ok(Anchor { x: Align::Min, y: Align::Min })
    } else if u == "CENTER_BOTTOM"@ {
        Ok(Anchor { x: Align::Center, y: Align::Max })
    } else if u.len() == 0 || u == "CENTER_CENTER"@ {
        Ok(Anchor { x: Align::Center, y: Align::Center })
    } else if u == "CENTER_TOP"@ {
        Ok(Anchor { x: Align::Center, y: Align::Min })
    } else if u == "RIGHT_BOTTOM"@ {
        Ok(Anchor { x: Align::Max, y: Align::Max })
    } else if u == "RIGHT_CENTER"@ {
        Ok(Anchor { x: Align::Max, y: Align::Center })
    } else if u == "RIGHT_TOP"@ {
        Ok(Anchor { x: Align::Max, y: Align::Min })
    } else {
        Err(BridgeError::BadAnchor)
    }
}

/// Reads an anchor name that is already in upper case.
pub fn anchor_from_upper(u: &str) -> (r: Result<Anchor, BridgeError>)
    ensures
        r == anchor_of(u@),
{
    if same_text(u, "LEFT_BOTTOM") {
        Ok(Anchor { x: Align::Min, y: Align::Max })
    } else if same_text(u, "LEFT_CENTER") {
        Ok(Anchor { x: Align::Min, y: Align::Center })
    } else if same_text(u, "LEFT_TOP") {
        Ok(Anchor { x: Align::Min, y: Align::Min })
    } else if same_text(u, "CENTER_BOTTOM") {
        Ok(Anchor { x: Align::Center, y: Align::Max })
    } else if u.unicode_len() == 0 || same_text(u, "CENTER_CENTER") {
        Ok(Anchor { x: Align::Center, y: Align::Center })
    } else if same_text(u, "CENTER_TOP") {
        Ok(Anchor { x: Align::Center, y: Align::Min })
    } else if same_text(u, "RIGHT_BOTTOM") {
        Ok(Anchor { x: Align::Max, y: Align::Max })
    } else if same_text(u, "RIGHT_CENTER") {
        Ok(Anchor { x: Align::Max, y: Align::Center })
    } else if same_text(u, "RIGHT_TOP") {
        Ok(Anchor { x: Align::Max, y: Align::Min })
    } else {
        Err(BridgeError::BadAnchor)
    }
}

/// What `str::to_uppercase` makes of a text.
pub uninterp spec fn upper_of(s: Seq<char>) -> Seq<char>;

/// A text of ASCII characters none of which is a lower-case letter: upper
/// casing leaves it as it is.
pub open spec fn is_plain_upper(s: Seq<char>) -> bool {
    forall|i: int|
        0 <= i < s.len() ==> (#[trigger] s[i] as u32) < 128 && !('a' <= s[i] && s[i] <= 'z')
}

/// Relies on `str::to_uppercase`: the upper-case form depends on the
/// characters alone, and an ASCII text without lower-case letters maps to
/// itself.
#[verifier::external_body]
fn uppercase(s: &str) -> (r: String)
    ensures
        r@ == upper_of(s@),
        is_plain_upper(s@) ==> r@ == s@,
{
    s.to_uppercase()
}

/// The anchor that a name stands for, compared without regard to case.
pub open spec fn anchor_named(s: Seq<char>) -> Result<Anchor, BridgeError> {
    if is_plain_upper(s) {
        anchor_of(s)
    } else {
        anchor_of(upper_of(s))
    }
}

/// Reads an anchor name such as `left_top`, in any case; the empty name is
/// the center.
pub fn parse_anchor(s: &str) -> (r: Result<Anchor, BridgeError>)
    ensures
        r == anchor_named(s@),
        r == anchor_of(upper_of(s@)),
{
    let u = uppercase(s);
    anchor_from_upper(u.as_str())
}

/// The interactions an allocated region responds to.
#[derive(Clone, Copy, Debug, PartialEq, Eq, Structural)]
pub struct Sense {
    pub click: bool,
    pub drag: bool,
    pub focusable: bool,
}

/// The first `|` at or after `i`, or the length when there is none.
pub open spec fn bar_from(s: Seq<char>, i: int) -> int
    decreases s.len() - i,
{
    if i < 0 || i >= s.len() {
        i
    } else if s[i] == '|' {
        i
    } else {
        bar_from(s, i + 1)
    }
}

/// The pieces of `s` from `i` on between the `|` separators.
pub open spec fn pieces_from(s: Seq<char>, i: int) -> Seq<Seq<char>>
    decreases s.len() - i via pieces_from_decreases
{
    let j = bar_from(s, i);
    if i < 0 || j >= s.len() {
        seq![s.subrange(i, s.len() as int)]
    } else {
        seq![s.subrange(i, j)] + pieces_from(s, j + 1)
    }
}

proof fn lemma_bar_from_at_least(s: Seq<char>, i: int)
    ensures
        bar_from(s, i) >= i,
    decreases s.len() - i,
{
    if 0 <= i < s.len() && s[i] != '|' {
        lemma_bar_from_at_least(s, i + 1);
    }
}

#[via_fn]
proof fn pieces_from_decreases(s: Seq<char>, i: int) {
    lemma_bar_from_at_least(s, i);
}

/// `s` split at every `|`; a text without one is a single piece.
pub open spec fn pieces(s: Seq<char>) -> Seq<Seq<char>> {
    pieces_from(s, 0)
}

pub open spec fn is_sense_word(w: Seq<char>) -> bool {
    w == "click"@ || w == "drag"@ || w == "focusable"@
}

pub open spec fn names(ws: Seq<Seq<char>>, w: Seq<char>) -> bool {
    exists|k: int| 0 <= k < ws.len() && ws[k] == w
}

/// The sense that a `|`-separated list of tokens asks for.
pub open spec fn sense_of(s: Seq<char>) -> Result<Sense, BridgeError> {
    let ws = pieces(s);
    if forall|k: int| 0 <= k < ws.len() ==> is_sense_word(#[trigger] ws[k]) {
        Ok(
            Sense {
                click: names(ws, "click"@),
                drag: names(ws, "drag"@),
                focusable: names(ws, "focusable"@),
            },
        )
    } else {
        Err(BridgeError::BadSense)
    }
}

proof fn lemma_bar_from(s: Seq<char>, i: int, j: int)
    requires
        0 <= i <= j <= s.len(),
        forall|k: int| i <= k < j ==> s[k] != '|',
        j == s.len() || s[j] == '|',
    ensures
        bar_from(s, i) == j,
    decreases j - i,
{
    if i < j {
        lemma_bar_from(s, i + 1, j);
    }
}

/// The first `|` at or after `i`, or the length when there is none.
fn next_bar(s: &str, i: usize) -> (r: usize)
    requires
        i <= s@.len(),
    ensures
        r as int == bar_from(s@, i as int),
        i <= r <= s@.len(),
{
    let n = s.unicode_len();
    let mut j = i;
    while j < n && s.get_char(j) != '|'
        invariant
            i <= j <= n,
            n == s@.len(),
            forall|k: int| i <= k < j ==> s@[k] != '|',
        decreases n - j,
    {
        j = j + 1;
    }
    proof {
        lemma_bar_from(s@, i as int, j as int);
    }
    j
}

/// Reads a sense given as `|`-separated tokens, such as `click|drag`.
pub fn parse_sense(s: &str) -> (r: Result<Sense, BridgeError>)
    ensures
        r == sense_of(s@),
{
    let n = s.unicode_len();
    let mut sense = Sense { click: false, drag: false, focusable: false };
    let mut start: usize = 0;
    let ghost mut done: Seq<Seq<char>> = seq![];
    loop
        invariant
            start <= n,
            n == s@.len(),
            pieces(s@) == done + pieces_from(s@, start as int),
            forall|k: int| 0 <= k < done.len() ==> is_sense_word(#[trigger] done[k]),
            sense.click == names(done, "click"@),
            sense.drag == names(done, "drag"@),
            sense.focusable == names(done, "focusable"@),
        decreases n - start,
    {
        let end = next_bar(s, start);
        let piece = s.substring_char(start, end);
        let ghost rest = pieces_from(s@, start as int);
        assert(rest[0] == piece@);
        let ghost ws = pieces(s@);
        assert(ws[done.len() as int] == piece@);
        proof {
            reveal_strlit("click");
            reveal_strlit("drag");
            reveal_strlit("focusable");
        }
        if same_text(piece, "click") {
            sense.click = true;
        } else if same_text(piece, "drag") {
            sense.drag = true;
        } else if same_text(piece, "focusable") {
            sense.focusable = true;
        } else {
            assert(!is_sense_word(ws[done.len() as int]));
            return Err(BridgeError::BadSense);
        }
        let ghost next = done.push(piece@);
        assert(forall|w: Seq<char>| names(next, w) <==> (names(done, w) || piece@ == w)) by {
            assert forall|w: Seq<char>| names(next, w) implies (names(done, w) || piece@ == w) by {
                if names(next, w) {
                    let k = choose|k: int| 0 <= k < next.len() && next[k] == w;
                    if k < done.len() {
                        assert(done[k] == w);
                    }
                }
            }
            assert forall|w: Seq<char>| (names(done, w) || piece@ == w) implies names(next, w) by {
                if names(done, w) {
                    let k = choose|k: int| 0 <= k < done.len() && done[k] == w;
                    assert(next[k] == w);
                } else {
                    assert(next[done.len() as int] == w);
                }
            }
        }
        if end == n {
            assert(rest =~= seq![piece@]);
            assert(ws =~= next);
            proof {
                done = next;
            }
            return Ok(sense);
        }
        assert(rest =~= seq![piece@] + pieces_from(s@, end + 1));
        assert(ws =~= next + pieces_from(s@, end + 1));
        proof {
            done = next;
        }
        start = end + 1;
    }
}

/// One straight piece of a line, between two consecutive points.
#[derive(Debug, PartialEq)]
pub struct Segment<T> {
    pub from: (T, T),
    pub to: (T, T),
}

pub open spec fn points_ok<T>(ps: Seq<Vec<T>>) -> bool {
    forall|i: int| 0 <= i < ps.len() ==> (#[trigger] ps[i]@).len() == 2
}

pub open spec fn point_at<T>(ps: Seq<Vec<T>>, i: int) -> (T, T) {
    (ps[i]@[0], ps[i]@[1])
}

/// The segments joining each point to the next one.
pub open spec fn segments_of<T>(ps: Seq<Vec<T>>) -> Seq<Segment<T>> {
    Seq::new(
        if ps.len() == 0 { 0 } else { (ps.len() - 1) as nat },
        |i: int| Segment { from: point_at(ps, i), to: point_at(ps, i + 1) },
    )
}

/// What a line through `ps` in color `c` draws: the color is checked first,
/// then every point.
pub open spec fn line_outcome<T>(ps: Seq<Vec<T>>, c: Seq<u8>) -> Result<(Seq<Segment<T>>, Rgba), BridgeError> {
    match color_of(c) {
        Err(e) => Err(e),
        Ok(color) => if points_ok(ps) {
            Ok((segments_of(ps), color))
        } else {
            Err(BridgeError::BadPoint)
        },
    }
}

/// Checks the arguments of a line through `points` and returns the segments
/// to draw, each point joined to the next, with the color.
pub fn check_line<T: Copy>(points: &Vec<Vec<T>>, color: &Vec<u8>) -> (r: Result<(Vec<Segment<T>>, Rgba), BridgeError>)
    ensures
        r is Ok ==> line_outcome(points@, color@) == Ok::<(Seq<Segment<T>>, Rgba), BridgeError>((r->Ok_0.0@, r->Ok_0.1)),
        r is Err ==> line_outcome(points@, color@) == Err::<(Seq<Segment<T>>, Rgba), BridgeError>(r->Err_0),
{
    let rgba = match parse_color(color) {
        Ok(c) => c,
        Err(e) => return Err(e),
    };
    let n = points.len();
    let mut i: usize = 0;
    while i < n
        invariant
            i <= n,
            n == points@.len(),
            color_of(color@) == Ok::<Rgba, BridgeError>(rgba),
            forall|k: int| 0 <= k < i ==> (#[trigger] points@[k]@).len() == 2,
        decreases n - i,
    {
        if points[i].len() != 2 {
            assert(!points_ok(points@)) by {
                assert(points@[i as int]@.len() != 2);
            }
            return Err(BridgeError::BadPoint);
        }
        i = i + 1;
    }
    let mut segments: Vec<Segment<T>> = Vec::new();
    let mut k: usize = 1;
    while k < n
        invariant
            1 <= k,
            n == points@.len(),
            color_of(color@) == Ok::<Rgba, BridgeError>(rgba),
            points_ok(points@),
            k <= n || (n == 0 && k == 1),
            segments@.len() == k - 1,
            forall|j: int| 0 <= j < k - 1 ==> #[trigger] segments@[j] == (Segment { from: point_at(points@, j), to: point_at(points@, j + 1) }),
        decreases n - k,
    {
        let a = &points[k - 1];
        let b = &points[k];
        assert(points@[k - 1]@.len() == 2);
        assert(points@[k as int]@.len() == 2);
        segments.push(Segment { from: (a[0], a[1]), to: (b[0], b[1]) });
        k = k + 1;
    }
    assert(segments@ =~= segments_of(points@)) by {
        let want = segments_of(points@);
        assert(segments@.len() == want.len());
        assert forall|j: int| 0 <= j < want.len() implies segments@[j] == want[j] by {
            assert(segments@[j] == (Segment { from: point_at(points@, j), to: point_at(points@, j + 1) }));
        }
    }
    Ok((segments, rgba))
}

/// The validated arguments of a circle.
#[derive(Debug, PartialEq)]
pub struct CirclePlan<T> {
    pub center: (T, T),
    pub fill: Rgba,
    pub stroke: Rgba,
}

/// What a circle draws: the center is checked first, then the fill color,
/// then the stroke color.
pub open spec fn circle_outcome<T>(center: Seq<T>, fill: Seq<u8>, stroke: Seq<u8>) -> Result<CirclePlan<T>, BridgeError> {
    match (pair_of(center), color_of(fill), color_of(stroke)) {
        (Err(e), _, _) => Err(e),
        (Ok(_), Err(e), _) => Err(e),
        (Ok(_), Ok(_), Err(e)) => Err(e),
        (Ok(c), Ok(f), Ok(s)) => Ok(CirclePlan { center: c, fill: f, stroke: s }),
    }
}

/// Checks the arguments of a circle around `center`.
pub fn check_circle<T: Copy>(center: &Vec<T>, fill_color: &Vec<u8>, stroke_color: &Vec<u8>) -> (r: Result<CirclePlan<T>, BridgeError>)
    ensures
        r == circle_outcome(center@, fill_color@, stroke_color@),
{
    let center = match parse_vec2(center) {
        Ok(c) => c,
        Err(e) => return Err(e),
    };
    let fill = match parse_color(fill_color) {
        Ok(c) => c,
        Err(e) => return Err(e),
    };
    let stroke = match parse_color(stroke_color) {
        Ok(c) => c,
        Err(e) => return Err(e),
    };
    Ok(CirclePlan { center, fill, stroke })
}

/// The validated arguments of a text.
#[derive(Debug, PartialEq)]
pub struct TextPlan<T> {
    pub pos: (T, T),
    pub anchor: Anchor,
    pub color: Rgba,
}

/// What a text draws: the position is checked first, then the anchor name,
/// then the color.
pub open spec fn text_outcome<T>(pos: Seq<T>, anchor: Seq<char>, color: Seq<u8>) -> Result<TextPlan<T>, BridgeError> {
    text_plan(pos, anchor_named(anchor), color)
}

/// What a text draws once its anchor name was read as `anchor`.
pub open spec fn text_plan<T>(pos: Seq<T>, anchor: Result<Anchor, BridgeError>, color: Seq<u8>) -> Result<TextPlan<T>, BridgeError> {
    match (pair_of(pos), anchor, color_of(color)) {
        (Err(e), _, _) => Err(e),
        (Ok(_), Err(e), _) => Err(e),
        (Ok(_), Ok(_), Err(e)) => Err(e),
        (Ok(p), Ok(a), Ok(c)) => Ok(TextPlan { pos: p, anchor: a, color: c }),
    }
}

/// Checks the arguments of a text placed at `pos`.
pub fn check_text<T: Copy>(pos: &Vec<T>, anchor: &str, text_color: &Vec<u8>) -> (r: Result<TextPlan<T>, BridgeError>)
    ensures
        r == text_outcome(pos@, anchor@, text_color@),
        r == text_plan(pos@, anchor_of(upper_of(anchor@)), text_color@),
{
    let pos = match parse_vec2(pos) {
        Ok(p) => p,
        Err(e) => return Err(e),
    };
    let anchor = match parse_anchor(anchor) {
        Ok(a) => a,
        Err(e) => return Err(e),
    };
    let color = match parse_color(text_color) {
        Ok(c) => c,
        Err(e) => return Err(e),
    };
    Ok(TextPlan { pos, anchor, color })
}

/// The validated arguments of a region allocation.
#[derive(Debug, PartialEq)]
pub struct RegionPlan<T> {
    pub size: (T, T),
    pub sense: Sense,
}

/// What an allocation asks for: the sense is checked first, then the size.
pub open spec fn region_outcome<T>(size: Seq<T>, sense: Seq<char>) -> Result<RegionPlan<T>, BridgeError> {
    match (sense_of(sense), pair_of(size)) {
        (Err(e), _) => Err(e),
        (Ok(_), Err(e)) => Err(e),
        (Ok(s), Ok(z)) => Ok(RegionPlan { size: z, sense: s }),
    }
}

/// Checks the arguments of a region allocation of `desired_size`.
pub fn check_region<T: Copy>(desired_size: &Vec<T>, sense: &str) -> (r: Result<RegionPlan<T>, BridgeError>)
    ensures
        r == region_outcome(desired_size@, sense@),
{
    let sense = match parse_sense(sense) {
        Ok(s) => s,
        Err(e) => return Err(e),
    };
    let size = match parse_vec2(desired_size) {
        Ok(z) => z,
        Err(e) => return Err(e),
    };
    Ok(RegionPlan { size, sense })
}

/// An empty anchor name places a text exactly as `CENTER_CENTER` does, for
/// every position, text and color.
pub proof fn empty_anchor_is_center<T>(pos: Seq<T>, color: Seq<u8>)
    ensures
        text_outcome(pos, ""@, color) == text_outcome(pos, "CENTER_CENTER"@, color),
{
    reveal_strlit("");
    reveal_strlit("LEFT_BOTTOM");
    reveal_strlit("LEFT_CENTER");
    reveal_strlit("LEFT_TOP");
    reveal_strlit("CENTER_BOTTOM");
    reveal_strlit("CENTER_CENTER");
    let c = "CENTER_CENTER"@;
    assert(is_plain_upper(c));
    assert(is_plain_upper(""@));
    assert(c.len() == 13 && "LEFT_BOTTOM"@.len() == 11 && "LEFT_CENTER"@.len() == 11);
    assert("LEFT_TOP"@.len() == 8 && c[7] != "CENTER_BOTTOM"@[7]);
    assert(anchor_of(c) == anchor_of(""@));
}

} // verus!
