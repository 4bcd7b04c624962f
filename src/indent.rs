//! Carrying indentation over a line break typed in the source editor.
use vstd::prelude::*;

verus! {

/// The characters with Unicode's `White_Space` property, the set that
/// `char::is_whitespace` tests.
pub open spec fn is_white_space(c: char) -> bool {
    let u = c as u32;
    (0x9 <= u && u <= 0xd) || u == 0x20 || u == 0x85 || u == 0xa0 || u == 0x1680 || (0x2000 <= u
        && u <= 0x200a) || u == 0x2028 || u == 0x2029 || u == 0x202f || u == 0x205f || u == 0x3000
}

/// Whether `c` is a white-space character.
pub fn white_space(c: char) -> (r: bool)
    ensures
        r == is_white_space(c),
{
    let u = c as u32;
    (0x9 <= u && u <= 0xd) || u == 0x20 || u == 0x85 || u == 0xa0 || u == 0x1680 || (0x2000 <= u
        && u <= 0x200a) || u == 0x2028 || u == 0x2029 || u == 0x202f || u == 0x205f || u == 0x3000
}

/// The position of the last line break before `end`, if there is one.
pub open spec fn last_break_before(s: Seq<char>, end: int) -> Option<int>
    decreases end,
{
    if end <= 0 || end > s.len() {
        None
    } else if s[end - 1] == '\n' {
        Some(end - 1)
    } else {
        last_break_before(s, end - 1)
    }
}

/// The spaces and tabs of the white-space run that starts at `from`, up to
/// `to`.
pub open spec fn indent_run(s: Seq<char>, from: int, to: int) -> Seq<char>
    decreases to - from,
{
    if from < 0 || from >= to || to > s.len() || !is_white_space(s[from]) {
        seq![]
    } else if s[from] == ' ' || s[from] == '\t' {
        seq![s[from]] + indent_run(s, from + 1, to)
    } else {
        indent_run(s, from + 1, to)
    }
}

/// The indentation that a line break just typed before `cursor` carries
/// over: the spaces and tabs that open the line before it. A break on the
/// first line, or one that leaves the cursor at the end of its row, carries
/// nothing.
pub open spec fn carried_indent(s: Seq<char>, cursor: int, prefer_next_row: bool) -> Seq<char> {
    if !prefer_next_row || cursor < 1 || cursor > s.len() {
        seq![]
    } else {
        match last_break_before(s, cursor - 1) {
            None => seq![],
            Some(p) => indent_run(s, p, cursor),
        }
    }
}

/// `s` with `t` inserted at position `at`.
pub open spec fn spliced(s: Seq<char>, at: int, t: Seq<char>) -> Seq<char> {
    if 0 <= at <= s.len() {
        s.subrange(0, at) + t + s.subrange(at, s.len() as int)
    } else {
        s
    }
}

/// After a line break was typed, with the cursor now at `cursor` (a
/// character position), inserts the previous line's indentation at the
/// cursor. Returns the cursor's new position, after the inserted indentation.
pub fn carry_indent(code: &mut Vec<char>, cursor: usize, prefer_next_row: bool) -> (r: usize)
    requires
        old(code)@.len() <= usize::MAX / 2,
    ensures
        final(code)@ == spliced(
            old(code)@,
            cursor as int,
            carried_indent(old(code)@, cursor as int, prefer_next_row),
        ),
        r == cursor + carried_indent(old(code)@, cursor as int, prefer_next_row).len(),
{
    let ghost s = code@;
    let n = code.len();
    if !prefer_next_row || cursor < 1 || cursor > n {
        if cursor <= n {
            assert(s.subrange(0, cursor as int) + seq![] + s.subrange(cursor as int, n as int) =~= s);
        }
        return cursor;
    }
    let mut k: usize = cursor - 1;
    while k > 0 && code[k - 1] != '\n'
        invariant
            k < cursor <= n,
            code@ == s,
            n == s.len(),
            last_break_before(s, cursor - 1) == last_break_before(s, k as int),
        decreases k,
    {
        k = k - 1;
    }
    if k == 0 {
        assert(s.subrange(0, cursor as int) + seq![] + s.subrange(cursor as int, n as int) =~= s);
        return cursor;
    }
    let p = k - 1;
    let ghost want = indent_run(s, p as int, cursor as int);
    let mut indent: Vec<char> = Vec::new();
    let mut i = p;
    while i < cursor && white_space(code[i])
        invariant
            p <= i <= cursor,
            cursor <= n,
            code@ == s,
            n == s.len(),
            indent@ + indent_run(s, i as int, cursor as int) == want,
            indent@.len() <= i - p,
        decreases cursor - i,
    {
        let c = code[i];
        if c == ' ' || c == '\t' {
            assert(indent_run(s, i as int, cursor as int) == seq![c] + indent_run(s, i + 1, cursor as int));
            indent.push(c);
            assert(indent@ + indent_run(s, i + 1, cursor as int) =~= want);
        }
        i = i + 1;
    }
    assert(indent_run(s, i as int, cursor as int) == Seq::<char>::empty());
    assert(indent@ =~= want);
    let m = indent.len();
    let mut j: usize = 0;
    while j < m
        invariant
            j <= m,
            m == indent@.len(),
            m <= cursor,
            cursor <= n <= usize::MAX / 2,
            n == s.len(),
            indent@ == want,
            code@ == s.subrange(0, cursor as int) + want.subrange(0, j as int) + s.subrange(
                cursor as int,
                n as int,
            ),
        decreases m - j,
    {
        let at = cursor + j;
        code.insert(at, indent[j]);
        assert(code@ =~= s.subrange(0, cursor as int) + want.subrange(0, j + 1) + s.subrange(
            cursor as int,
            n as int,
        ));
        j = j + 1;
    }
    assert(want.subrange(0, m as int) =~= want);
    cursor + m
}

} // verus!
