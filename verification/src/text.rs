//! Character-level text primitives shared by the parsers.
//!
//! Every parser of this crate reads its input as a sequence of characters.
//! The spec functions here say what a line, a section, a key/value pair and a
//! trimmed value are; the executable functions compute them on `Vec<char>`.

use vstd::prelude::*;

verus! {

/// What the standard library documents of `String::push`, taken on trust:
/// afterwards the string holds what it held before, followed by `c`.
pub assume_specification[ String::push ](s: &mut String, c: char)
    ensures
        final(s)@ == old(s)@.push(c),
;

// ---------------------------------------------------------------------------
// Models
// ---------------------------------------------------------------------------
/// The character sequences held by a vector of character vectors.
pub open spec fn rows(v: Seq<Vec<char>>) -> Seq<Seq<char>> {
    Seq::new(v.len(), |i: int| v[i]@)
}

/// The character sequences held by a vector of strings.
pub open spec fn texts(v: Seq<String>) -> Seq<Seq<char>> {
    Seq::new(v.len(), |i: int| v[i]@)
}

/// The characters of an optional text.
pub open spec fn text_of(text: Option<&str>) -> Option<Seq<char>> {
    match text {
        Some(t) => Some(t@),
        None => None,
    }
}

/// The characters of an optional string.
pub open spec fn owned_text_of(text: Option<String>) -> Option<Seq<char>> {
    match text {
        Some(t) => Some(t@),
        None => None,
    }
}

/// The words of an optional list of strings.
pub open spec fn owned_texts_of(list: Option<Vec<String>>) -> Option<Seq<Seq<char>>> {
    match list {
        Some(v) => Some(texts(v@)),
        None => None,
    }
}

/// `value` where it is there, else the word `Unknown`.
pub open spec fn or_unknown(value: Option<Seq<char>>) -> Seq<char> {
    match value {
        Some(v) => v,
        None => "Unknown"@,
    }
}

/// Whether `c` has the Unicode property `White_Space`.
pub open spec fn is_space(c: char) -> bool {
    let n = c as u32;
    (0x09 <= n <= 0x0D) || n == 0x20 || n == 0x85 || n == 0xA0 || n == 0x1680 || (0x2000 <= n
        <= 0x200A) || n == 0x2028 || n == 0x2029 || n == 0x202F || n == 0x205F || n == 0x3000
}

/// `c` with an ASCII capital letter replaced by its small letter.
pub open spec fn fold_case(c: char) -> u32 {
    let n = c as u32;
    if 0x41 <= n <= 0x5A {
        (n + 0x20) as u32
    } else {
        n
    }
}

/// Whether `a` and `b` are equal up to the case of ASCII letters.
pub open spec fn same_ignoring_case(a: Seq<char>, b: Seq<char>) -> bool {
    &&& a.len() == b.len()
    &&& forall|i: int| 0 <= i < a.len() ==> fold_case(#[trigger] a[i]) == fold_case(b[i])
}

/// The index of the first `c` in `s`, or `s.len()` where `s` holds none.
pub open spec fn position(s: Seq<char>, c: char) -> nat
    decreases s.len(),
{
    if s.len() == 0 {
        0
    } else if s[0] == c {
        0
    } else {
        1 + position(s.drop_first(), c)
    }
}

/// The index of the first pair of adjacent line feeds in `s`, or `s.len()`
/// where `s` holds none.
pub open spec fn blank_position(s: Seq<char>) -> nat
    decreases s.len(),
{
    if s.len() < 2 {
        s.len()
    } else if s[0] == '\n' && s[1] == '\n' {
        0
    } else {
        1 + blank_position(s.drop_first())
    }
}

/// `s` split at its first `c`: what stands before it and what stands after
/// it. `None` where `s` holds no `c`.
pub open spec fn split_pair(s: Seq<char>, c: char) -> Option<(Seq<char>, Seq<char>)> {
    let i = position(s, c) as int;
    if i < s.len() {
        Some((s.take(i), s.skip(i + 1)))
    } else {
        None
    }
}

/// What stands before the first `c` of `s`; all of `s` where it holds none.
pub open spec fn head(s: Seq<char>, c: char) -> Seq<char> {
    s.take(position(s, c) as int)
}

/// `s` split at every `c`. The pieces keep their order, an empty piece stands
/// between two adjacent `c`, and a text without `c` is its own single piece.
pub open spec fn pieces(s: Seq<char>, c: char) -> Seq<Seq<char>>
    decreases s.len(),
{
    let i = position(s, c) as int;
    if i < s.len() {
        seq![s.take(i)] + pieces(s.skip(i + 1), c)
    } else {
        seq![s]
    }
}

/// `s` without one carriage return at its end.
pub open spec fn strip_cr(s: Seq<char>) -> Seq<char> {
    if s.len() > 0 && s.last() == '\r' {
        s.drop_last()
    } else {
        s
    }
}

/// The lines of `s`. A line ends at a line feed, or at a carriage return
/// directly followed by one; neither belongs to the line. The last line needs
/// no line ending, and no empty line follows a final line ending.
pub open spec fn lines(s: Seq<char>) -> Seq<Seq<char>>
    decreases s.len(),
{
    if s.len() == 0 {
        Seq::empty()
    } else {
        let i = position(s, '\n') as int;
        if i < s.len() {
            seq![strip_cr(s.take(i))] + lines(s.skip(i + 1))
        } else {
            seq![s]
        }
    }
}

/// The first line of `s`, empty where `s` is empty.
pub open spec fn first_line(s: Seq<char>) -> Seq<char> {
    if lines(s).len() > 0 {
        lines(s)[0]
    } else {
        Seq::empty()
    }
}

/// The sections of `s`: the pieces between pairs of adjacent line feeds,
/// taken from left to right without overlap.
pub open spec fn sections(s: Seq<char>) -> Seq<Seq<char>>
    decreases s.len(),
{
    let i = blank_position(s) as int;
    if i + 2 <= s.len() {
        seq![s.take(i)] + sections(s.skip(i + 2))
    } else {
        seq![s]
    }
}

/// `s` without the white space at its start.
pub open spec fn trim_start(s: Seq<char>) -> Seq<char>
    decreases s.len(),
{
    if s.len() > 0 && is_space(s[0]) {
        trim_start(s.drop_first())
    } else {
        s
    }
}

/// `s` without the white space at its end.
pub open spec fn trim_end(s: Seq<char>) -> Seq<char>
    decreases s.len(),
{
    if s.len() > 0 && is_space(s.last()) {
        trim_end(s.drop_last())
    } else {
        s
    }
}

/// `s` without the white space at its start and at its end.
pub open spec fn trim(s: Seq<char>) -> Seq<char> {
    trim_end(trim_start(s))
}

/// `s` without one pair of double quotes around it. A text that does not both
/// start and end with a double quote is left as it is.
pub open spec fn unquote(s: Seq<char>) -> Seq<char> {
    if s.len() >= 2 && s[0] == '"' && s.last() == '"' {
        s.subrange(1, s.len() - 1)
    } else {
        s
    }
}

/// `s` without one line feed at its end.
pub open spec fn chomp(s: Seq<char>) -> Seq<char> {
    if s.len() > 0 && s.last() == '\n' {
        s.drop_last()
    } else {
        s
    }
}

/// Whether `s` starts with `prefix`.
pub open spec fn starts_with(s: Seq<char>, prefix: Seq<char>) -> bool {
    prefix.len() <= s.len() && s.take(prefix.len() as int) == prefix
}

// ---------------------------------------------------------------------------
// Facts
// ---------------------------------------------------------------------------
/// `position(s, c)` is the least index that holds `c`.
pub proof fn lemma_position(s: Seq<char>, c: char)
    ensures
        position(s, c) <= s.len(),
        position(s, c) < s.len() ==> s[position(s, c) as int] == c,
        forall|j: int| 0 <= j < position(s, c) ==> #[trigger] s[j] != c,
    decreases s.len(),
{
    if s.len() > 0 && s[0] != c {
        let t = s.drop_first();
        lemma_position(t, c);
        assert forall|j: int| 0 <= j < position(s, c) implies #[trigger] s[j] != c by {
            if j > 0 {
                assert(s[j] == t[j - 1]);
            }
        }
    }
}

/// `blank_position(s)` is an index at which two line feeds stand, or `s.len()`.
pub proof fn lemma_blank_position(s: Seq<char>)
    ensures
        blank_position(s) <= s.len(),
        blank_position(s) < s.len() ==> {
            let i = blank_position(s) as int;
            i + 2 <= s.len() && s[i] == '\n' && s[i + 1] == '\n'
        },
        forall|j: int|
            0 <= j < blank_position(s) && j + 1 < s.len() ==> !(#[trigger] s[j] == '\n' && s[j + 1]
                == '\n'),
    decreases s.len(),
{
    if s.len() >= 2 && !(s[0] == '\n' && s[1] == '\n') {
        let t = s.drop_first();
        lemma_blank_position(t);
        assert forall|j: int| 0 <= j < blank_position(s) && j + 1 < s.len() implies !(
        #[trigger] s[j] == '\n' && s[j + 1] == '\n') by {
            if j > 0 {
                assert(s[j] == t[j - 1]);
                assert(s[j + 1] == t[j]);
            }
        }
    }
}

// ---------------------------------------------------------------------------
// Executable functions
// ---------------------------------------------------------------------------
/// The characters of `s`, in order.
pub fn to_chars(s: &str) -> (chars: Vec<char>)
    ensures
        chars@ == s@,
{
    let mut chars: Vec<char> = Vec::new();
    for c in it: s.chars()
        invariant
            it.seq() == s@,
            chars@ == it.seq().take(it.index() as int),
    {
        chars.push(c);
        assert(it.seq().take(it.index() + 1) =~= it.seq().take(it.index() as int).push(c));
    }
    assert(s@.take(s@.len() as int) =~= s@);
    chars
}

/// The string made of `chars`.
pub fn to_text(chars: &Vec<char>) -> (s: String)
    ensures
        s@ == chars@,
{
    let mut s = String::new();
    let mut i: usize = 0;
    while i < chars.len()
        invariant
            i <= chars@.len(),
            s@ == chars@.take(i as int),
        decreases chars@.len() - i,
    {
        s.push(chars[i]);
        assert(chars@.take(i + 1) =~= chars@.take(i as int).push(chars@[i as int]));
        i += 1;
    }
    assert(chars@.take(chars@.len() as int) =~= chars@);
    s
}

/// A copy of `chars[from..to]`.
pub fn copy_range(chars: &Vec<char>, from: usize, to: usize) -> (part: Vec<char>)
    requires
        from <= to <= chars@.len(),
    ensures
        part@ == chars@.subrange(from as int, to as int),
{
    let mut part: Vec<char> = Vec::new();
    let mut i: usize = from;
    while i < to
        invariant
            from <= i <= to <= chars@.len(),
            part@ == chars@.subrange(from as int, i as int),
        decreases to - i,
    {
        part.push(chars[i]);
        assert(chars@.subrange(from as int, i + 1) =~= chars@.subrange(
            from as int,
            i as int,
        ).push(chars@[i as int]));
        i += 1;
    }
    part
}

/// Whether `c` is white space.
pub fn space(c: char) -> (r: bool)
    ensures
        r == is_space(c),
{
    let n: u32 = c as u32;
    (0x09 <= n && n <= 0x0D) || n == 0x20 || n == 0x85 || n == 0xA0 || n == 0x1680 || (0x2000
        <= n && n <= 0x200A) || n == 0x2028 || n == 0x2029 || n == 0x202F || n == 0x205F || n
        == 0x3000
}

/// The code of `c`, with an ASCII capital letter taken as its small letter.
pub fn folded(c: char) -> (n: u32)
    ensures
        n == fold_case(c),
{
    let n: u32 = c as u32;
    if 0x41 <= n && n <= 0x5A {
        n + 0x20
    } else {
        n
    }
}

/// Whether `a` holds exactly the characters of `b`.
pub fn same(a: &Vec<char>, b: &str) -> (r: bool)
    ensures
        r == (a@ == b@),
{
    let other = to_chars(b);
    if a.len() != other.len() {
        return false;
    }
    let mut i: usize = 0;
    while i < a.len()
        invariant
            other@ == b@,
            a@.len() == other@.len(),
            i <= a@.len(),
            forall|j: int| 0 <= j < i ==> a@[j] == other@[j],
        decreases a@.len() - i,
    {
        if a[i] != other[i] {
            assert(a@[i as int] != b@[i as int]);
            return false;
        }
        i += 1;
    }
    assert(a@ =~= b@);
    true
}

/// Whether `a` holds the characters of `b` up to the case of ASCII letters.
pub fn same_folded(a: &Vec<char>, b: &str) -> (r: bool)
    ensures
        r == same_ignoring_case(a@, b@),
{
    let other = to_chars(b);
    if a.len() != other.len() {
        return false;
    }
    let mut i: usize = 0;
    while i < a.len()
        invariant
            other@ == b@,
            a@.len() == other@.len(),
            i <= a@.len(),
            forall|j: int| 0 <= j < i ==> fold_case(#[trigger] a@[j]) == fold_case(other@[j]),
        decreases a@.len() - i,
    {
        if folded(a[i]) != folded(other[i]) {
            assert(fold_case(a@[i as int]) != fold_case(b@[i as int]));
            return false;
        }
        i += 1;
    }
    true
}

/// The index of the first `c` at or after `from`, or the length of `chars`.
pub fn find(chars: &Vec<char>, from: usize, c: char) -> (i: usize)
    requires
        from <= chars@.len(),
    ensures
        from <= i <= chars@.len(),
        i == from + position(chars@.skip(from as int), c),
{
    let mut i: usize = from;
    while i < chars.len() && chars[i] != c
        invariant
            from <= i <= chars@.len(),
            from + position(chars@.skip(from as int), c) == i + position(chars@.skip(i as int), c),
        decreases chars@.len() - i,
    {
        assert(chars@.skip(i as int).drop_first() =~= chars@.skip(i + 1));
        i += 1;
    }
    i
}

/// The index of the first pair of adjacent line feeds at or after `from`, or
/// the length of `chars`.
pub fn find_blank(chars: &Vec<char>, from: usize) -> (i: usize)
    requires
        from <= chars@.len(),
    ensures
        from <= i <= chars@.len(),
        i == from + blank_position(chars@.skip(from as int)),
{
    let n = chars.len();
    let mut i: usize = from;
    while i < n && n - i >= 2 && !(chars[i] == '\n' && chars[i + 1] == '\n')
        invariant
            n == chars@.len(),
            from <= i <= n,
            from + blank_position(chars@.skip(from as int)) == i + blank_position(
                chars@.skip(i as int),
            ),
        decreases n - i,
    {
        assert(chars@.skip(i as int).drop_first() =~= chars@.skip(i + 1));
        i += 1;
    }
    if n - i < 2 {
        n
    } else {
        i
    }
}

/// `line` split at its first `c`.
pub fn split_once(line: &Vec<char>, c: char) -> (r: Option<(Vec<char>, Vec<char>)>)
    ensures
        match r {
            Some((before, after)) => split_pair(line@, c) == Some((before@, after@)),
            None => split_pair(line@, c) is None,
        },
{
    let i = find(line, 0, c);
    assert(line@.skip(0) =~= line@);
    if i < line.len() {
        let before = copy_range(line, 0, i);
        let after = copy_range(line, i + 1, line.len());
        Some((before, after))
    } else {
        None
    }
}

/// What stands before the first `c` of `line`.
pub fn head_of(line: &Vec<char>, c: char) -> (r: Vec<char>)
    ensures
        r@ == head(line@, c),
{
    let i = find(line, 0, c);
    assert(line@.skip(0) =~= line@);
    copy_range(line, 0, i)
}

/// `text` split at every `c`.
pub fn split(text: &Vec<char>, c: char) -> (out: Vec<Vec<char>>)
    ensures
        rows(out@) == pieces(text@, c),
{
    let mut out: Vec<Vec<char>> = Vec::new();
    let mut pos: usize = 0;
    let mut open = true;
    assert(text@.skip(0) =~= text@);
    assert(rows(out@) =~= Seq::empty());
    while open
        invariant
            pos <= text@.len(),
            open ==> pieces(text@, c) == rows(out@) + pieces(text@.skip(pos as int), c),
            !open ==> pieces(text@, c) == rows(out@),
        decreases text@.len() - pos + if open { 1int } else { 0int },
    {
        let end = find(text, pos, c);
        let piece = copy_range(text, pos, end);
        proof {
            let rest = text@.skip(pos as int);
            assert(rest.take(end - pos) =~= text@.subrange(pos as int, end as int));
            assert(rows(out@.push(piece)) =~= rows(out@) + seq![piece@]);
            if end < text@.len() {
                assert(rest.skip(end - pos + 1) =~= text@.skip(end + 1));
                assert(rows(out@.push(piece)) + pieces(text@.skip(end + 1), c) =~= rows(out@) + (
                seq![piece@] + pieces(text@.skip(end + 1), c)));
            } else {
                assert(rest.take(end - pos) =~= rest);
            }
        }
        out.push(piece);
        if end < text.len() {
            pos = end + 1;
        } else {
            open = false;
        }
    }
    out
}

/// The lines of `text`.
pub fn split_lines(text: &Vec<char>) -> (out: Vec<Vec<char>>)
    ensures
        rows(out@) == lines(text@),
{
    let mut out: Vec<Vec<char>> = Vec::new();
    let mut pos: usize = 0;
    assert(text@.skip(0) =~= text@);
    assert(rows(out@) =~= Seq::empty());
    while pos < text.len()
        invariant
            pos <= text@.len(),
            lines(text@) == rows(out@) + lines(text@.skip(pos as int)),
        decreases text@.len() - pos,
    {
        let end = find(text, pos, '\n');
        let stop = if end < text.len() && end > pos && text[end - 1] == '\r' {
            end - 1
        } else {
            end
        };
        let line = copy_range(text, pos, stop);
        proof {
            let rest = text@.skip(pos as int);
            assert(rest.take(end - pos) =~= text@.subrange(pos as int, end as int));
            assert(rows(out@.push(line)) =~= rows(out@) + seq![line@]);
            if end < text@.len() {
                assert(rest.skip(end - pos + 1) =~= text@.skip(end + 1));
                assert(strip_cr(rest.take(end - pos)) =~= line@);
                assert(rows(out@.push(line)) + lines(text@.skip(end + 1)) =~= rows(out@) + (
                seq![line@] + lines(text@.skip(end + 1))));
            } else {
                assert(rest.take(end - pos) =~= rest);
                assert(lines(text@.skip(text@.len() as int)) =~= Seq::empty());
                assert(rows(out@.push(line)) + Seq::<Seq<char>>::empty() =~= rows(out@) + seq![
                    line@,
                ]);
            }
        }
        out.push(line);
        if end < text.len() {
            pos = end + 1;
        } else {
            pos = end;
        }
    }
    assert(rows(out@) + Seq::<Seq<char>>::empty() =~= rows(out@));
    out
}

/// The sections of `text`.
pub fn split_sections(text: &Vec<char>) -> (out: Vec<Vec<char>>)
    ensures
        rows(out@) == sections(text@),
{
    let mut out: Vec<Vec<char>> = Vec::new();
    let mut pos: usize = 0;
    let mut open = true;
    assert(text@.skip(0) =~= text@);
    assert(rows(out@) =~= Seq::empty());
    while open
        invariant
            pos <= text@.len(),
            open ==> sections(text@) == rows(out@) + sections(text@.skip(pos as int)),
            !open ==> sections(text@) == rows(out@),
        decreases text@.len() - pos + if open { 1int } else { 0int },
    {
        let end = find_blank(text, pos);
        let section = copy_range(text, pos, end);
        proof {
            let rest = text@.skip(pos as int);
            lemma_blank_position(rest);
            assert(rest.take(end - pos) =~= text@.subrange(pos as int, end as int));
            assert(rows(out@.push(section)) =~= rows(out@) + seq![section@]);
            if end < text@.len() {
                assert(rest.skip(end - pos + 2) =~= text@.skip(end + 2));
                assert(rows(out@.push(section)) + sections(text@.skip(end + 2)) =~= rows(out@) + (
                seq![section@] + sections(text@.skip(end + 2))));
            } else {
                assert(rest.take(end - pos) =~= rest);
            }
        }
        out.push(section);
        if end < text.len() {
            pos = end + 2;
        } else {
            open = false;
        }
    }
    out
}

/// `text` without the white space at its start and at its end.
pub fn trimmed(text: &Vec<char>) -> (r: Vec<char>)
    ensures
        r@ == trim(text@),
{
    let mut from: usize = 0;
    assert(text@.skip(0) =~= text@);
    while from < text.len() && space(text[from])
        invariant
            from <= text@.len(),
            trim_start(text@) == trim_start(text@.skip(from as int)),
        decreases text@.len() - from,
    {
        assert(text@.skip(from as int).drop_first() =~= text@.skip(from + 1));
        from += 1;
    }
    assert(trim_start(text@) == text@.skip(from as int));
    let mut to: usize = text.len();
    assert(text@.subrange(from as int, to as int) =~= text@.skip(from as int));
    while to > from && space(text[to - 1])
        invariant
            from <= to <= text@.len(),
            trim(text@) == trim_end(text@.subrange(from as int, to as int)),
        decreases to,
    {
        assert(text@.subrange(from as int, to as int).drop_last() =~= text@.subrange(
            from as int,
            to - 1,
        ));
        to -= 1;
    }
    copy_range(text, from, to)
}

/// `text` without one line feed at its end.
pub fn chomped(text: &Vec<char>) -> (r: Vec<char>)
    ensures
        r@ == chomp(text@),
{
    let n = text.len();
    if n > 0 && text[n - 1] == '\n' {
        copy_range(text, 0, n - 1)
    } else {
        let r = copy_range(text, 0, n);
        assert(text@.subrange(0, n as int) =~= text@);
        r
    }
}

/// What follows `prefix` in `text`, where `text` starts with it.
pub fn strip_prefix(text: &Vec<char>, prefix: &str) -> (r: Option<Vec<char>>)
    ensures
        match r {
            Some(rest) => starts_with(text@, prefix@) && rest@ == text@.skip(prefix@.len() as int),
            None => !starts_with(text@, prefix@),
        },
{
    let start = to_chars(prefix);
    let n = start.len();
    if n > text.len() {
        return None;
    }
    let mut i: usize = 0;
    while i < n
        invariant
            start@ == prefix@,
            n == start@.len(),
            n <= text@.len(),
            i <= n,
            forall|j: int| 0 <= j < i ==> text@[j] == start@[j],
        decreases n - i,
    {
        if text[i] != start[i] {
            assert(text@.take(n as int)[i as int] != prefix@[i as int]);
            return None;
        }
        i += 1;
    }
    assert(text@.take(n as int) =~= prefix@);
    Some(copy_range(text, n, text.len()))
}

/// `text` without one pair of double quotes around it.
pub fn unquoted(text: &Vec<char>) -> (r: Vec<char>)
    ensures
        r@ == unquote(text@),
{
    let n = text.len();
    if n >= 2 && text[0] == '"' && text[n - 1] == '"' {
        copy_range(text, 1, n - 1)
    } else {
        let r = copy_range(text, 0, n);
        assert(text@.subrange(0, n as int) =~= text@);
        r
    }
}

/// The strings made of each of `parts`.
pub fn to_texts(parts: &Vec<Vec<char>>) -> (out: Vec<String>)
    ensures
        texts(out@) == rows(parts@),
{
    let mut out: Vec<String> = Vec::new();
    let mut i: usize = 0;
    while i < parts.len()
        invariant
            i <= parts@.len(),
            out@.len() == i,
            forall|j: int| 0 <= j < i ==> (#[trigger] out@[j])@ == parts@[j]@,
        decreases parts@.len() - i,
    {
        out.push(to_text(&parts[i]));
        i += 1;
    }
    assert(texts(out@) =~= rows(parts@));
    out
}

} // verus!
