//! Text: its lines, and what is left of a line without the white space around it.
use vstd::prelude::*;
use vstd::string::*;

verus! {

/// The characters with the Unicode property White_Space.
pub open spec fn is_white_space(c: char) -> bool {
    let u: int = c as int;
    ||| 0x9 <= u <= 0xD
    ||| u == 0x20
    ||| u == 0x85
    ||| u == 0xA0
    ||| u == 0x1680
    ||| 0x2000 <= u <= 0x200A
    ||| u == 0x2028
    ||| u == 0x2029
    ||| u == 0x202F
    ||| u == 0x205F
    ||| u == 0x3000
}

/// `char::is_whitespace` tells whether a character has the Unicode property White_Space.
pub assume_specification[ char::is_whitespace ](c: char) -> (r: bool)
    ensures
        r == is_white_space(c),
;

/// `String::push` appends a character.
pub assume_specification[ String::push ](s: &mut String, c: char)
    ensures
        final(s)@ == old(s)@.push(c),
;

/// The place of the first newline at or after `i`, or the end of the text.
pub open spec fn line_end(s: Seq<char>, i: int) -> int
    decreases s.len() - i,
{
    if 0 <= i < s.len() && s[i] != '\n' {
        line_end(s, i + 1)
    } else {
        i
    }
}

pub proof fn lemma_line_end(s: Seq<char>, i: int)
    requires
        0 <= i <= s.len(),
    ensures
        i <= line_end(s, i) <= s.len(),
        line_end(s, i) < s.len() ==> s[line_end(s, i)] == '\n',
        forall|k: int| i <= k < line_end(s, i) ==> s[k] != '\n',
    decreases s.len() - i,
{
    if i < s.len() && s[i] != '\n' {
        lemma_line_end(s, i + 1);
    }
}

/// A line without the carriage return that may come before its newline.
pub open spec fn chomp(line: Seq<char>) -> Seq<char> {
    if line.len() > 0 && line.last() == '\r' {
        line.drop_last()
    } else {
        line
    }
}

/// The lines of the text from `i` on.
pub open spec fn lines_from(s: Seq<char>, i: int) -> Seq<Seq<char>>
    decreases s.len() - i,
{
    if 0 <= i < s.len() {
        proof {
            lemma_line_end(s, i);
        }
        let end: int = line_end(s, i);
        if end < s.len() {
            seq![chomp(s.subrange(i, end))] + lines_from(s, end + 1)
        } else {
            seq![s.subrange(i, end)]
        }
    } else {
        Seq::empty()
    }
}

/// The lines of a text. Each but the last ends in a newline, or in a carriage return and a
/// newline, neither of which is part of it; the last may do so too.
pub open spec fn lines(s: Seq<char>) -> Seq<Seq<char>> {
    lines_from(s, 0)
}

/// The lines with a newline between each two of them.
pub open spec fn join_lines(lines: Seq<Seq<char>>) -> Seq<char>
    decreases lines.len(),
{
    if lines.len() == 0 {
        Seq::empty()
    } else if lines.len() == 1 {
        lines[0]
    } else {
        lines[0].push('\n') + join_lines(lines.drop_first())
    }
}

/// A text without the white space that it starts with.
pub open spec fn trim_start(s: Seq<char>) -> Seq<char>
    decreases s.len(),
{
    if s.len() > 0 && is_white_space(s[0]) {
        trim_start(s.drop_first())
    } else {
        s
    }
}

/// A text without the white space that it ends with.
pub open spec fn trim_end(s: Seq<char>) -> Seq<char>
    decreases s.len(),
{
    if s.len() > 0 && is_white_space(s.last()) {
        trim_end(s.drop_last())
    } else {
        s
    }
}

/// A text without the white space around it.
pub open spec fn trim(s: Seq<char>) -> Seq<char> {
    trim_end(trim_start(s))
}

/// Joining one more line adds it behind a newline.
pub proof fn lemma_join_push(lines: Seq<Seq<char>>, line: Seq<char>)
    ensures
        join_lines(lines.push(line)) == if lines.len() == 0 {
            line
        } else {
            join_lines(lines).push('\n') + line
        },
    decreases lines.len(),
{
    if lines.len() > 0 {
        lemma_join_push(lines.drop_first(), line);
        assert(lines.push(line).drop_first() =~= lines.drop_first().push(line));
        if lines.len() == 1 {
            assert(join_lines(lines.drop_first().push(line)) == line);
        } else {
            let rest: Seq<char> = join_lines(lines.drop_first());
            assert(lines[0].push('\n') + (rest.push('\n') + line) =~= (lines[0].push('\n')
                + rest).push('\n') + line);
        }
    }
}

/// Joining two lists of lines puts a newline between them.
pub proof fn lemma_join_concat(a: Seq<Seq<char>>, b: Seq<Seq<char>>)
    requires
        a.len() > 0,
        b.len() > 0,
    ensures
        join_lines(a + b) == join_lines(a).push('\n') + join_lines(b),
    decreases a.len(),
{
    let rest: Seq<Seq<char>> = a.drop_first();
    assert((a + b).drop_first() =~= rest + b);
    if rest.len() == 0 {
        assert(rest + b =~= b);
    } else {
        lemma_join_concat(rest, b);
        assert(a[0].push('\n') + (join_lines(rest).push('\n') + join_lines(b)) =~= (a[0].push('\n')
            + join_lines(rest)).push('\n') + join_lines(b));
    }
}

/// What comes before a place in the text does not matter to the lines from there on.
pub proof fn lemma_lines_shift(a: Seq<char>, b: Seq<char>, i: int)
    requires
        0 <= i,
    ensures
        lines_from(a + b, a.len() + i) == lines_from(b, i),
    decreases b.len() - i,
{
    let s: Seq<char> = a + b;
    if i < b.len() {
        lemma_line_end_shift(a, b, i);
        lemma_line_end(b, i);
        let end: int = line_end(b, i);
        assert(s.subrange(a.len() + i, a.len() + end) =~= b.subrange(i, end));
        if end < b.len() {
            lemma_lines_shift(a, b, end + 1);
        }
    }
}

proof fn lemma_line_end_shift(a: Seq<char>, b: Seq<char>, i: int)
    requires
        0 <= i <= b.len(),
    ensures
        line_end(a + b, a.len() + i) == a.len() + line_end(b, i),
    decreases b.len() - i,
{
    if i < b.len() && b[i] != '\n' {
        lemma_line_end_shift(a, b, i + 1);
    }
}

/// A carriage return at the end of a line is white space.
pub proof fn lemma_trim_chomp(line: Seq<char>)
    ensures
        trim(chomp(line)) == trim(line),
{
    if line.len() > 0 && line.last() == '\r' {
        let body: Seq<char> = line.drop_last();
        assert(line =~= body.push('\r'));
        lemma_trim_push_white_space(body, '\r');
    }
}

proof fn lemma_trim_push_white_space(s: Seq<char>, c: char)
    requires
        is_white_space(c),
    ensures
        trim(s.push(c)) == trim(s),
    decreases s.len(),
{
    if s.len() > 0 && is_white_space(s[0]) {
        assert(s.push(c).drop_first() =~= s.drop_first().push(c));
        lemma_trim_push_white_space(s.drop_first(), c);
    } else if s.len() > 0 {
        assert(s.push(c).drop_last() =~= s);
    } else {
        assert(s.push(c).drop_first() =~= s);
    }
}

/// The characters of a text.
pub(crate) fn chars_of(s: &str) -> (r: Vec<char>)
    ensures
        r@ == s@,
{
    let mut chars: Vec<char> = Vec::new();
    for c in it: s.chars()
        invariant
            chars@ == it.seq().take(it.index() as int),
    {
        chars.push(c);
    }
    assert(chars@ =~= s@);
    chars
}

/// Appends the characters from `from` up to `to`.
pub(crate) fn append_chars(text: &mut String, chars: &Vec<char>, from: usize, to: usize)
    requires
        from <= to <= chars@.len(),
    ensures
        final(text)@ == old(text)@ + chars@.subrange(from as int, to as int),
{
    let mut i: usize = from;
    assert(text@ =~= old(text)@ + chars@.subrange(from as int, i as int));
    while i < to
        invariant
            from <= i <= to <= chars@.len(),
            text@ == old(text)@ + chars@.subrange(from as int, i as int),
        decreases to - i,
    {
        text.push(chars[i]);
        i += 1;
        assert(text@ =~= old(text)@ + chars@.subrange(from as int, i as int));
    }
}

/// The place of the first newline at or after `from`, or the end of the text.
pub(crate) fn find_line_end(chars: &Vec<char>, from: usize) -> (r: usize)
    requires
        from <= chars@.len(),
    ensures
        r == line_end(chars@, from as int),
        from <= r <= chars@.len(),
{
    let mut i: usize = from;
    while i < chars.len() && chars[i] != '\n'
        invariant
            from <= i <= chars@.len(),
            line_end(chars@, i as int) == line_end(chars@, from as int),
        decreases chars@.len() - i,
    {
        i += 1;
    }
    i
}

/// The range that is left of the characters from `from` up to `to` without the white space around
/// them.
pub(crate) fn trim_range(chars: &Vec<char>, from: usize, to: usize) -> (r: (usize, usize))
    requires
        from <= to <= chars@.len(),
    ensures
        from <= r.0 <= r.1 <= to,
        chars@.subrange(r.0 as int, r.1 as int) == trim(chars@.subrange(from as int, to as int)),
{
    let ghost whole: Seq<char> = chars@.subrange(from as int, to as int);
    let mut a: usize = from;
    while a < to && chars[a].is_whitespace()
        invariant
            from <= a <= to <= chars@.len(),
            trim_start(chars@.subrange(a as int, to as int)) == trim_start(whole),
        decreases to - a,
    {
        assert(chars@.subrange(a as int, to as int).drop_first() =~= chars@.subrange(
            a + 1,
            to as int,
        ));
        a += 1;
    }
    assert(trim_start(whole) == chars@.subrange(a as int, to as int));
    let mut b: usize = to;
    while a < b && chars[b - 1].is_whitespace()
        invariant
            from <= a <= b <= to <= chars@.len(),
            trim_end(chars@.subrange(a as int, b as int)) == trim(whole),
        decreases b - a,
    {
        assert(chars@.subrange(a as int, b as int).drop_last() =~= chars@.subrange(
            a as int,
            b - 1,
        ));
        b -= 1;
    }
    (a, b)
}

} // verus!
