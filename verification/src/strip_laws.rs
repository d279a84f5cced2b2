//! Which lines a stripped source loses, and that it keeps all the others as they are.
use crate::embed::{is_local_include, kept_lines, stripped};
use crate::text::{
    chomp, is_white_space, join_lines, lemma_join_concat, lemma_line_end, lemma_lines_shift,
    lemma_trim_chomp, line_end, lines, lines_from, trim, trim_end, trim_start,
};
use vstd::prelude::*;

verus! {

/// Whether `line` has `#include` at `i`, with nothing but white space before it, and a quote at `q`
/// behind it.
pub open spec fn quotes_header(line: Seq<char>, i: int, q: int) -> bool {
    &&& 0 <= i
    &&& i + 8 <= q < line.len()
    &&& forall|k: int| 0 <= k < i ==> is_white_space(#[trigger] line[k])
    &&& line[i] == '#'
    &&& line[i + 1] == 'i'
    &&& line[i + 2] == 'n'
    &&& line[i + 3] == 'c'
    &&& line[i + 4] == 'l'
    &&& line[i + 5] == 'u'
    &&& line[i + 6] == 'd'
    &&& line[i + 7] == 'e'
    &&& line[q] == '"'
}

/// A line without the carriage return that it may end in.
pub open spec fn without_return(line: Seq<char>) -> Seq<char> {
    if line.len() > 0 && line[line.len() - 1] == '\r' {
        line.take(line.len() - 1)
    } else {
        line
    }
}

proof fn lemma_trim_start(s: Seq<char>) -> (a: int)
    ensures
        0 <= a <= s.len(),
        trim_start(s) == s.skip(a),
        forall|k: int| 0 <= k < a ==> is_white_space(#[trigger] s[k]),
        a < s.len() ==> !is_white_space(s[a]),
    decreases s.len(),
{
    if s.len() > 0 && is_white_space(s[0]) {
        let rest: Seq<char> = s.drop_first();
        let a: int = lemma_trim_start(rest) + 1;
        assert(rest.skip(a - 1) =~= s.skip(a));
        assert forall|k: int| 0 <= k < a implies is_white_space(#[trigger] s[k]) by {
            if k > 0 {
                assert(s[k] == rest[k - 1]);
            }
        }
        a
    } else {
        assert(s.skip(0) =~= s);
        0
    }
}

proof fn lemma_trim_end(s: Seq<char>) -> (b: int)
    ensures
        0 <= b <= s.len(),
        trim_end(s) == s.take(b),
        forall|k: int| b <= k < s.len() ==> is_white_space(#[trigger] s[k]),
        b > 0 ==> !is_white_space(s[b - 1]),
    decreases s.len(),
{
    if s.len() > 0 && is_white_space(s.last()) {
        let rest: Seq<char> = s.drop_last();
        let b: int = lemma_trim_end(rest);
        assert(rest.take(b) =~= s.take(b));
        assert forall|k: int| b <= k < s.len() implies is_white_space(#[trigger] s[k]) by {
            if k < s.len() - 1 {
                assert(s[k] == rest[k]);
            }
        }
        b
    } else {
        assert(s.take(s.len() as int) =~= s);
        s.len() as int
    }
}

/// Trimming takes white space off both ends of a text, and leaves none there: the text between the
/// two places that are handed back is what is left.
pub proof fn law_trim_takes_white_space_off(s: Seq<char>) -> (r: (int, int))
    ensures
        0 <= r.0 <= r.1 <= s.len(),
        trim(s) == s.subrange(r.0, r.1),
        forall|k: int| 0 <= k < r.0 ==> is_white_space(#[trigger] s[k]),
        forall|k: int| r.1 <= k < s.len() ==> is_white_space(#[trigger] s[k]),
        r.0 < r.1 ==> !is_white_space(s[r.0]) && !is_white_space(s[r.1 - 1]),
{
    let a: int = lemma_trim_start(s);
    let rest: Seq<char> = s.skip(a);
    let n: int = lemma_trim_end(rest);
    let b: int = a + n;
    assert(rest.take(n) =~= s.subrange(a, b));
    assert forall|k: int| b <= k < s.len() implies is_white_space(#[trigger] s[k]) by {
        assert(s[k] == rest[k - a]);
    }
    (a, b)
}

proof fn lemma_quotes_header(line: Seq<char>)
    ensures
        is_local_include(line) <==> exists|i: int, q: int| quotes_header(line, i, q),
{
    reveal_strlit("#include");
    let (a, b): (int, int) = law_trim_takes_white_space_off(line);
    let t: Seq<char> = trim(line);
    if is_local_include(line) {
        let p: int = choose|p: int| 0 <= p < t.len() && t[p] == '"';
        assert(t.subrange(0, 8) == "#include"@);
        assert forall|k: int| 0 <= k < 8 implies line[a + k] == #[trigger] "#include"@[k] by {
            assert(t.subrange(0, 8)[k] == t[k]);
        }
        assert("#include"@[0] == '#' && "#include"@[1] == 'i' && "#include"@[2] == 'n'
            && "#include"@[3] == 'c' && "#include"@[4] == 'l' && "#include"@[5] == 'u'
            && "#include"@[6] == 'd' && "#include"@[7] == 'e');
        assert(line[a + p] == '"');
        assert(line[a + 0] == '#');
        assert(p >= 8) by {
            if p < 8 {
                assert(line[a + p] == "#include"@[p]);
            }
        }
        assert(quotes_header(line, a, a + p));
    }
    if exists|i: int, q: int| quotes_header(line, i, q) {
        let (i, q): (int, int) = choose|i: int, q: int| quotes_header(line, i, q);
        assert(!is_white_space(line[i]) && !is_white_space(line[q]));
        assert(q < b);
        assert(a <= i) by {
            assert(!is_white_space(line[i]));
        }
        assert(i == a) by {
            if a < i {
                assert(is_white_space(line[a]));
            }
        }
        assert(t.len() >= 8);
        assert(t.subrange(0, 8) =~= "#include"@);
        assert(t[q - a] == '"');
    }
}

proof fn lemma_line_end_is(s: Seq<char>, i: int, e: int)
    requires
        0 <= i <= e <= s.len(),
        forall|k: int| i <= k < e ==> s[k] != '\n',
        e == s.len() || s[e] == '\n',
    ensures
        line_end(s, i) == e,
{
    lemma_line_end(s, i);
}

proof fn lemma_lines_concat(a: Seq<char>, b: Seq<char>, i: int)
    requires
        0 <= i <= a.len(),
        a.len() == 0 || a.last() == '\n',
    ensures
        lines_from(a + b, i) == lines_from(a, i) + lines_from(b, 0),
    decreases a.len() - i,
{
    let s: Seq<char> = a + b;
    if i < a.len() {
        lemma_line_end(a, i);
        let e: int = line_end(a, i);
        assert(e < a.len()) by {
            if e == a.len() {
                assert(a[a.len() - 1] != '\n');
            }
        }
        assert forall|k: int| i <= k < e implies s[k] != '\n' by {
            assert(s[k] == a[k]);
        }
        lemma_line_end_is(s, i, e);
        assert(s.subrange(i, e) =~= a.subrange(i, e));
        lemma_lines_concat(a, b, e + 1);
        assert(lines_from(s, i) =~= lines_from(a, i) + lines_from(b, 0));
    } else {
        lemma_lines_shift(a, b, 0);
        assert(lines_from(s, i) =~= lines_from(a, i) + lines_from(b, 0));
    }
}

proof fn lemma_one_line(line: Seq<char>)
    requires
        !line.contains('\n'),
    ensures
        lines(line.push('\n')) == seq![chomp(line)],
        line.len() > 0 ==> lines(line) == seq![line],
        line.len() == 0 ==> lines(line) == Seq::<Seq<char>>::empty(),
{
    let s: Seq<char> = line.push('\n');
    let n: int = line.len() as int;
    assert forall|k: int| 0 <= k < n implies s[k] != '\n' && line[k] != '\n' by {
        assert(line.contains(line[k]));
        assert(s[k] == line[k]);
    }
    lemma_line_end_is(s, 0, n);
    assert(s.subrange(0, n) =~= line);
    assert(lines_from(s, n + 1) =~= Seq::empty());
    assert(lines(s) =~= seq![chomp(line)]);
    if n > 0 {
        lemma_line_end_is(line, 0, n);
        assert(line.subrange(0, n) =~= line);
    }
}

proof fn lemma_kept_concat(a: Seq<Seq<char>>, b: Seq<Seq<char>>)
    ensures
        kept_lines(a + b) == kept_lines(a) + kept_lines(b),
{
    Seq::filter_distributes_over_add(a, b, |line: Seq<char>| !is_local_include(line));
}

proof fn lemma_kept_one(line: Seq<char>)
    ensures
        is_local_include(line) ==> kept_lines(seq![line]) == Seq::<Seq<char>>::empty(),
        !is_local_include(line) ==> kept_lines(seq![line]) == seq![line],
{
    reveal(Seq::filter);
    let one: Seq<Seq<char>> = seq![line];
    assert(one.drop_last() =~= Seq::empty());
    assert(kept_lines(one.drop_last()) =~= Seq::empty());
    assert(is_local_include(line) ==> kept_lines(one) =~= Seq::empty());
    assert(!is_local_include(line) ==> kept_lines(one) =~= one);
}

/// A line with `#include` behind nothing but white space and with a quote behind that is lost,
/// wherever it stands, together with its newline, and nothing else is: the rest is stripped as if
/// the line had never been there.
pub proof fn law_quoted_includes_are_lost(
    before: Seq<char>,
    line: Seq<char>,
    after: Seq<char>,
    i: int,
    q: int,
)
    requires
        before.len() == 0 || before.last() == '\n',
        !line.contains('\n'),
        quotes_header(line, i, q),
    ensures
        stripped(before + line.push('\n') + after) == stripped(before + after),
        stripped(before + line) == stripped(before),
{
    lemma_quotes_header(line);
    lemma_trim_chomp(line);
    lemma_one_line(line);
    let full: Seq<char> = line.push('\n');
    lemma_lines_concat(before, full + after, 0);
    assert(before + full + after =~= before + (full + after));
    lemma_lines_concat(full, after, 0);
    lemma_lines_concat(before, after, 0);
    lemma_lines_concat(before, line, 0);
    lemma_kept_one(line);
    lemma_kept_one(chomp(line));
    lemma_kept_concat(lines(before), lines(full + after));
    lemma_kept_concat(lines(full), lines(after));
    lemma_kept_concat(lines(before), lines(after));
    lemma_kept_concat(lines(before), lines(line));
    assert(kept_lines(lines(before)) + (Seq::<Seq<char>>::empty() + kept_lines(lines(after)))
        =~= kept_lines(lines(before)) + kept_lines(lines(after)));
    assert(kept_lines(lines(before)) + Seq::<Seq<char>>::empty() =~= kept_lines(lines(before)));
}

/// Any other line that stands alone is all that is left, without its newline and the carriage
/// return before that.
pub proof fn law_other_lines_are_kept(line: Seq<char>)
    requires
        !line.contains('\n'),
        forall|i: int, q: int| !quotes_header(line, i, q),
    ensures
        stripped(line) == line,
        stripped(line.push('\n')) == without_return(line),
{
    lemma_quotes_header(line);
    lemma_trim_chomp(line);
    lemma_one_line(line);
    lemma_kept_one(line);
    lemma_kept_one(chomp(line));
    assert(chomp(line) =~= without_return(line));
    if line.len() == 0 {
        reveal(Seq::filter);
        assert(kept_lines(lines(line)) =~= Seq::empty());
        assert(stripped(line) =~= line);
    }
}

/// Any other line that has one more such line behind it is kept, as it is, in front of what is left
/// of the source from that line on, with a newline between the two.
pub proof fn law_other_lines_stay_apart(line: Seq<char>, next: Seq<char>, after: Seq<char>)
    requires
        !line.contains('\n'),
        !next.contains('\n'),
        forall|i: int, q: int| !quotes_header(line, i, q),
        forall|i: int, q: int| !quotes_header(next, i, q),
    ensures
        stripped(line.push('\n') + (next.push('\n') + after)) == without_return(line).push('\n')
            + stripped(next.push('\n') + after),
        next.len() > 0 ==> stripped(line.push('\n') + next) == without_return(line).push('\n')
            + stripped(next),
{
    lemma_quotes_header(line);
    lemma_quotes_header(next);
    lemma_trim_chomp(line);
    lemma_trim_chomp(next);
    lemma_one_line(line);
    lemma_one_line(next);
    lemma_kept_one(chomp(line));
    lemma_kept_one(chomp(next));
    lemma_kept_one(next);
    assert(chomp(line) =~= without_return(line));
    let first: Seq<char> = line.push('\n');
    let rest: Seq<char> = next.push('\n') + after;
    lemma_lines_concat(first, rest, 0);
    lemma_lines_concat(next.push('\n'), after, 0);
    lemma_lines_concat(first, next, 0);
    lemma_kept_concat(lines(first), lines(rest));
    lemma_kept_concat(lines(next.push('\n')), lines(after));
    lemma_kept_concat(lines(first), lines(next));
    lemma_join_concat(seq![chomp(line)], kept_lines(lines(rest)));
    if next.len() > 0 {
        lemma_join_concat(seq![chomp(line)], kept_lines(lines(next)));
    }
}

proof fn lemma_join_holds(a: Seq<Seq<char>>, line: Seq<char>, b: Seq<Seq<char>>) -> (p: int)
    ensures
        0 <= p <= p + line.len() <= join_lines(a + seq![line] + b).len(),
        join_lines(a + seq![line] + b).subrange(p, p + line.len()) == line,
{
    let one: Seq<Seq<char>> = seq![line];
    let tail: Seq<Seq<char>> = one + b;
    let text: Seq<char> = join_lines(tail);
    if b.len() > 0 {
        lemma_join_concat(one, b);
    } else {
        assert(tail =~= one);
    }
    assert(text.len() >= line.len());
    assert(text.subrange(0, line.len() as int) =~= line);
    assert(a + one + b =~= a + tail);
    if a.len() > 0 {
        lemma_join_concat(a, tail);
        let p: int = join_lines(a).len() as int + 1;
        let all: Seq<char> = join_lines(a).push('\n') + text;
        assert(all.subrange(p, p + line.len()) =~= text.subrange(0, line.len() as int));
        p
    } else {
        assert(a + tail =~= tail);
        0
    }
}

/// Wherever a line without such an `#include` stands, and whatever stands around it, what is left of
/// the source holds it: the place where it starts is handed back.
pub proof fn law_other_lines_are_never_lost(
    before: Seq<char>,
    line: Seq<char>,
    after: Seq<char>,
) -> (p: int)
    requires
        before.len() == 0 || before.last() == '\n',
        !line.contains('\n'),
        forall|i: int, q: int| !quotes_header(line, i, q),
    ensures
        ({
            let left: Seq<char> = stripped(before + line.push('\n') + after);
            let text: Seq<char> = without_return(line);
            &&& 0 <= p <= p + text.len() <= left.len()
            &&& left.subrange(p, p + text.len()) == text
        }),
{
    lemma_quotes_header(line);
    lemma_trim_chomp(line);
    lemma_one_line(line);
    lemma_kept_one(chomp(line));
    assert(chomp(line) =~= without_return(line));
    let full: Seq<char> = line.push('\n');
    assert(before + full + after =~= before + (full + after));
    lemma_lines_concat(before, full + after, 0);
    lemma_lines_concat(full, after, 0);
    lemma_kept_concat(lines(before), lines(full + after));
    lemma_kept_concat(lines(full), lines(after));
    let a: Seq<Seq<char>> = kept_lines(lines(before));
    let b: Seq<Seq<char>> = kept_lines(lines(after));
    assert(a + (seq![chomp(line)] + b) =~= a + seq![chomp(line)] + b);
    lemma_join_holds(a, chomp(line), b)
}

} // verus!
