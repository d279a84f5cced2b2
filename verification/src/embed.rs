//! The CUDA source that is embedded where the kernels are compiled at run time.
//!
//! The compiler that runs then knows the system headers and not those of this project, so the
//! text of these is put before the source, and no line asks for them any more.
use crate::text::{
    append_chars, chars_of, chomp, find_line_end, join_lines, lemma_join_push, lemma_line_end,
    lemma_lines_shift, lemma_trim_chomp, line_end, lines, lines_from, trim, trim_range,
};
use vstd::prelude::*;
use vstd::string::*;

verus! {

/// The names of the kernel modules, each at its index.
pub const KERNEL_NAMES: [&'static str; 11] = [
    "affine",
    "binary",
    "cast",
    "conv",
    "fill",
    "indexing",
    "quantized",
    "reduce",
    "sort",
    "ternary",
    "unary",
];

/// The headers, each after those that it needs.
pub const HEADERS_IN_ORDER: [&'static str; 3] = [
    "compatibility.cuh",
    "cuda_utils.cuh",
    "binary_op_macros.cuh",
];

/// Whether a line asks for a header of the project.
pub open spec fn is_local_include(line: Seq<char>) -> bool {
    &&& "#include"@.is_prefix_of(trim(line))
    &&& trim(line).contains('"')
}

/// The lines that do not ask for a header of the project.
pub open spec fn kept_lines(lines: Seq<Seq<char>>) -> Seq<Seq<char>> {
    lines.filter(|line: Seq<char>| !is_local_include(line))
}

/// A source without the lines that ask for a header of the project.
pub open spec fn stripped(source: Seq<char>) -> Seq<char> {
    join_lines(kept_lines(lines(source)))
}

/// Whether the characters from `from` up to `to` are a line that asks for a header of the project.
fn check_local_include(chars: &Vec<char>, from: usize, to: usize) -> (r: bool)
    requires
        from <= to <= chars@.len(),
    ensures
        r == is_local_include(chars@.subrange(from as int, to as int)),
{
    let (a, b): (usize, usize) = trim_range(chars, from, to);
    let ghost trimmed: Seq<char> = chars@.subrange(a as int, b as int);
    let prefix: Vec<char> = chars_of("#include");
    if b - a < prefix.len() {
        return false;
    }
    let mut i: usize = 0;
    while i < prefix.len()
        invariant
            a <= b <= chars@.len(),
            i <= prefix@.len() <= b - a,
            trimmed == chars@.subrange(a as int, b as int),
            trimmed == trim(chars@.subrange(from as int, to as int)),
            prefix@ == "#include"@,
            forall|k: int| 0 <= k < i ==> prefix@[k] == trimmed[k],
        decreases prefix@.len() - i,
    {
        if chars[a + i] != prefix[i] {
            assert(trimmed[i as int] != prefix@[i as int]);
            return false;
        }
        i += 1;
    }
    assert("#include"@.is_prefix_of(trimmed));
    let mut j: usize = a;
    while j < b
        invariant
            a <= j <= b <= chars@.len(),
            trimmed == chars@.subrange(a as int, b as int),
            trimmed == trim(chars@.subrange(from as int, to as int)),
            "#include"@.is_prefix_of(trimmed),
            forall|k: int| 0 <= k < j - a ==> trimmed[k] != '"',
        decreases b - j,
    {
        if chars[j] == '"' {
            assert(trimmed[j - a] == '"');
            return true;
        }
        j += 1;
    }
    false
}

/// A source without the lines that ask for a header of the project. The lines that are left have
/// a newline between each two of them, and none behind the last.
pub fn strip_local_includes(source: &str) -> (r: String)
    ensures
        r@ == stripped(source@),
{
    let chars: Vec<char> = chars_of(source);
    let ghost text: Seq<char> = chars@;
    let ghost mut done: Seq<Seq<char>> = Seq::empty();
    let mut result: String = String::new();
    let mut any: bool = false;
    let mut i: usize = 0;
    proof {
        reveal(Seq::filter);
        assert(done + lines_from(text, 0) =~= lines(text));
    }
    while i < chars.len()
        invariant
            i <= text.len(),
            text == chars@,
            done + lines_from(text, i as int) == lines(text),
            result@ == join_lines(kept_lines(done)),
            any <==> kept_lines(done).len() > 0,
        decreases text.len() - i,
    {
        let end: usize = find_line_end(&chars, i);
        let line_stop: usize = if end < chars.len() && i < end && chars[end - 1] == '\r' {
            end - 1
        } else {
            end
        };
        let ghost line: Seq<char> = text.subrange(i as int, line_stop as int);
        let ghost before: Seq<Seq<char>> = done;
        proof {
            if end < text.len() {
                assert(line =~= chomp(text.subrange(i as int, end as int)));
                assert(lines_from(text, i as int) == seq![line] + lines_from(text, end + 1));
            } else {
                assert(lines_from(text, i as int) == seq![line]);
            }
            done = before.push(line);
            reveal(Seq::filter);
            assert(done.drop_last() =~= before);
        }
        if !check_local_include(&chars, i, line_stop) {
            proof {
                lemma_join_push(kept_lines(before), line);
            }
            if any {
                result.push('\n');
            }
            append_chars(&mut result, &chars, i, line_stop);
            any = true;
            assert(kept_lines(done) == kept_lines(before).push(line));
            assert(result@ =~= join_lines(kept_lines(done)));
        }
        if end < chars.len() {
            i = end + 1;
            assert(done + lines_from(text, i as int) =~= lines(text));
        } else {
            i = end;
            assert(done + lines_from(text, i as int) =~= lines(text));
        }
    }
    assert(done =~= lines(text));
    result
}

proof fn lemma_lines_hold_no_newline(s: Seq<char>, i: int)
    requires
        0 <= i,
    ensures
        forall|k: int|
            0 <= k < lines_from(s, i).len() ==> !(#[trigger] lines_from(s, i)[k]).contains('\n'),
    decreases s.len() - i,
{
    if i < s.len() {
        lemma_line_end(s, i);
        let end: int = line_end(s, i);
        if end < s.len() {
            lemma_lines_hold_no_newline(s, end + 1);
            let rest: Seq<Seq<char>> = lines_from(s, end + 1);
            assert forall|k: int| 0 <= k < lines_from(s, i).len() implies !(
            #[trigger] lines_from(s, i)[k]).contains('\n') by {
                if k > 0 {
                    assert(lines_from(s, i)[k] == rest[k - 1]);
                }
            }
        }
    }
}

/// Whether no line holds a newline or asks for a header of the project.
pub open spec fn are_clean(lines: Seq<Seq<char>>) -> bool {
    forall|k: int|
        0 <= k < lines.len() ==> !(#[trigger] lines[k]).contains('\n') && !is_local_include(lines[k])
}

proof fn lemma_kept_lines(lines: Seq<Seq<char>>)
    requires
        forall|k: int| 0 <= k < lines.len() ==> !(#[trigger] lines[k]).contains('\n'),
    ensures
        are_clean(kept_lines(lines)),
    decreases lines.len(),
{
    reveal(Seq::filter);
    if lines.len() > 0 {
        lemma_kept_lines(lines.drop_last());
        assert(!lines[lines.len() - 1].contains('\n'));
        let front: Seq<Seq<char>> = kept_lines(lines.drop_last());
        assert forall|k: int| 0 <= k < kept_lines(lines).len() implies !(
        #[trigger] kept_lines(lines)[k]).contains('\n') && !is_local_include(
            kept_lines(lines)[k],
        ) by {
            if k < front.len() {
                assert(kept_lines(lines)[k] == front[k]);
            }
        }
    }
}

/// Joining clean lines makes no line that asks for a header of the project.
pub proof fn lemma_joined_lines_stay_clean(kept: Seq<Seq<char>>)
    requires
        are_clean(kept),
    ensures
        forall|k: int|
            0 <= k < lines(join_lines(kept)).len() ==> !is_local_include(
                #[trigger] lines(join_lines(kept))[k],
            ),
    decreases kept.len(),
{
    let s: Seq<char> = join_lines(kept);
    if kept.len() == 1 {
        lemma_line_end(s, 0);
        assert(!kept[0].contains('\n'));
        assert(line_end(s, 0) == s.len());
        assert(s.subrange(0, s.len() as int) =~= kept[0]);
    } else if kept.len() > 1 {
        let head: Seq<char> = kept[0];
        let rest: Seq<Seq<char>> = kept.drop_first();
        assert forall|k: int| 0 <= k < rest.len() implies !(#[trigger] rest[k]).contains('\n')
            && !is_local_include(rest[k]) by {
            assert(rest[k] == kept[k + 1]);
        }
        lemma_joined_lines_stay_clean(rest);
        let tail: Seq<char> = join_lines(rest);
        let n: int = head.len() as int;
        lemma_line_end(s, 0);
        assert(s[n] == '\n');
        assert(line_end(s, 0) == n) by {
            let e: int = line_end(s, 0);
            if e < n {
                assert(head[e] == s[e]);
                assert(!kept[0].contains('\n'));
            }
        }
        assert(s.subrange(0, n) =~= head);
        lemma_lines_shift(head.push('\n'), tail, 0);
        assert(lines(s) == seq![chomp(head)] + lines(tail));
        lemma_trim_chomp(head);
        assert forall|k: int| 0 <= k < lines(s).len() implies !is_local_include(
            #[trigger] lines(s)[k],
        ) by {
            if k > 0 {
                assert(lines(s)[k] == lines(tail)[k - 1]);
            }
        }
    }
}

/// A stripped source is made of one or more clean lines, which are handed back.
pub proof fn lemma_stripped_is_joined(source: Seq<char>) -> (kept: Seq<Seq<char>>)
    ensures
        kept.len() > 0,
        are_clean(kept),
        stripped(source) == join_lines(kept),
{
    lemma_lines_hold_no_newline(source, 0);
    lemma_kept_lines(lines(source));
    if kept_lines(lines(source)).len() > 0 {
        kept_lines(lines(source))
    } else {
        let empty: Seq<char> = Seq::empty();
        reveal_strlit("#include");
        assert(trim(empty) == empty);
        seq![empty]
    }
}

/// No line of a stripped source asks for a header of the project.
pub proof fn law_stripped_asks_for_no_header(source: Seq<char>)
    ensures
        forall|k: int|
            0 <= k < lines(stripped(source)).len() ==> !is_local_include(
                #[trigger] lines(stripped(source))[k],
            ),
{
    let kept: Seq<Seq<char>> = lemma_stripped_is_joined(source);
    lemma_joined_lines_stay_clean(kept);
}

proof fn lemma_all_lines_kept(lines: Seq<Seq<char>>)
    requires
        forall|k: int| 0 <= k < lines.len() ==> !is_local_include(#[trigger] lines[k]),
    ensures
        kept_lines(lines) == lines,
    decreases lines.len(),
{
    reveal(Seq::filter);
    if lines.len() > 0 {
        lemma_all_lines_kept(lines.drop_last());
        assert(!is_local_include(lines[lines.len() - 1]));
        assert(kept_lines(lines) =~= lines);
    } else {
        assert(kept_lines(lines) =~= lines);
    }
}

proof fn lemma_join_of_lines(s: Seq<char>, i: int)
    requires
        0 <= i <= s.len(),
        !s.contains('\r'),
    ensures
        join_lines(lines_from(s, i)) == if i < s.len() && s.last() == '\n' {
            s.subrange(i, s.len() - 1)
        } else {
            s.subrange(i, s.len() as int)
        },
    decreases s.len() - i,
{
    if i < s.len() {
        lemma_line_end(s, i);
        let end: int = line_end(s, i);
        if end < s.len() {
            lemma_join_of_lines(s, end + 1);
            let head: Seq<char> = s.subrange(i, end);
            let rest: Seq<Seq<char>> = lines_from(s, end + 1);
            if head.len() > 0 {
                assert(head.last() == s[end - 1]);
                assert(s.contains(s[end - 1]));
            }
            assert(lines_from(s, i) == seq![head] + rest);
            assert(lines_from(s, i).drop_first() =~= rest);
            if end + 1 == s.len() {
                assert(join_lines(lines_from(s, i)) == head);
                assert(head =~= s.subrange(i, s.len() - 1));
            } else {
                assert(rest.len() > 0);
                let stop: int = if s.last() == '\n' {
                    s.len() - 1
                } else {
                    s.len() as int
                };
                assert(head.push('\n') + s.subrange(end + 1, stop) =~= s.subrange(i, stop));
            }
        } else {
            assert(s[s.len() - 1] != '\n');
        }
    } else {
        assert(join_lines(lines_from(s, i)) =~= s.subrange(i, s.len() as int));
    }
}

/// A source that asks for no header of the project, and whose lines end in a newline alone, loses
/// nothing but the newline at its end, if it has one.
pub proof fn law_stripped_keeps_the_rest(source: Seq<char>)
    requires
        !source.contains('\r'),
        forall|k: int|
            0 <= k < lines(source).len() ==> !is_local_include(#[trigger] lines(source)[k]),
    ensures
        stripped(source) == if source.len() > 0 && source.last() == '\n' {
            source.drop_last()
        } else {
            source
        },
{
    lemma_all_lines_kept(lines(source));
    lemma_join_of_lines(source, 0);
    assert(source.subrange(0, source.len() as int) =~= source);
}

} // verus!
