//! The files of the embedded sources: their names, and the definitions that draw them in.
use crate::embed::{
    are_clean, is_local_include, lemma_joined_lines_stay_clean, lemma_stripped_is_joined,
    strip_local_includes, stripped, HEADERS_IN_ORDER, KERNEL_NAMES,
};
use crate::kernels::{index_of, lemma_index_at, Id, ALL_IDS};
use crate::text::{chars_of, join_lines, lemma_join_concat, lines};
use vstd::prelude::*;
use vstd::string::*;

verus! {

/// A lower-case letter of the ASCII alphabet in upper case; any other character itself.
pub open spec fn upper(c: char) -> char {
    if 'a' <= c <= 'z' {
        (c as u8 - 32) as char
    } else {
        c
    }
}

/// An underscore for a dot; any other character itself.
pub open spec fn undot(c: char) -> char {
    if c == '.' {
        '_'
    } else {
        c
    }
}

/// The name of the constant that holds the source of the module `name`.
pub fn const_name(name: &str) -> (r: String)
    requires
        name.is_ascii(),
    ensures
        r@ == name@.map_values(|c: char| upper(c)),
{
    let chars: Vec<char> = chars_of(name);
    let mut result: String = String::new();
    for i in 0..chars.len()
        invariant
            result@ == chars@.take(i as int).map_values(|c: char| upper(c)),
    {
        let c: char = chars[i];
        if 'a' <= c && c <= 'z' {
            result.push((c as u8 - 32u8) as char);
        } else {
            result.push(c);
        }
        assert(result@ =~= chars@.take(i + 1).map_values(|c: char| upper(c)));
    }
    assert(chars@.take(chars@.len() as int) =~= chars@);
    result
}

/// Where the source of the module `name` is.
pub fn source_path(name: &str) -> (r: String)
    ensures
        r@ == "src/"@ + name@ + ".cu"@,
{
    let mut path: String = "src/".to_owned();
    path.append(name);
    path.append(".cu");
    path
}

/// Where a header is.
pub fn header_path(header: &str) -> (r: String)
    ensures
        r@ == "src/"@ + header@,
{
    let mut path: String = "src/".to_owned();
    path.append(header);
    path
}

/// The name of the file with the stripped source of the module `name`.
pub fn stripped_file(name: &str) -> (r: String)
    ensures
        r@ == name@ + "_stripped.cu"@,
{
    let mut file: String = name.to_owned();
    file.append("_stripped.cu");
    file
}

/// The name of the file with the stripped header that goes with the module `name`.
pub open spec fn header_file_name(name: Seq<char>, header: Seq<char>) -> Seq<char> {
    name + "_"@ + header.map_values(|c: char| undot(c))
}

/// The name of the file with the stripped header that goes with the module `name`.
pub fn header_file(name: &str, header: &str) -> (r: String)
    ensures
        r@ == header_file_name(name@, header@),
{
    let chars: Vec<char> = chars_of(header);
    let mut file: String = name.to_owned();
    file.append("_");
    let ghost start: Seq<char> = file@;
    for i in 0..chars.len()
        invariant
            file@ == start + chars@.take(i as int).map_values(|c: char| undot(c)),
    {
        if chars[i] == '.' {
            file.push('_');
        } else {
            file.push(chars[i]);
        }
        assert(file@ =~= start + chars@.take(i + 1).map_values(|c: char| undot(c)));
    }
    assert(chars@.take(chars@.len() as int) =~= chars@);
    file
}

/// One file that a definition draws in.
pub struct Entry {
    /// The name of the file.
    pub file: Seq<char>,
    /// Whether a newline comes behind its text.
    pub newline: bool,
}

/// What the definition for the module `name` draws in: the headers in their order, each with a
/// newline behind it, and then the source.
pub open spec fn entries(name: Seq<char>) -> Seq<Entry> {
    Seq::new(
        HEADERS_IN_ORDER@.len(),
        |i: int| Entry { file: header_file_name(name, HEADERS_IN_ORDER@[i]@), newline: true },
    ).push(Entry { file: name + "_stripped.cu"@, newline: false })
}

/// The line that draws in a file.
pub open spec fn entry_line(entry: Entry) -> Seq<char> {
    "    include_str!(concat!(env!(\"OUT_DIR\"), \"/"@ + entry.file + "\")),"@ + if entry.newline {
        " \"\\n\","@
    } else {
        Seq::empty()
    } + "\n"@
}

/// The lines that draw in files.
pub open spec fn entry_lines(entries: Seq<Entry>) -> Seq<char>
    decreases entries.len(),
{
    if entries.len() == 0 {
        Seq::empty()
    } else {
        entry_lines(entries.drop_last()) + entry_line(entries.last())
    }
}

/// The definition of the constant that holds the source of the module `name`.
pub open spec fn definition(name: Seq<char>) -> Seq<char> {
    "pub const "@ + name.map_values(|c: char| upper(c)) + ": &str = concat!(\n"@ + entry_lines(
        entries(name),
    ) + ");\n"@
}

/// Appends the line that draws in a file.
fn append_entry(text: &mut String, file: &str, newline: bool)
    ensures
        final(text)@ == old(text)@ + entry_line(Entry { file: file@, newline }),
{
    text.append("    include_str!(concat!(env!(\"OUT_DIR\"), \"/");
    text.append(file);
    text.append("\")),");
    if newline {
        text.append(" \"\\n\",");
    }
    text.append("\n");
    assert(text@ =~= old(text)@ + entry_line(Entry { file: file@, newline }));
}

/// The definition of the constant that holds the source of the module `name`.
pub fn const_definition(name: &str) -> (r: String)
    requires
        name.is_ascii(),
    ensures
        r@ == definition(name@),
{
    let mut text: String = "pub const ".to_owned();
    text.append(const_name(name).as_str());
    text.append(": &str = concat!(\n");
    let headers: [&'static str; 3] = HEADERS_IN_ORDER;
    let ghost start: Seq<char> = text@;
    let ghost all: Seq<Entry> = entries(name@);
    assert(text@ =~= start + entry_lines(all.take(0)));
    for i in 0..headers.len()
        invariant
            headers@ == HEADERS_IN_ORDER@,
            all == entries(name@),
            text@ == start + entry_lines(all.take(i as int)),
    {
        append_entry(&mut text, header_file(name, headers[i]).as_str(), true);
        assert(all.take(i + 1).drop_last() =~= all.take(i as int));
        assert(text@ =~= start + entry_lines(all.take(i + 1)));
    }
    append_entry(&mut text, stripped_file(name).as_str(), false);
    assert(all.drop_last() =~= all.take(HEADERS_IN_ORDER@.len() as int));
    assert(text@ =~= start + entry_lines(all));
    text.append(");\n");
    text
}

/// The definitions of the constants of the first `n` modules.
pub open spec fn definitions(n: int) -> Seq<char>
    decreases n,
{
    if n <= 0 {
        Seq::empty()
    } else {
        definitions(n - 1) + definition(KERNEL_NAMES@[n - 1]@)
    }
}

/// The definitions of the constants of all the modules.
pub fn const_definitions() -> (r: String)
    ensures
        r@ == definitions(KERNEL_NAMES@.len() as int),
{
    let names: [&'static str; 11] = KERNEL_NAMES;
    let mut text: String = String::new();
    for i in 0..names.len()
        invariant
            names@ == KERNEL_NAMES@,
            text@ == definitions(i as int),
    {
        proof {
            lemma_names_are_ascii(i as int);
        }
        text.append(const_definition(names[i]).as_str());
    }
    text
}

/// The names of the modules are ASCII.
pub proof fn lemma_names_are_ascii(i: int)
    requires
        0 <= i < KERNEL_NAMES@.len(),
    ensures
        KERNEL_NAMES@[i].is_ascii(),
{
    reveal_strlit("affine");
    reveal_strlit("binary");
    reveal_strlit("cast");
    reveal_strlit("conv");
    reveal_strlit("fill");
    reveal_strlit("indexing");
    reveal_strlit("quantized");
    reveal_strlit("reduce");
    reveal_strlit("sort");
    reveal_strlit("ternary");
    reveal_strlit("unary");
}

/// No two modules share a constant, so no two definitions clash.
pub proof fn law_constants_differ(a: Id, b: Id)
    requires
        a != b,
    ensures
        KERNEL_NAMES@[index_of(a)]@.map_values(|c: char| upper(c))
            != KERNEL_NAMES@[index_of(b)]@.map_values(|c: char| upper(c)),
{
    reveal_strlit("affine");
    reveal_strlit("binary");
    reveal_strlit("cast");
    reveal_strlit("conv");
    reveal_strlit("fill");
    reveal_strlit("indexing");
    reveal_strlit("quantized");
    reveal_strlit("reduce");
    reveal_strlit("sort");
    reveal_strlit("ternary");
    reveal_strlit("unary");
    let n: Seq<char> = KERNEL_NAMES@[index_of(a)]@.map_values(|c: char| upper(c));
    let m: Seq<char> = KERNEL_NAMES@[index_of(b)]@.map_values(|c: char| upper(c));
    if n == m {
        assert(n.len() == m.len());
        assert(n[0] == m[0]);
        assert(n[2] == m[2]);
    }
}

/// The stripped headers, each with a newline behind it, and then `body`.
pub open spec fn with_headers(headers: Seq<Seq<char>>, body: Seq<char>) -> Seq<char>
    decreases headers.len(),
{
    if headers.len() == 0 {
        body
    } else {
        stripped(headers[0]).push('\n') + with_headers(headers.drop_first(), body)
    }
}

/// An embedded source is made of clean lines, which are handed back.
proof fn lemma_embedded_is_joined(headers: Seq<Seq<char>>, source: Seq<char>) -> (kept: Seq<
    Seq<char>,
>)
    ensures
        kept.len() > 0,
        are_clean(kept),
        with_headers(headers, stripped(source)) == join_lines(kept),
    decreases headers.len(),
{
    if headers.len() == 0 {
        lemma_stripped_is_joined(source)
    } else {
        let first: Seq<Seq<char>> = lemma_stripped_is_joined(headers[0]);
        let rest: Seq<Seq<char>> = lemma_embedded_is_joined(headers.drop_first(), source);
        lemma_join_concat(first, rest);
        first + rest
    }
}

/// No line of an embedded source, be it of a header or of the source itself, asks for a header of
/// the project.
pub proof fn law_embedded_asks_for_no_header(headers: Seq<Seq<char>>, source: Seq<char>)
    ensures
        forall|k: int|
            0 <= k < lines(with_headers(headers, stripped(source))).len() ==> !is_local_include(
                #[trigger] lines(with_headers(headers, stripped(source)))[k],
            ),
{
    let kept: Seq<Seq<char>> = lemma_embedded_is_joined(headers, source);
    lemma_joined_lines_stay_clean(kept);
}

/// The text that is embedded for a source: what the constant holds, as
/// [`law_constants_hold_their_sources`] says.
pub fn embedded_source(headers: &Vec<String>, source: &str) -> (r: String)
    ensures
        r@ == with_headers(headers@.map_values(|h: String| h@), stripped(source@)),
{
    let ghost texts: Seq<Seq<char>> = headers@.map_values(|h: String| h@);
    let ghost body: Seq<char> = stripped(source@);
    let mut text: String = String::new();
    assert(texts.skip(0) =~= texts);
    assert(text@ + with_headers(texts, body) =~= with_headers(texts, body));
    for i in 0..headers.len()
        invariant
            texts == headers@.map_values(|h: String| h@),
            text@ + with_headers(texts.skip(i as int), body) == with_headers(texts, body),
    {
        let ghost before: Seq<char> = text@;
        text.append(strip_local_includes(headers[i].as_str()).as_str());
        text.push('\n');
        proof {
            let rest: Seq<Seq<char>> = texts.skip(i as int);
            assert(rest[0] == headers@[i as int]@);
            assert(rest.drop_first() =~= texts.skip(i + 1));
            let tail: Seq<char> = with_headers(texts.skip(i + 1), body);
            assert(text@ =~= before + stripped(rest[0]).push('\n'));
            assert(text@ + tail =~= before + (stripped(rest[0]).push('\n') + tail));
        }
    }
    text.append(strip_local_includes(source).as_str());
    assert(texts.skip(headers@.len() as int) =~= Seq::empty());
    text
}

/// The files that are written for the module `name`, each with its text: the stripped headers and
/// the stripped source.
pub open spec fn files(name: Seq<char>, headers: Seq<Seq<char>>, source: Seq<char>) -> Seq<
    (Seq<char>, Seq<char>),
> {
    Seq::new(
        HEADERS_IN_ORDER@.len(),
        |i: int| (header_file_name(name, HEADERS_IN_ORDER@[i]@), stripped(headers[i])),
    ).push((name + "_stripped.cu"@, stripped(source)))
}

/// The files that are written for the module `name`, each with its text. `headers` holds the texts
/// of the headers, in their order.
pub fn embedded_files(name: &str, headers: &Vec<String>, source: &str) -> (r: Vec<(String, String)>)
    requires
        headers@.len() == HEADERS_IN_ORDER@.len(),
    ensures
        r@.map_values(|f: (String, String)| (f.0@, f.1@)) == files(
            name@,
            headers@.map_values(|h: String| h@),
            source@,
        ),
{
    let names: [&'static str; 3] = HEADERS_IN_ORDER;
    let ghost all: Seq<(Seq<char>, Seq<char>)> = files(
        name@,
        headers@.map_values(|h: String| h@),
        source@,
    );
    let mut result: Vec<(String, String)> = Vec::new();
    for i in 0..names.len()
        invariant
            names@ == HEADERS_IN_ORDER@,
            headers@.len() == HEADERS_IN_ORDER@.len(),
            all == files(name@, headers@.map_values(|h: String| h@), source@),
            result@.len() == i,
            forall|k: int|
                0 <= k < i ==> ((#[trigger] result@[k]).0@, result@[k].1@) == all[k],
    {
        result.push((header_file(name, names[i]), strip_local_includes(headers[i].as_str())));
    }
    result.push((stripped_file(name), strip_local_includes(source)));
    assert(result@.map_values(|f: (String, String)| (f.0@, f.1@)) =~= all);
    result
}

/// The files that are written for the first `n` modules, whose sources are `sources`.
pub open spec fn all_files(headers: Seq<Seq<char>>, sources: Seq<Seq<char>>, n: int) -> Seq<
    (Seq<char>, Seq<char>),
>
    decreases n,
{
    if n <= 0 {
        Seq::empty()
    } else {
        all_files(headers, sources, n - 1) + files(KERNEL_NAMES@[n - 1]@, headers, sources[n - 1])
    }
}

/// What a directory holds, by the names of the files, once `files` are written to it in order.
pub open spec fn write_files(
    dir: Map<Seq<char>, Seq<char>>,
    files: Seq<(Seq<char>, Seq<char>)>,
) -> Map<Seq<char>, Seq<char>>
    decreases files.len(),
{
    if files.len() == 0 {
        dir
    } else {
        write_files(dir, files.drop_last()).insert(files.last().0, files.last().1)
    }
}

/// The text that `entries` draw in from a directory.
pub open spec fn drawn_in(entries: Seq<Entry>, dir: Map<Seq<char>, Seq<char>>) -> Seq<char>
    decreases entries.len(),
{
    if entries.len() == 0 {
        Seq::empty()
    } else {
        let text: Seq<char> = dir[entries[0].file];
        let rest: Seq<char> = drawn_in(entries.drop_first(), dir);
        if entries[0].newline {
            text.push('\n') + rest
        } else {
            text + rest
        }
    }
}

proof fn lemma_file_is_written(
    dir: Map<Seq<char>, Seq<char>>,
    files: Seq<(Seq<char>, Seq<char>)>,
    p: int,
)
    requires
        0 <= p < files.len(),
        forall|q: int| p < q < files.len() ==> (#[trigger] files[q]).0 != files[p].0,
    ensures
        write_files(dir, files).contains_key(files[p].0),
        write_files(dir, files)[files[p].0] == files[p].1,
    decreases files.len(),
{
    if p < files.len() - 1 {
        assert(files[files.len() - 1].0 != files[p].0);
        assert forall|q: int| p < q < files.drop_last().len() implies (
        #[trigger] files.drop_last()[q]).0 != files.drop_last()[p].0 by {
            assert(files[q].0 != files[p].0);
        }
        lemma_file_is_written(dir, files.drop_last(), p);
    }
}

proof fn lemma_split_at_underscore(x: Seq<char>, u: Seq<char>, y: Seq<char>, v: Seq<char>)
    requires
        !x.contains('_'),
        !y.contains('_'),
        x.push('_') + u == y.push('_') + v,
    ensures
        x == y,
        u == v,
{
    let s: Seq<char> = x.push('_') + u;
    let t: Seq<char> = y.push('_') + v;
    if x.len() < y.len() {
        assert(t[x.len() as int] == y[x.len() as int]);
        assert(s[x.len() as int] == '_');
    } else if y.len() < x.len() {
        assert(s[y.len() as int] == x[y.len() as int]);
        assert(t[y.len() as int] == '_');
    }
    assert(x =~= s.take(x.len() as int));
    assert(y =~= t.take(y.len() as int));
    assert(u =~= s.skip((x.len() + 1) as int));
    assert(v =~= t.skip((y.len() + 1) as int));
}

proof fn lemma_names_hold_no_underscore(k: int)
    requires
        0 <= k < KERNEL_NAMES@.len(),
    ensures
        !KERNEL_NAMES@[k]@.contains('_'),
{
    reveal_strlit("affine");
    reveal_strlit("binary");
    reveal_strlit("cast");
    reveal_strlit("conv");
    reveal_strlit("fill");
    reveal_strlit("indexing");
    reveal_strlit("quantized");
    reveal_strlit("reduce");
    reveal_strlit("sort");
    reveal_strlit("ternary");
    reveal_strlit("unary");
}

/// What comes behind the name of the module in the name of its file number `i`.
spec fn file_suffix(i: int) -> Seq<char> {
    if i < HEADERS_IN_ORDER@.len() {
        HEADERS_IN_ORDER@[i]@.map_values(|c: char| undot(c))
    } else {
        "stripped.cu"@
    }
}

proof fn lemma_file_suffix(name: Seq<char>, i: int)
    requires
        0 <= i <= HEADERS_IN_ORDER@.len(),
    ensures
        entries(name)[i].file == name.push('_') + file_suffix(i),
{
    reveal_strlit("_");
    reveal_strlit("_stripped.cu");
    reveal_strlit("stripped.cu");
    assert(entries(name)[i].file =~= name.push('_') + file_suffix(i));
}

proof fn lemma_suffixes_differ(i: int, j: int)
    requires
        0 <= i < j <= HEADERS_IN_ORDER@.len(),
    ensures
        file_suffix(i) != file_suffix(j),
{
    reveal_strlit("compatibility.cuh");
    reveal_strlit("cuda_utils.cuh");
    reveal_strlit("binary_op_macros.cuh");
    reveal_strlit("stripped.cu");
    assert(file_suffix(i).len() != file_suffix(j).len());
}

/// No two of the files that are written share a name, be they of one module or of two.
pub proof fn law_files_differ(k: int, i: int, l: int, j: int)
    requires
        0 <= k < KERNEL_NAMES@.len(),
        0 <= l < KERNEL_NAMES@.len(),
        0 <= i <= HEADERS_IN_ORDER@.len(),
        0 <= j <= HEADERS_IN_ORDER@.len(),
        (k, i) != (l, j),
    ensures
        entries(KERNEL_NAMES@[k]@)[i].file != entries(KERNEL_NAMES@[l]@)[j].file,
{
    let x: Seq<char> = KERNEL_NAMES@[k]@;
    let y: Seq<char> = KERNEL_NAMES@[l]@;
    lemma_file_suffix(x, i);
    lemma_file_suffix(y, j);
    if entries(x)[i].file == entries(y)[j].file {
        lemma_names_hold_no_underscore(k);
        lemma_names_hold_no_underscore(l);
        lemma_split_at_underscore(x, file_suffix(i), y, file_suffix(j));
        if i < j {
            lemma_suffixes_differ(i, j);
        } else if j < i {
            lemma_suffixes_differ(j, i);
        } else {
            lemma_names_differ(k, l);
        }
    }
}

proof fn lemma_names_differ(k: int, l: int)
    requires
        0 <= k < KERNEL_NAMES@.len(),
        0 <= l < KERNEL_NAMES@.len(),
        k != l,
    ensures
        KERNEL_NAMES@[k]@ != KERNEL_NAMES@[l]@,
{
    let a: Id = ALL_IDS@[k];
    let b: Id = ALL_IDS@[l];
    lemma_index_at(k);
    lemma_index_at(l);
    law_constants_differ(a, b);
}

proof fn lemma_all_files(headers: Seq<Seq<char>>, sources: Seq<Seq<char>>, n: int, k: int, i: int)
    requires
        0 <= k < n <= KERNEL_NAMES@.len(),
        0 <= i <= HEADERS_IN_ORDER@.len(),
    ensures
        all_files(headers, sources, n).len() == 4 * n,
        all_files(headers, sources, n)[4 * k + i] == files(
            KERNEL_NAMES@[k]@,
            headers,
            sources[k],
        )[i],
    decreases n,
{
    if n == 1 {
        assert(all_files(headers, sources, 0).len() == 0);
    } else if k < n - 1 {
        lemma_all_files(headers, sources, n - 1, k, i);
    } else {
        lemma_all_files(headers, sources, n - 1, 0, 0);
    }
}

proof fn lemma_drawn_in(
    name: Seq<char>,
    headers: Seq<Seq<char>>,
    source: Seq<char>,
    dir: Map<Seq<char>, Seq<char>>,
    i: int,
)
    requires
        headers.len() == HEADERS_IN_ORDER@.len(),
        0 <= i <= headers.len(),
        forall|k: int|
            0 <= k <= headers.len() ==> dir[(#[trigger] entries(name)[k]).file] == files(
                name,
                headers,
                source,
            )[k].1,
    ensures
        drawn_in(entries(name).skip(i), dir) == with_headers(headers.skip(i), stripped(source)),
    decreases headers.len() - i,
{
    let rest: Seq<Entry> = entries(name).skip(i);
    assert(rest[0] == entries(name)[i]);
    assert(rest.drop_first() =~= entries(name).skip(i + 1));
    if i < headers.len() {
        assert(headers.skip(i).drop_first() =~= headers.skip(i + 1));
        lemma_drawn_in(name, headers, source, dir, i + 1);
    } else {
        assert(drawn_in(rest.drop_first(), dir) =~= Seq::empty());
        assert(drawn_in(rest, dir) =~= stripped(source));
    }
}

/// Once the files of all the modules are written, whatever the directory held before, what the
/// definition for a module draws in is the stripped headers in their order, each with a newline
/// behind it, and then the stripped source of that module.
pub proof fn law_constants_hold_their_sources(
    dir: Map<Seq<char>, Seq<char>>,
    headers: Seq<Seq<char>>,
    sources: Seq<Seq<char>>,
    k: int,
)
    requires
        headers.len() == HEADERS_IN_ORDER@.len(),
        sources.len() == KERNEL_NAMES@.len(),
        0 <= k < KERNEL_NAMES@.len(),
    ensures
        drawn_in(
            entries(KERNEL_NAMES@[k]@),
            write_files(dir, all_files(headers, sources, KERNEL_NAMES@.len() as int)),
        ) == with_headers(headers, stripped(sources[k])),
{
    let n: int = KERNEL_NAMES@.len() as int;
    let name: Seq<char> = KERNEL_NAMES@[k]@;
    let all: Seq<(Seq<char>, Seq<char>)> = all_files(headers, sources, n);
    let after: Map<Seq<char>, Seq<char>> = write_files(dir, all);
    assert forall|i: int| 0 <= i <= headers.len() implies after[(
    #[trigger] entries(name)[i]).file] == files(name, headers, sources[k])[i].1 by {
        let p: int = 4 * k + i;
        lemma_all_files(headers, sources, n, k, i);
        assert forall|q: int| p < q < all.len() implies (#[trigger] all[q]).0 != all[p].0 by {
            lemma_all_files(headers, sources, n, q / 4, q % 4);
            law_files_differ(k, i, q / 4, q % 4);
            assert(all[q].0 == entries(KERNEL_NAMES@[q / 4]@)[q % 4].file);
        }
        lemma_file_is_written(dir, all, p);
        assert(all[p].0 == entries(name)[i].file);
    }
    lemma_drawn_in(name, headers, sources[k], after, 0);
    assert(entries(name).skip(0) =~= entries(name));
    assert(headers.skip(0) =~= headers);
}

/// Each module has the name of its id, and its constant has that name in capitals.
pub proof fn law_modules_keep_their_names(id: Id)
    ensures
        ({
            let name: Seq<char> = KERNEL_NAMES@[index_of(id)]@;
            let constant: Seq<char> = name.map_values(|c: char| upper(c));
            &&& id == Id::Affine ==> name == "affine"@ && constant == "AFFINE"@
            &&& id == Id::Binary ==> name == "binary"@ && constant == "BINARY"@
            &&& id == Id::Cast ==> name == "cast"@ && constant == "CAST"@
            &&& id == Id::Conv ==> name == "conv"@ && constant == "CONV"@
            &&& id == Id::Fill ==> name == "fill"@ && constant == "FILL"@
            &&& id == Id::Indexing ==> name == "indexing"@ && constant == "INDEXING"@
            &&& id == Id::Quantized ==> name == "quantized"@ && constant == "QUANTIZED"@
            &&& id == Id::Reduce ==> name == "reduce"@ && constant == "REDUCE"@
            &&& id == Id::Sort ==> name == "sort"@ && constant == "SORT"@
            &&& id == Id::Ternary ==> name == "ternary"@ && constant == "TERNARY"@
            &&& id == Id::Unary ==> name == "unary"@ && constant == "UNARY"@
        }),
{
    reveal_strlit("affine");
    reveal_strlit("binary");
    reveal_strlit("cast");
    reveal_strlit("conv");
    reveal_strlit("fill");
    reveal_strlit("indexing");
    reveal_strlit("quantized");
    reveal_strlit("reduce");
    reveal_strlit("sort");
    reveal_strlit("ternary");
    reveal_strlit("unary");
    reveal_strlit("AFFINE");
    reveal_strlit("BINARY");
    reveal_strlit("CAST");
    reveal_strlit("CONV");
    reveal_strlit("FILL");
    reveal_strlit("INDEXING");
    reveal_strlit("QUANTIZED");
    reveal_strlit("REDUCE");
    reveal_strlit("SORT");
    reveal_strlit("TERNARY");
    reveal_strlit("UNARY");
    let constant: Seq<char> = KERNEL_NAMES@[index_of(id)]@.map_values(|c: char| upper(c));
    assert(id == Id::Affine ==> constant =~= "AFFINE"@);
    assert(id == Id::Binary ==> constant =~= "BINARY"@);
    assert(id == Id::Cast ==> constant =~= "CAST"@);
    assert(id == Id::Conv ==> constant =~= "CONV"@);
    assert(id == Id::Fill ==> constant =~= "FILL"@);
    assert(id == Id::Indexing ==> constant =~= "INDEXING"@);
    assert(id == Id::Quantized ==> constant =~= "QUANTIZED"@);
    assert(id == Id::Reduce ==> constant =~= "REDUCE"@);
    assert(id == Id::Sort ==> constant =~= "SORT"@);
    assert(id == Id::Ternary ==> constant =~= "TERNARY"@);
    assert(id == Id::Unary ==> constant =~= "UNARY"@);
}

/// A letter of the ASCII alphabet becomes its capital, which stands as far behind `A` as the letter
/// stands behind `a`, and nothing else changes.
pub proof fn law_capitals(c: char)
    ensures
        'a' <= c <= 'z' ==> upper(c) as int - 'A' as int == c as int - 'a' as int,
        !('a' <= c <= 'z') ==> upper(c) == c,
{
}

/// The headers come in the order of their needs, and each is written for a module under the name of
/// the module, an underscore, and its own name with an underscore for the dot.
pub proof fn law_headers_keep_their_names(name: Seq<char>)
    ensures
        HEADERS_IN_ORDER@.len() == 3,
        HEADERS_IN_ORDER@[0]@ == "compatibility.cuh"@,
        HEADERS_IN_ORDER@[1]@ == "cuda_utils.cuh"@,
        HEADERS_IN_ORDER@[2]@ == "binary_op_macros.cuh"@,
        header_file_name(name, "compatibility.cuh"@) == name + "_compatibility_cuh"@,
        header_file_name(name, "cuda_utils.cuh"@) == name + "_cuda_utils_cuh"@,
        header_file_name(name, "binary_op_macros.cuh"@) == name + "_binary_op_macros_cuh"@,
{
    reveal_strlit("_");
    reveal_strlit("compatibility.cuh");
    reveal_strlit("cuda_utils.cuh");
    reveal_strlit("binary_op_macros.cuh");
    reveal_strlit("_compatibility_cuh");
    reveal_strlit("_cuda_utils_cuh");
    reveal_strlit("_binary_op_macros_cuh");
    assert(header_file_name(name, "compatibility.cuh"@) =~= name + "_compatibility_cuh"@);
    assert(header_file_name(name, "cuda_utils.cuh"@) =~= name + "_cuda_utils_cuh"@);
    assert(header_file_name(name, "binary_op_macros.cuh"@) =~= name + "_binary_op_macros_cuh"@);
}

/// The definition for a module draws in, line by line, the three headers, a newline behind each, and
/// then the source, and gives what it draws in the name of the module in capitals.
pub proof fn law_definitions_draw_in_headers_and_source(name: Seq<char>)
    ensures
        definition(name) == "pub const "@ + name.map_values(|c: char| upper(c))
            + ": &str = concat!(\n"@ + ("    include_str!(concat!(env!(\"OUT_DIR\"), \"/"@ + (name
            + "_compatibility_cuh"@) + "\")), \"\\n\",\n"@)
            + ("    include_str!(concat!(env!(\"OUT_DIR\"), \"/"@ + (name + "_cuda_utils_cuh"@)
            + "\")), \"\\n\",\n"@) + ("    include_str!(concat!(env!(\"OUT_DIR\"), \"/"@ + (name
            + "_binary_op_macros_cuh"@) + "\")), \"\\n\",\n"@)
            + ("    include_str!(concat!(env!(\"OUT_DIR\"), \"/"@ + (name + "_stripped.cu"@)
            + "\")),\n"@) + ");\n"@,
{
    law_headers_keep_their_names(name);
    reveal_strlit("\")),");
    reveal_strlit(" \"\\n\",");
    reveal_strlit("\n");
    reveal_strlit("\")), \"\\n\",\n");
    reveal_strlit("\")),\n");
    let e: Seq<Entry> = entries(name);
    assert("\")),"@ + " \"\\n\","@ + "\n"@ =~= "\")), \"\\n\",\n"@);
    assert("\")),"@ + Seq::empty() + "\n"@ =~= "\")),\n"@);
    let front: Seq<char> = "    include_str!(concat!(env!(\"OUT_DIR\"), \"/"@;
    assert(entry_line(e[0]) =~= front + (name + "_compatibility_cuh"@) + "\")), \"\\n\",\n"@);
    assert(entry_line(e[1]) =~= front + (name + "_cuda_utils_cuh"@) + "\")), \"\\n\",\n"@);
    assert(entry_line(e[2]) =~= front + (name + "_binary_op_macros_cuh"@) + "\")), \"\\n\",\n"@);
    assert(entry_line(e[3]) =~= front + (name + "_stripped.cu"@) + "\")),\n"@);
    assert(e.drop_last().drop_last().drop_last().drop_last() =~= Seq::empty());
    reveal_with_fuel(entry_lines, 5);
    assert(entry_lines(e) =~= entry_line(e[0]) + entry_line(e[1]) + entry_line(e[2]) + entry_line(
        e[3],
    ));
    assert(definition(name) =~= "pub const "@ + name.map_values(|c: char| upper(c))
        + ": &str = concat!(\n"@ + entry_line(e[0]) + entry_line(e[1]) + entry_line(e[2])
        + entry_line(e[3]) + ");\n"@);
}

/// The definitions of all the modules stand one behind the other, in the order of the alphabet.
pub proof fn law_all_modules_are_defined()
    ensures
        definitions(KERNEL_NAMES@.len() as int) == definition("affine"@) + definition("binary"@) + definition("cast"@) + definition("conv"@) + definition("fill"@) + definition("indexing"@) + definition("quantized"@) + definition("reduce"@) + definition("sort"@) + definition("ternary"@) + definition("unary"@),
{
    reveal_with_fuel(definitions, 12);
    assert(definitions(0) + definition("affine"@) =~= definition("affine"@));
}

/// The files of a module hold the stripped headers and the stripped source, each under its name.
pub proof fn law_files_hold_their_texts(
    name: Seq<char>,
    headers: Seq<Seq<char>>,
    source: Seq<char>,
)
    requires
        headers.len() == 3,
    ensures
        files(name, headers, source) == seq![
            (name + "_compatibility_cuh"@, stripped(headers[0])),
            (name + "_cuda_utils_cuh"@, stripped(headers[1])),
            (name + "_binary_op_macros_cuh"@, stripped(headers[2])),
            (name + "_stripped.cu"@, stripped(source)),
        ],
{
    law_headers_keep_their_names(name);
    assert(files(name, headers, source) =~= seq![
        (name + "_compatibility_cuh"@, stripped(headers[0])),
        (name + "_cuda_utils_cuh"@, stripped(headers[1])),
        (name + "_binary_op_macros_cuh"@, stripped(headers[2])),
        (name + "_stripped.cu"@, stripped(source)),
    ]);
}

/// An embedded source has the texts of the headers in front, each with a newline behind it.
pub proof fn law_headers_come_first(first: Seq<char>, rest: Seq<Seq<char>>, body: Seq<char>)
    ensures
        with_headers(Seq::empty(), body) == body,
        with_headers(seq![first] + rest, body) == stripped(first) + seq!['\n'] + with_headers(
            rest,
            body,
        ),
{
    assert((seq![first] + rest).drop_first() =~= rest);
    assert(stripped(first).push('\n') =~= stripped(first) + seq!['\n']);
}

} // verus!
