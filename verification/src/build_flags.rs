//! What the build asks of the compilers and of the linker.
use crate::embed::{HEADERS_IN_ORDER, KERNEL_NAMES};
use crate::embed_files::{header_path, source_path};
use crate::text::chars_of;
use vstd::prelude::*;
use vstd::string::*;

verus! {

/// Texts, each as the sequence of its characters.
pub open spec fn texts(strings: Seq<String>) -> Seq<Seq<char>> {
    strings.map_values(|s: String| s@)
}

/// Whether `part` occurs in `whole`.
pub open spec fn occurs_in(part: Seq<char>, whole: Seq<char>) -> bool {
    exists|i: int|
        0 <= i <= whole.len() - part.len() && #[trigger] whole.subrange(i, i + part.len()) == part
}

/// Whether the target, if it is known, is one of the MSVC targets.
pub open spec fn is_msvc(target: Option<Seq<char>>) -> bool {
    match target {
        Some(target) => occurs_in("msvc"@, target),
        None => false,
    }
}

/// Whether the target, if it is known, is one of the MSVC targets.
pub fn target_is_msvc(target: Option<&str>) -> (r: bool)
    ensures
        r == is_msvc(
            match target {
                Some(target) => Some(target@),
                None => None,
            },
        ),
{
    let whole: Vec<char> = match target {
        Some(target) => chars_of(target),
        None => {
            return false;
        },
    };
    let part: Vec<char> = chars_of("msvc");
    proof {
        reveal_strlit("msvc");
    }
    let mut i: usize = 0;
    while part.len() <= whole.len() - i
        invariant
            target matches Some(target) && target@ == whole@,
            i <= whole@.len(),
            part@ == "msvc"@,
            part@.len() == 4,
            forall|k: int|
                0 <= k < i ==> #[trigger] whole@.subrange(k, k + part@.len()) != part@,
        decreases whole@.len() - i,
    {
        if matches_at(&whole, &part, i) {
            return true;
        }
        i += 1;
    }
    false
}

/// Whether `part` stands in `whole` at `from`.
fn matches_at(whole: &Vec<char>, part: &Vec<char>, from: usize) -> (r: bool)
    requires
        from + part@.len() <= whole@.len(),
    ensures
        r == (whole@.subrange(from as int, from + part@.len()) == part@),
{
    let ghost window: Seq<char> = whole@.subrange(from as int, from + part@.len());
    for i in 0..part.len()
        invariant
            from + part@.len() <= whole@.len(),
            window == whole@.subrange(from as int, from + part@.len()),
            forall|k: int| 0 <= k < i ==> window[k] == part@[k],
    {
        assert(from + i < whole.len());
        if whole[from + i] != part[i] {
            assert(window[i as int] != part@[i as int]);
            return false;
        }
    }
    assert(window =~= part@);
    true
}

/// The arguments of the compiler of the mixture-of-experts kernels.
pub open spec fn compiler_args(msvc: bool) -> Seq<Seq<char>> {
    seq!["--expt-relaxed-constexpr"@, "-std=c++17"@, "-O3"@] + if msvc {
        seq!["-D_USE_MATH_DEFINES"@]
    } else {
        seq!["-Xcompiler"@, "-fPIC"@]
    }
}

/// The arguments of the compiler of the mixture-of-experts kernels.
pub fn moe_compiler_args(msvc: bool) -> (r: Vec<String>)
    ensures
        texts(r@) == compiler_args(msvc),
{
    let mut args: Vec<String> = Vec::new();
    args.push("--expt-relaxed-constexpr".to_owned());
    args.push("-std=c++17".to_owned());
    args.push("-O3".to_owned());
    if msvc {
        args.push("-D_USE_MATH_DEFINES".to_owned());
    } else {
        args.push("-Xcompiler".to_owned());
        args.push("-fPIC".to_owned());
    }
    assert(texts(args@) =~= compiler_args(msvc));
    args
}

/// The lines that tell cargo how to link the mixture-of-experts kernels.
pub open spec fn link_lines(out_dir: Seq<char>, msvc: bool) -> Seq<Seq<char>> {
    seq![
        "cargo:rustc-link-search="@ + out_dir,
        "cargo:rustc-link-lib=moe"@,
        "cargo:rustc-link-lib=dylib=cudart"@,
    ] + if msvc {
        Seq::empty()
    } else {
        seq!["cargo:rustc-link-lib=stdc++"@]
    }
}

/// The lines that tell cargo how to link the mixture-of-experts kernels, which are in `out_dir`.
pub fn moe_link_lines(out_dir: &str, msvc: bool) -> (r: Vec<String>)
    ensures
        texts(r@) == link_lines(out_dir@, msvc),
{
    let mut lines: Vec<String> = Vec::new();
    let mut search: String = "cargo:rustc-link-search=".to_owned();
    search.append(out_dir);
    lines.push(search);
    lines.push("cargo:rustc-link-lib=moe".to_owned());
    lines.push("cargo:rustc-link-lib=dylib=cudart".to_owned());
    if !msvc {
        lines.push("cargo:rustc-link-lib=stdc++".to_owned());
    }
    assert(texts(lines@) =~= link_lines(out_dir@, msvc));
    lines
}

/// The line that has cargo build anew when the file at `path` changes.
pub open spec fn rerun_line(path: Seq<char>) -> Seq<char> {
    "cargo::rerun-if-changed="@ + path
}

/// The lines that have cargo build anew when the build script, a header or a source changes.
pub open spec fn all_rerun_lines() -> Seq<Seq<char>> {
    seq![rerun_line("build.rs"@)] + Seq::new(
        HEADERS_IN_ORDER@.len(),
        |i: int| rerun_line("src/"@ + HEADERS_IN_ORDER@[i]@),
    ) + Seq::new(
        KERNEL_NAMES@.len(),
        |i: int| rerun_line("src/"@ + KERNEL_NAMES@[i]@ + ".cu"@),
    )
}

fn rerun_if_changed(path: &str) -> (r: String)
    ensures
        r@ == rerun_line(path@),
{
    let mut line: String = "cargo::rerun-if-changed=".to_owned();
    line.append(path);
    line
}

/// The lines that have cargo build anew when the build script, a header or a source changes.
pub fn rerun_lines() -> (r: Vec<String>)
    ensures
        texts(r@) == all_rerun_lines(),
{
    let headers: [&'static str; 3] = HEADERS_IN_ORDER;
    let names: [&'static str; 11] = KERNEL_NAMES;
    let mut lines: Vec<String> = Vec::new();
    lines.push(rerun_if_changed("build.rs"));
    for i in 0..headers.len()
        invariant
            headers@ == HEADERS_IN_ORDER@,
            lines@.len() == 1 + i,
            forall|k: int| 0 <= k < 1 + i ==> (#[trigger] lines@[k])@ == all_rerun_lines()[k],
    {
        lines.push(rerun_if_changed(header_path(headers[i]).as_str()));
    }
    for i in 0..names.len()
        invariant
            headers@ == HEADERS_IN_ORDER@,
            names@ == KERNEL_NAMES@,
            lines@.len() == 4 + i,
            forall|k: int| 0 <= k < 4 + i ==> (#[trigger] lines@[k])@ == all_rerun_lines()[k],
    {
        lines.push(rerun_if_changed(source_path(names[i]).as_str()));
    }
    assert(texts(lines@) =~= all_rerun_lines());
    lines
}

/// The condition under which a build holds the CUDA source of its kernels.
pub open spec fn runtime_compile_cfg() -> Seq<char> {
    "candle_kernels_runtime_compile"@
}

/// The line that tells cargo that there is such a condition.
pub fn check_cfg_line() -> (r: String)
    ensures
        r@ == "cargo::rustc-check-cfg=cfg("@ + runtime_compile_cfg() + ")"@,
{
    let mut line: String = "cargo::rustc-check-cfg=cfg(".to_owned();
    line.append("candle_kernels_runtime_compile");
    line.append(")");
    line
}

/// What a build holds of its kernels.
#[derive(Debug, Clone, Copy, PartialEq, Eq, Structural)]
pub enum KernelCode {
    /// PTX, which is ready to load.
    Ptx,
    /// CUDA source, which has to be compiled at run time.
    Source,
}

/// What a build does once it is known whether the compiler of the kernels did its work.
#[derive(Debug, PartialEq, Eq)]
pub struct Build {
    /// What is told the user.
    pub notice: String,
    /// What the build holds of its kernels. The source has yet to be embedded.
    pub code: KernelCode,
    /// The line that tells cargo so, if there is one to print.
    pub cfg_line: Option<String>,
    /// Whether the library of the mixture-of-experts kernels is built too.
    pub builds_moe: bool,
}

impl Build {
    /// Whether the build meets the condition [`runtime_compile_cfg`].
    pub open spec fn spec_runtime_compile(self) -> bool {
        self.cfg_line matches Some(line) && line@ == "cargo:rustc-cfg="@ + runtime_compile_cfg()
    }
}

/// What is done when the compiler of the kernels did its work (`nvcc_built`), or did not or is not
/// there. The library of the mixture-of-experts kernels needs that compiler, so it is built only
/// with it, and only when it is wanted.
pub fn choose_build(nvcc_built: bool, moe_wanted: bool) -> (r: Build)
    ensures
        r.code == if nvcc_built {
            KernelCode::Ptx
        } else {
            KernelCode::Source
        },
        r.notice@ == if nvcc_built {
            "candle-kernels: nvcc found, PTX pre-compiled"@
        } else {
            "candle-kernels: nvcc not available, embedding .cu source for runtime compilation"@
        },
        nvcc_built ==> r.cfg_line is None,
        r.spec_runtime_compile() <==> r.code == KernelCode::Source,
        r.builds_moe == (nvcc_built && moe_wanted),
{
    if nvcc_built {
        Build {
            notice: "candle-kernels: nvcc found, PTX pre-compiled".to_owned(),
            code: KernelCode::Ptx,
            cfg_line: None,
            builds_moe: moe_wanted,
        }
    } else {
        let mut line: String = "cargo:rustc-cfg=".to_owned();
        line.append("candle_kernels_runtime_compile");
        Build {
            notice:
                "candle-kernels: nvcc not available, embedding .cu source for runtime compilation".to_owned(),
            code: KernelCode::Source,
            cfg_line: Some(line),
            builds_moe: false,
        }
    }
}

/// A target is one of the MSVC targets when the four letters stand in its name, whatever stands
/// before and behind them.
pub proof fn law_msvc_targets(before: Seq<char>, after: Seq<char>)
    ensures
        is_msvc(Some(before + seq!['m', 's', 'v', 'c'] + after)),
{
    reveal_strlit("msvc");
    let part: Seq<char> = seq!['m', 's', 'v', 'c'];
    let whole: Seq<char> = before + part + after;
    let i: int = before.len() as int;
    assert(part =~= "msvc"@);
    assert(whole.subrange(i, i + part.len()) =~= "msvc"@);
}

/// No other target is one of them: where one is, the place of the four letters is handed back. A
/// target that is not known is none.
pub proof fn law_no_other_targets(target: Seq<char>) -> (i: int)
    ensures
        !is_msvc(None),
        is_msvc(Some(target)) ==> {
            &&& 0 <= i <= target.len() - 4
            &&& target[i] == 'm'
            &&& target[i + 1] == 's'
            &&& target[i + 2] == 'v'
            &&& target[i + 3] == 'c'
        },
{
    reveal_strlit("msvc");
    let part: Seq<char> = "msvc"@;
    if is_msvc(Some(target)) {
        let i: int = choose|i: int|
            0 <= i <= target.len() - part.len() && #[trigger] target.subrange(i, i + part.len())
                == part;
        let window: Seq<char> = target.subrange(i, i + part.len());
        assert(window[0] == part[0] && window[1] == part[1] && window[2] == part[2] && window[3]
            == part[3]);
        i
    } else {
        0
    }
}

/// The compiler is told the same three things for every target, and then what only MSVC needs, or
/// what only the others do.
pub proof fn law_compiler_args(msvc: bool)
    ensures
        compiler_args(msvc).take(3) == seq![
            "--expt-relaxed-constexpr"@,
            "-std=c++17"@,
            "-O3"@,
        ],
        compiler_args(true).skip(3) == seq!["-D_USE_MATH_DEFINES"@],
        compiler_args(false).skip(3) == seq!["-Xcompiler"@, "-fPIC"@],
{
    assert(compiler_args(msvc).take(3) =~= seq![
        "--expt-relaxed-constexpr"@,
        "-std=c++17"@,
        "-O3"@,
    ]);
    assert(compiler_args(true).skip(3) =~= seq!["-D_USE_MATH_DEFINES"@]);
    assert(compiler_args(false).skip(3) =~= seq!["-Xcompiler"@, "-fPIC"@]);
}

/// Every target links the kernels and the CUDA runtime, and finds the kernels in `out_dir`; only
/// the targets other than MSVC link the C++ library too.
pub proof fn law_link_lines(out_dir: Seq<char>, msvc: bool)
    ensures
        link_lines(out_dir, msvc).take(3) == seq![
            "cargo:rustc-link-search="@ + out_dir,
            "cargo:rustc-link-lib=moe"@,
            "cargo:rustc-link-lib=dylib=cudart"@,
        ],
        link_lines(out_dir, true).len() == 3,
        link_lines(out_dir, false).skip(3) == seq!["cargo:rustc-link-lib=stdc++"@],
{
    assert(link_lines(out_dir, msvc).take(3) =~= seq![
        "cargo:rustc-link-search="@ + out_dir,
        "cargo:rustc-link-lib=moe"@,
        "cargo:rustc-link-lib=dylib=cudart"@,
    ]);
    assert(link_lines(out_dir, false).skip(3) =~= seq!["cargo:rustc-link-lib=stdc++"@]);
}

/// The build script, each header and each source is watched, and nothing else is.
pub proof fn law_files_are_watched(i: int)
    requires
        0 <= i < 15,
    ensures
        all_rerun_lines().len() == 15,
        all_rerun_lines()[0] == "cargo::rerun-if-changed="@ + "build.rs"@,
        1 <= i < 4 ==> all_rerun_lines()[i] == "cargo::rerun-if-changed="@ + ("src/"@
            + HEADERS_IN_ORDER@[i - 1]@),
        4 <= i ==> all_rerun_lines()[i] == "cargo::rerun-if-changed="@ + ("src/"@
            + KERNEL_NAMES@[i - 4]@ + ".cu"@),
        runtime_compile_cfg() == "candle_kernels_runtime_compile"@,
{
}

} // verus!
