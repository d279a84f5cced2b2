use candle_moe::build_flags::{
    check_cfg_line, choose_build, moe_compiler_args, moe_link_lines, rerun_lines, target_is_msvc,
    Build, KernelCode,
};

#[test]
fn msvc_targets_are_recognized() {
    assert!(target_is_msvc(Some("x86_64-pc-windows-msvc")));
    assert!(target_is_msvc(Some("msvc")));
    assert!(!target_is_msvc(Some("x86_64-unknown-linux-gnu")));
    assert!(!target_is_msvc(Some("msv")));
    assert!(!target_is_msvc(Some("")));
    assert!(!target_is_msvc(None));
}

#[test]
fn compiler_args_depend_on_the_target() {
    assert_eq!(
        moe_compiler_args(true),
        vec!["--expt-relaxed-constexpr", "-std=c++17", "-O3", "-D_USE_MATH_DEFINES"]
    );
    assert_eq!(
        moe_compiler_args(false),
        vec!["--expt-relaxed-constexpr", "-std=c++17", "-O3", "-Xcompiler", "-fPIC"]
    );
}

#[test]
fn link_lines_depend_on_the_target() {
    assert_eq!(
        moe_link_lines("/out", false),
        vec![
            "cargo:rustc-link-search=/out",
            "cargo:rustc-link-lib=moe",
            "cargo:rustc-link-lib=dylib=cudart",
            "cargo:rustc-link-lib=stdc++",
        ]
    );
    assert_eq!(moe_link_lines("/out", true).len(), 3);
}

#[test]
fn every_file_is_watched() {
    let lines = rerun_lines();
    assert_eq!(lines.len(), 15);
    assert_eq!(lines[0], "cargo::rerun-if-changed=build.rs");
    assert_eq!(lines[1], "cargo::rerun-if-changed=src/compatibility.cuh");
    assert_eq!(lines[4], "cargo::rerun-if-changed=src/affine.cu");
    assert_eq!(lines[14], "cargo::rerun-if-changed=src/unary.cu");
}

#[test]
fn ptx_is_held_when_the_compiler_did_its_work() {
    for moe_wanted in [false, true] {
        assert_eq!(
            choose_build(true, moe_wanted),
            Build {
                notice: "candle-kernels: nvcc found, PTX pre-compiled".to_string(),
                code: KernelCode::Ptx,
                cfg_line: None,
                builds_moe: moe_wanted,
            }
        );
    }
}

#[test]
fn source_is_held_otherwise() {
    for moe_wanted in [false, true] {
        assert_eq!(
            choose_build(false, moe_wanted),
            Build {
                notice: "candle-kernels: nvcc not available, embedding .cu source for runtime compilation"
                    .to_string(),
                code: KernelCode::Source,
                cfg_line: Some("cargo:rustc-cfg=candle_kernels_runtime_compile".to_string()),
                builds_moe: false,
            }
        );
    }
    assert_eq!(
        check_cfg_line(),
        "cargo::rustc-check-cfg=cfg(candle_kernels_runtime_compile)"
    );
}
