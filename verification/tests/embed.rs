use candle_moe::embed::{strip_local_includes, KERNEL_NAMES};
use candle_moe::embed_files::{
    const_definition, const_definitions, const_name, embedded_files, embedded_source, header_file,
    header_path, source_path, stripped_file,
};

#[test]
fn local_headers_are_stripped() {
    assert_eq!(strip_local_includes("#include \"a.cuh\"\nint x;\n"), "int x;");
    assert_eq!(strip_local_includes("  #include\t\"a.cuh\" // b\nint x;"), "int x;");
    assert_eq!(strip_local_includes("#include \"a.cuh\""), "");
}

#[test]
fn system_headers_and_other_lines_stay() {
    let source = "#include <stdint.h>\n#define Q \"q\"\n// #include \"a.cuh\"\nint x;";
    assert_eq!(strip_local_includes(source), source);
    assert_eq!(strip_local_includes(""), "");
    assert_eq!(strip_local_includes("\n\n"), "\n");
    assert_eq!(strip_local_includes("a\n"), "a");
}

#[test]
fn carriage_returns_end_lines_with_newlines() {
    assert_eq!(strip_local_includes("a\r\nb\r\n"), "a\nb");
    assert_eq!(strip_local_includes("a\rb\r"), "a\rb\r");
    assert_eq!(strip_local_includes("a\r\r\nb"), "a\r\nb");
    assert_eq!(strip_local_includes("#include \"a\"\r\nb"), "b");
}

#[test]
fn stripping_agrees_with_the_standard_library() {
    let sources = [
        "",
        "\n",
        "\r",
        "\r\n",
        "x\n\n#include \"y\"\n\u{3000}#include \"z\"\nw\n",
        "#includes \"y\" \n#include y\n\"#include\"\n",
        "\u{85}#include \"a\"\u{2003}\r\nend\r",
        "é\n #include \"ü\"\n\u{1F600}",
    ];
    for source in sources {
        let expected = source
            .lines()
            .filter(|line| {
                let trimmed = line.trim();
                !(trimmed.starts_with("#include") && trimmed.contains('"'))
            })
            .collect::<Vec<_>>()
            .join("\n");
        assert_eq!(strip_local_includes(source), expected);
    }
}

fn has_white_space_property(c: char) -> bool {
    let u = c as u32;
    (0x9..=0xD).contains(&u)
        || (0x2000..=0x200A).contains(&u)
        || [0x20, 0x85, 0xA0, 0x1680, 0x2028, 0x2029, 0x202F, 0x205F, 0x3000].contains(&u)
}

#[test]
fn white_space_is_trimmed_before_a_directive() {
    for c in '\0'..=char::MAX {
        if c == '\n' || c == '\r' {
            continue;
        }
        let mut line = String::new();
        line.push(c);
        line.push_str("#include \"a\"");
        assert_eq!(strip_local_includes(&line).is_empty(), has_white_space_property(c));
    }
}

#[test]
fn stripped_sources_stay_clean() {
    let once = strip_local_includes("a\n\n#include \"x\"\n");
    assert_eq!(once, "a\n");
    assert!(once.lines().all(|line| !line.trim().starts_with("#include")));
}

#[test]
fn files_are_named_after_modules() {
    assert_eq!(const_name("affine"), "AFFINE");
    assert_eq!(const_name("q8_1Z"), "Q8_1Z");
    assert_eq!(source_path("affine"), "src/affine.cu");
    assert_eq!(header_path("cuda_utils.cuh"), "src/cuda_utils.cuh");
    assert_eq!(stripped_file("affine"), "affine_stripped.cu");
    assert_eq!(header_file("affine", "cuda_utils.cuh"), "affine_cuda_utils_cuh");
}

#[test]
fn a_definition_draws_in_headers_and_source() {
    let expected = concat_lines(&[
        "pub const SORT: &str = concat!(",
        "    include_str!(concat!(env!(\"OUT_DIR\"), \"/sort_compatibility_cuh\")), \"\\n\",",
        "    include_str!(concat!(env!(\"OUT_DIR\"), \"/sort_cuda_utils_cuh\")), \"\\n\",",
        "    include_str!(concat!(env!(\"OUT_DIR\"), \"/sort_binary_op_macros_cuh\")), \"\\n\",",
        "    include_str!(concat!(env!(\"OUT_DIR\"), \"/sort_stripped.cu\")),",
        ");",
    ]);
    assert_eq!(const_definition("sort"), expected);
    let all = const_definitions();
    assert!(all.starts_with("pub const AFFINE: &str = concat!(\n"));
    assert!(all.contains(&expected));
    assert_eq!(all.lines().count(), 66);
}

fn concat_lines(lines: &[&str]) -> String {
    let mut text = String::new();
    for line in lines {
        text.push_str(line);
        text.push('\n');
    }
    text
}

#[test]
fn headers_come_before_the_source() {
    let headers = vec!["#pragma once\n".to_string(), "#include \"a.cuh\"\nint y;\n".to_string()];
    assert_eq!(
        embedded_source(&headers, "#include \"b.cuh\"\nint x;\n"),
        "#pragma once\nint y;\nint x;"
    );
    assert_eq!(embedded_source(&vec![], "int x;"), "int x;");
}

#[test]
fn embedded_sources_ask_for_no_header() {
    let headers = vec!["#include \"a.cuh\"\n".to_string(), "  #include\t\"b.cuh\"\r\nint y;".to_string()];
    let text = embedded_source(&headers, "#include <cmath>\n #include \"c.cuh\"");
    assert_eq!(text, "\nint y;\n#include <cmath>");
    assert!(text.lines().all(|line| !line.contains('"')));
}

#[test]
fn files_hold_the_stripped_texts() {
    let headers = vec![
        "#include <cuda_fp16.h>\n".to_string(),
        "#include \"compatibility.cuh\"\nint u;\n".to_string(),
        "#include \"cuda_utils.cuh\"\nint b;\n".to_string(),
    ];
    let source = "#include \"cuda_utils.cuh\"\nint s;\n";
    let files = embedded_files("sort", &headers, source);
    let expected = [
        ("sort_compatibility_cuh", "#include <cuda_fp16.h>"),
        ("sort_cuda_utils_cuh", "int u;"),
        ("sort_binary_op_macros_cuh", "int b;"),
        ("sort_stripped.cu", "int s;"),
    ];
    assert_eq!(files.len(), expected.len());
    for (file, (name, text)) in files.iter().zip(expected) {
        assert_eq!(file.0, name);
        assert_eq!(file.1, text);
    }
    let texts: Vec<String> = files.into_iter().map(|file| file.1).collect();
    assert_eq!(texts.join("\n"), embedded_source(&headers, source));
}

#[test]
fn no_two_files_share_a_name() {
    let headers = vec![String::new(), String::new(), String::new()];
    let mut names: Vec<String> = Vec::new();
    for name in KERNEL_NAMES {
        for (file, _) in embedded_files(name, &headers, "") {
            assert!(const_definition(name).contains(&file));
            names.push(file);
        }
    }
    assert_eq!(names.len(), 44);
    names.sort();
    names.dedup();
    assert_eq!(names.len(), 44);
}
