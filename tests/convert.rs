use tango::{md2rs, rs2md, Warning};

const MAIN_URL: &str = "https://play.rust-lang.org/?code=fn%20main()%20%7B%7D&version=nightly";

#[test]
fn rs2md_wraps_code_in_fences_with_link() {
    let md = rs2md("//@ Hello\nfn main() {}\n");
    let expect = format!("Hello\n```rust\nfn main() {{}}\n```\n[playground]({})\n", MAIN_URL);
    assert_eq!(md, expect);
}

#[test]
fn rs2md_keeps_blank_lines_and_closes_fence_before_prose() {
    let md = rs2md("\nfn f() {}\n\n//@\n//@ done\n");
    let url = "https://play.rust-lang.org/?code=fn%20f()%20%7B%7D&version=nightly";
    let expect = format!("\n```rust\nfn f() {{}}\n\n```\n[playground]({})\n\ndone\n", url);
    assert_eq!(md, expect);
}

#[test]
fn rs2md_adds_final_newline() {
    assert_eq!(rs2md("//@ a"), "a\n");
    assert_eq!(rs2md(""), "");
}

#[test]
fn playground_link_encodes_trimmed_code() {
    let md = rs2md("    let x = 1;\n");
    let expect = "```rust\n    let x = 1;\n```\n[playground](https://play.rust-lang.org/?code=let%20x%20%3D%201%3B&version=nightly)\n";
    assert_eq!(md, expect);
}

#[test]
fn md2rs_reads_prose_and_code() {
    let md = format!("Hello\n\n```rust\nfn main() {{}}\n```\n[playground]({})\nBye\n", MAIN_URL);
    let (rs, warnings) = md2rs(&md);
    assert_eq!(rs, "//@ Hello\n//@\nfn main() {}\n//@ Bye\n");
    assert!(warnings.is_empty());
}

#[test]
fn md2rs_without_link_reads_next_line_as_prose() {
    let (rs, warnings) = md2rs("```rust\nlet a = 1;\n```\nText\n");
    assert_eq!(rs, "let a = 1;\n//@ Text\n");
    assert!(warnings.is_empty());
}

#[test]
fn md2rs_warns_on_url_mismatch() {
    let wrong = "https://play.rust-lang.org/?code=wrong&version=nightly";
    let md = format!("```rust\nfn main() {{}}\n```\n[playground]({})\n", wrong);
    let (rs, warnings) = md2rs(&md);
    assert_eq!(rs, "fn main() {}\n");
    assert_eq!(warnings.len(), 1);
    match &warnings[0] {
        Warning::EncodedUrlMismatch { actual, expect } => {
            assert_eq!(actual, wrong);
            assert_eq!(expect, MAIN_URL);
        }
    }
}

#[test]
fn source_round_trip_gives_program_back() {
    let program = "//@ # Title\n//@\n//@ Some prose.\nfn main() {\n\n    println!(\"hi\");\n}\n//@ More prose.\nstruct S;\n";
    let (back, warnings) = md2rs(&rs2md(program));
    assert_eq!(back, program);
    assert!(warnings.is_empty());
}

#[test]
fn source_round_trip_normalizes_blank_prose() {
    let program = "\n//@ \nfn a() {}\n";
    let (back, warnings) = md2rs(&rs2md(program));
    assert_eq!(back, "//@\n//@\nfn a() {}\n");
    assert!(warnings.is_empty());
}

#[test]
fn literate_round_trip_keeps_content() {
    let md = "Intro\n```rust\nfn a() {}\n```\nMiddle\n```rust\nfn b() {}\n```\n";
    let (rs, _) = md2rs(md);
    let (again, warnings) = md2rs(&rs2md(&rs));
    assert_eq!(again, rs);
    assert!(warnings.is_empty());
    assert_eq!(rs, "//@ Intro\nfn a() {}\n//@ Middle\nfn b() {}\n");
}

#[test]
fn md2rs_blank_lines_before_link_are_blank_prose() {
    let md = format!("```rust\nfn main() {{}}\n```\n\n[playground]({})\nEnd\n", MAIN_URL);
    let (rs, warnings) = md2rs(&md);
    assert_eq!(rs, "fn main() {}\n//@\n//@ End\n");
    assert!(warnings.is_empty());
}

#[test]
fn md2rs_unclosed_block_keeps_code() {
    let (rs, warnings) = md2rs("```rust\nlet a = 1;\n");
    assert_eq!(rs, "let a = 1;\n");
    assert!(warnings.is_empty());
}
