use llm_refine::diagnostics::{
    chat_reply_text, compiler_messages, generate_reply_text, message_reply_text, parts_reply_text, concerns, diagnostics_from_output, rendered_messages,
    select_diagnostics, MAX_DIAGNOSTICS,
};
use llm_refine::numbering::{current_number, extract_number, family_prefix, highest_number, parse_usize};
use llm_refine::prompt::{evaluation_prompt, join_diagnostics, refine_prompt};
use llm_refine::tally::{build_md_path, build_rs_path, try_build_md_path, try_build_rs_path, Stats};
use llm_refine::text::{contains, lines, trim};

fn strings(v: &[&str]) -> Vec<String> {
    v.iter().map(|s| s.to_string()).collect()
}

#[test]
fn trim_takes_unicode_white_space_off_both_ends() {
    assert_eq!(trim("  a b \t\n"), "a b");
    assert_eq!(trim("\u{3000}x\u{a0}"), "x");
    assert_eq!(trim(" \n "), "");
    assert_eq!(trim("x"), "x");
}

#[test]
fn contains_finds_substrings() {
    assert!(contains("error: in src/main.rs", "src/main.rs"));
    assert!(contains("abc", ""));
    assert!(!contains("ab", "abc"));
    assert!(!contains("warning", "err"));
}

#[test]
fn lines_split_like_std() {
    assert_eq!(lines("a\nb\r\nc"), strings(&["a", "b", "c"]));
    assert_eq!(lines("a\n"), strings(&["a"]));
    assert_eq!(lines(""), Vec::<String>::new());
    assert_eq!(lines("\n\n"), strings(&["", ""]));
    assert_eq!(lines("x\r"), strings(&["x\r"]));
}

#[test]
fn parse_usize_reads_decimal() {
    assert_eq!(parse_usize("42"), Some(42));
    assert_eq!(parse_usize("+7"), Some(7));
    assert_eq!(parse_usize(""), None);
    assert_eq!(parse_usize("+"), None);
    assert_eq!(parse_usize("-1"), None);
    assert_eq!(parse_usize("4a"), None);
    assert_eq!(parse_usize("18446744073709551615"), Some(usize::MAX));
    assert_eq!(parse_usize("18446744073709551616"), None);
}

#[test]
fn extract_number_between_prefix_and_suffix() {
    assert_eq!(extract_number("llm-groq-4.rs", "llm-groq-", ".rs"), Some(4));
    assert_eq!(extract_number("llm-groq-12.md", "llm-groq-", ".md"), Some(12));
    assert_eq!(extract_number("llm-groq-4.rs", "llm-groq-", ".md"), None);
    assert_eq!(extract_number("llm-qwen2-4.rs", "llm-groq-", ".rs"), None);
    assert_eq!(extract_number("llm-groq-.rs", "llm-groq-", ".rs"), None);
    assert_eq!(extract_number("llm-groq-x.rs", "llm-groq-", ".rs"), None);
}

#[test]
fn highest_number_of_a_family() {
    let md = strings(&["llm-groq-2.md", "llm-groq-3.md", "notes.md"]);
    let rs = strings(&["llm-groq-4.rs", "llm-qwen2-9.rs", "llm-groq-1.rs"]);
    assert_eq!(family_prefix("groq"), "llm-groq-");
    assert_eq!(highest_number(&md, "llm-groq-", ".md"), Some(3));
    assert_eq!(current_number(&md, &rs, "groq"), Some(4));
    assert_eq!(current_number(&md, &rs, "qwen2"), Some(9));
    assert_eq!(current_number(&md, &rs, "qwen"), None);
}

#[test]
fn stats_count_bytes_and_lines() {
    assert_eq!(Stats::of_text("ab\ncd"), Stats { bytes: 5, lines: 2 });
    assert_eq!(Stats::of_text("ab\n"), Stats { bytes: 3, lines: 1 });
    assert_eq!(Stats::of_text(""), Stats { bytes: 0, lines: 0 });
    assert_eq!(Stats::of_text("é\n"), Stats { bytes: 3, lines: 1 });
    let a = Stats { bytes: 3, lines: 1 };
    assert_eq!(a.plus(Stats { bytes: 4, lines: 2 }), Some(Stats { bytes: 7, lines: 3 }));
    assert_eq!(a.plus(Stats { bytes: u64::MAX, lines: 0 }), None);
    assert_eq!(Stats::zero(), Stats { bytes: 0, lines: 0 });
}

#[test]
fn counterpart_paths() {
    assert_eq!(build_rs_path("/d/md/a/b.md", "/d/md", "/d/rs"), "/d/rs/a/b.rs");
    assert_eq!(build_md_path("/d/rs/x.rs", "/d/rs", "/d/md"), "/d/md/x.md");
    assert_eq!(try_build_rs_path("/d/md/a/b.md", "/d/md", "/d/rs"), Some("/d/rs/a/b.rs".to_string()));
    assert_eq!(try_build_md_path("/d/rs/x", "/d/rs", "/d/md"), Some("/d/md/x.md".to_string()));
    assert_eq!(try_build_rs_path("/elsewhere/b.md", "/d/md", "/d/rs"), None);
}

#[test]
fn diagnostics_keep_errors_about_the_file() {
    let found = strings(&["error: bad in src/a.rs", "warning: src/a.rs", "error: src/b.rs"]);
    assert_eq!(select_diagnostics(&found, "src/a.rs"), strings(&["error: bad in src/a.rs"]));
    assert!(concerns("error[E1]: src/a.rs", "src/a.rs"));
    assert!(!concerns("warning: src/a.rs", "src/a.rs"));
    let many: Vec<String> = (0..30).map(|i| format!("error {} in f.rs", i)).collect();
    let kept = select_diagnostics(&many, "f.rs");
    assert_eq!(kept.len(), MAX_DIAGNOSTICS);
    assert_eq!(kept[0], "error 0 in f.rs");
    assert_eq!(kept[19], "error 19 in f.rs");
}

#[test]
fn diagnostics_from_json_lines() {
    let output = "{\"rendered\":\"error: oops in src/a.rs\"}\nnot json\n{\"rendered\":\"note: src/a.rs\"}\n{\"other\":1}\n{\"rendered\":\"error: src/b.rs\"}\n";
    assert_eq!(
        rendered_messages(output),
        strings(&["error: oops in src/a.rs", "note: src/a.rs", "error: src/b.rs"])
    );
    assert_eq!(diagnostics_from_output(output, "src/a.rs"), strings(&["error: oops in src/a.rs"]));
}

#[test]
fn compiler_messages_from_json_lines() {
    let output = "{\"reason\":\"compiler-message\",\"message\":{\"rendered\":\"error[E0308]: mismatched types\"}}\n{\"reason\":\"build-finished\",\"success\":false}\n{\"reason\":\"compiler-message\",\"message\":{\"rendered\":\"warning: unused\"}}";
    assert_eq!(
        compiler_messages(output),
        strings(&["error[E0308]: mismatched types", "warning: unused"])
    );
}

#[test]
fn chat_reply_text_reads_first_choice() {
    let body = "{\"choices\":[{\"message\":{\"role\":\"assistant\",\"content\":\"v2\"}}]}";
    assert_eq!(chat_reply_text(body), Some("v2".to_string()));
    assert_eq!(chat_reply_text("{\"choices\":[]}"), None);
    assert_eq!(chat_reply_text("oops"), None);
}

#[test]
fn prompts_carry_their_parts() {
    let d = strings(&["e1", "e2"]);
    assert_eq!(join_diagnostics(&d), "e1\ne2");
    let p = refine_prompt("SPEC", "ORIG", Some(&d));
    assert!(p.starts_with("Please verify that the description below"));
    assert!(p.contains("taking into account the possible presence of compiler errors"));
    assert!(p.ends_with("<result-description>\nSPEC\n</result-description>\n\n<result-specimen>\nORIG\n</result-specimen>\n\n<compiler-errors>\ne1\ne2\n</compiler-errors>"));
    let q = refine_prompt("SPEC", "ORIG", None);
    assert!(!q.contains("compiler"));
    assert!(q.ends_with("<result-specimen>\nORIG\n</result-specimen>"));
    let e = evaluation_prompt("SPEC", "ONE", "TWO", None);
    assert!(e.contains("'First result is better.'"));
    assert!(e.contains("'The second implementation is better.'"));
    assert!(e.ends_with("<first-result>\nONE\n</first-result>\n\n<second-result>\nTWO\n</second-result>"));
    let f = evaluation_prompt("SPEC", "ONE", "TWO", Some((&d, &Vec::new())));
    assert!(f.contains("which of them compiles"));
    assert!(f.ends_with("<first-compile-errors>\ne1\ne2\n</first-compile-errors>\n\n<second-compile-errors>\n\n</second-compile-errors>"));
}

#[test]
fn other_reply_shapes() {
    assert_eq!(message_reply_text("{\"content\":[{\"type\":\"text\",\"text\":\"hi\"}]}"), Some("hi".to_string()));
    assert_eq!(message_reply_text("{\"content\":[]}"), None);
    assert_eq!(generate_reply_text("{\"response\":\"ok\"}"), Some("ok".to_string()));
    assert_eq!(generate_reply_text("{\"done\":true}"), None);
    assert_eq!(generate_reply_text("<html>"), None);
}

#[test]
fn parts_reply_joins_every_text_part() {
    let body = "{\"candidates\":[{\"content\":{\"parts\":[{\"text\":\"ab\"},{\"inline\":1},{\"text\":\"cd\"}]}}]}";
    assert_eq!(parts_reply_text(body), Some("abcd".to_string()));
    assert_eq!(parts_reply_text("{\"candidates\":[{\"content\":{\"parts\":[]}}]}"), None);
    assert_eq!(parts_reply_text("{\"candidates\":[]}"), None);
    assert_eq!(parts_reply_text("nope"), None);
}

#[test]
fn compiler_messages_are_capped() {
    let line = "{\"reason\":\"compiler-message\",\"message\":{\"rendered\":\"error\"}}\n";
    let output = line.repeat(25);
    assert_eq!(compiler_messages(&output).len(), MAX_DIAGNOSTICS);
    assert_eq!(compiler_messages("{\"reason\":\"compiler-message\"}"), Vec::<String>::new());
}
