use llm_refine::rename::{new_name, plan_renames, rename_rule, RenameError, RenameRule};

fn names_for(rule: &RenameRule, paths: &[String]) -> Vec<Option<String>> {
    paths.iter().map(|p| new_name(rule, p)).collect()
}

#[test]
fn extension_swap_keeps_the_stem() {
    let rule = rename_rule(".txt", ".md").unwrap();
    assert!(matches!(rule, RenameRule::Extension(ref e) if e == ".md"));
    assert_eq!(new_name(&rule, "/d/a.txt"), Some("a.md".to_string()));
    assert_eq!(new_name(&rule, "/d/archive.tar.gz"), Some("archive.tar.md".to_string()));
}

#[test]
fn pattern_replaces_leftmost_match() {
    let rule = rename_rule("^llm-(\\d+)", "gen-$1").unwrap();
    assert_eq!(new_name(&rule, "/d/llm-3.rs"), Some("gen-3.rs".to_string()));
    assert_eq!(new_name(&rule, "/d/other.rs"), None);
}

#[test]
fn bad_pattern_is_reported() {
    assert!(matches!(rename_rule("(", "x"), Err(RenameError::BadPattern(_))));
}

#[test]
fn plan_skips_unchanged_and_detects_clashes() {
    let rule = rename_rule("\\.txt$", ".md").unwrap();
    let paths = vec!["/d/a.txt".to_string(), "/d/b.md".to_string(), "/d/c.txt".to_string()];
    let names = names_for(&rule, &paths);
    assert_eq!(
        plan_renames(&paths, &names),
        Ok(vec![
            ("/d/a.txt".to_string(), "/d/a.md".to_string()),
            ("/d/c.txt".to_string(), "/d/c.md".to_string()),
        ])
    );
    let clash = rename_rule("^[ab]", "x").unwrap();
    let paths = vec!["/d/a1".to_string(), "/d/b1".to_string()];
    let names = names_for(&clash, &paths);
    assert_eq!(plan_renames(&paths, &names), Err(RenameError::Clash("x1".to_string())));
    let same = vec![Some("a1".to_string())];
    assert_eq!(plan_renames(&vec!["/d/a1".to_string()], &same), Ok(Vec::new()));
}
