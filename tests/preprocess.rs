use llm_refine::splice::{preprocess, resolve_reference, SourceFiles, TOO_DEEP};

fn table(files: &[(&str, &str)]) -> SourceFiles {
    let mut t = SourceFiles::new();
    for (name, content) in files {
        t.insert(name.to_string(), content.to_string());
    }
    t
}

#[test]
fn test_no_includes() {
    let files = table(&[("/tmp/pp/main.txt", "hello world\n")]);
    let result = preprocess(&files, "/tmp/pp/main.txt").unwrap();
    assert_eq!(result, "hello world\n");
}

#[test]
fn test_single_include() {
    let files = table(&[
        ("/tmp/pp/included.txt", "included content\n"),
        ("/tmp/pp/main.txt", "before\n{!/tmp/pp/included.txt!}"),
    ]);
    let result = preprocess(&files, "/tmp/pp/main.txt").unwrap();
    assert_eq!(result, "before\nincluded content\n");
}

#[test]
fn test_nested_includes() {
    let files = table(&[
        ("/tmp/pp/inner.txt", "inner\n"),
        ("/tmp/pp/middle.txt", "middle before\n{!/tmp/pp/inner.txt!}middle after\n"),
        ("/tmp/pp/root.txt", "root start\n{!/tmp/pp/middle.txt!}root end\n"),
    ]);
    let result = preprocess(&files, "/tmp/pp/root.txt").unwrap();
    assert_eq!(
        result,
        "root start\nmiddle before\ninner\nmiddle after\nroot end\n"
    );
}

#[test]
fn test_multiple_includes() {
    let files = table(&[
        ("/tmp/pp/first.txt", "first\n"),
        ("/tmp/pp/second.txt", "second\n"),
        ("/tmp/pp/main.txt", "start\n{!/tmp/pp/first.txt!}middle\n{!/tmp/pp/second.txt!}"),
    ]);
    let result = preprocess(&files, "/tmp/pp/main.txt").unwrap();
    assert_eq!(result, "start\nfirst\nmiddle\nsecond\n");
}

#[test]
fn test_no_newline_at_end() {
    let files = table(&[("/tmp/pp/main.txt", "no newline")]);
    let result = preprocess(&files, "/tmp/pp/main.txt").unwrap();
    assert_eq!(result, "no newline\n");
}

#[test]
fn test_include_without_newline() {
    let files = table(&[
        ("/tmp/pp/included.txt", "content"),
        ("/tmp/pp/main.txt", "{!/tmp/pp/included.txt!}"),
    ]);
    let result = preprocess(&files, "/tmp/pp/main.txt").unwrap();
    assert_eq!(result, "content\n");
}

#[test]
fn test_relative_path() {
    let files = table(&[
        ("/tmp/pp/dir/included.txt", "included\n"),
        ("/tmp/pp/dir/main.txt", "{!included.txt!}"),
    ]);
    let result = preprocess(&files, "/tmp/pp/dir/main.txt").unwrap();
    assert_eq!(result, "included\n");
}

#[test]
fn test_malformed_include() {
    let files = table(&[("/tmp/pp/main.txt", "start {! missing_end\n")]);
    let result = preprocess(&files, "/tmp/pp/main.txt").unwrap();
    assert_eq!(result, "start {! missing_end\n");
}

#[test]
fn test_max_depth() {
    let mut files = SourceFiles::new();
    for i in 0..33 {
        let path = format!("/tmp/pp/deep/file_{}.txt", i);
        let next_path = format!("/tmp/pp/deep/file_{}.txt", i + 1);
        files.insert(path, format!("{{!{}!}}", next_path));
    }
    let result = preprocess(&files, "/tmp/pp/deep/file_0.txt").unwrap();
    assert!(result.contains("TOO MUCH NESTED INCLUDES"));
    assert_eq!(result, format!("{}\n", TOO_DEEP));
}

#[test]
fn test_circular_include() {
    let files = table(&[
        ("/tmp/pp/loop/a.txt", "{!b.txt!}"),
        ("/tmp/pp/loop/b.txt", "{!a.txt!}"),
    ]);
    let result = preprocess(&files, "/tmp/pp/loop/a.txt").unwrap();
    assert!(result.len() > 0);
}

#[test]
fn missing_file_is_reported() {
    let files = table(&[("/tmp/pp/main.txt", "a\n{!gone.txt!}b\n")]);
    assert_eq!(preprocess(&files, "/tmp/pp/main.txt"), Err("/tmp/pp/gone.txt".to_string()));
    assert_eq!(preprocess(&files, "/tmp/pp/other.txt"), Err("/tmp/pp/other.txt".to_string()));
}

#[test]
fn first_content_of_a_path_wins() {
    let mut files = SourceFiles::new();
    files.insert("/tmp/pp/x.txt".to_string(), "one".to_string());
    files.insert("/tmp/pp/x.txt".to_string(), "two".to_string());
    assert_eq!(files.get("/tmp/pp/x.txt"), Some(&"one".to_string()));
    assert_eq!(files.get("/tmp/pp/y.txt"), None);
}

#[test]
fn unterminated_marker_then_reference() {
    let files = table(&[
        ("/tmp/pp/in.txt", "IN"),
        ("/tmp/pp/main.txt", "a {! b {!in.txt!} c"),
    ]);
    // The first `{!` pairs with the only `!}`, so the whole " b {!in.txt" is taken as a path.
    assert_eq!(
        preprocess(&files, "/tmp/pp/main.txt"),
        Err("/tmp/pp/ b {!in.txt".to_string())
    );
}

#[test]
fn references_resolve_beside_the_naming_file() {
    assert_eq!(resolve_reference("/a/b/main.txt", "c.txt"), "/a/b/c.txt");
    assert_eq!(resolve_reference("/a/b/main.txt", "/abs/c.txt"), "/abs/c.txt");
    assert_eq!(resolve_reference("main.txt", "c.txt"), "c.txt");
    assert_eq!(resolve_reference("/", "c.txt"), "./c.txt");
}
