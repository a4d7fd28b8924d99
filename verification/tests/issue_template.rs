use intrack::feat::issue::Issue;

#[test]
fn extract_issue_parts_valid_single_line() {
    let input = "---\ntitle: Fix bug\n---\nThis is the comment.";
    let (yaml, comment) = Issue::extract_issue_parts(input).unwrap();
    assert_eq!(yaml, "title: Fix bug");
    assert_eq!(comment, "This is the comment.");
}

#[test]
fn extract_issue_parts_valid_empty_yaml() {
    let input = "---\n\n---\nThis is the comment.";
    let (yaml, comment) = Issue::extract_issue_parts(input).unwrap();
    assert_eq!(yaml, "");
    assert_eq!(comment, "This is the comment.");
}

#[test]
fn extract_issue_parts_valid_empty_comment() {
    let input = "---\ntitle: Test\n---\n";
    let (yaml, comment) = Issue::extract_issue_parts(input).unwrap();
    assert_eq!(yaml, "title: Test");
    assert_eq!(comment, "");
}

#[test]
fn extract_issue_parts_valid_multiline_yaml() {
    let input = "---\ntitle: Multi line\ndescription: Some desc\n\npriority: High\n---\nComment.";
    let (yaml, comment) = Issue::extract_issue_parts(input).unwrap();
    assert_eq!(
        yaml,
        "title: Multi line\ndescription: Some desc\n\npriority: High"
    );
    assert_eq!(comment, "Comment.");
}

#[test]
fn extract_issue_parts_valid_multiline_comment() {
    let input = "---\ntitle: Test\n---\nLine 1 of comment.\nLine 2.";
    let (yaml, comment) = Issue::extract_issue_parts(input).unwrap();
    assert_eq!(yaml, "title: Test");
    assert_eq!(comment, "Line 1 of comment.\nLine 2.");
}

#[test]
fn extract_issue_parts_invalid_no_match() {
    let inputs = [
        "",
        "no---",
        "---\ntitle\n-- -\ncomment", // wrong delimiter
    ];
    for input in inputs {
        assert!(
            Issue::extract_issue_parts(input).is_err(),
            "Expected error for input: {input:?}"
        );
    }
}

#[test]
fn extract_issue_parts_invalid_missing_second_delim() {
    let input = "---\ntitle: Test";
    assert!(Issue::extract_issue_parts(input).is_err());
}

#[test]
fn extract_issue_parts_invalid_no_newline_after_first_delim() {
    let input = r#"---title: Test\n---\ncomment"#;
    assert!(Issue::extract_issue_parts(input).is_err());
}

#[test]
fn extract_issue_parts_allows_comment_to_start_on_same_line() {
    let input = "---\ntitle: Test\n---comment";
    let (yaml, comment) = Issue::extract_issue_parts(input).unwrap();
    assert_eq!(yaml, "title: Test");
    assert_eq!(comment, "comment");
}

#[test]
fn extract_issue_parts_multiple_delims_takes_last() {
    let input = "---\nold yaml\n---\ninter\n---\nfinal yaml? No, comment";
    let (yaml, comment) = Issue::extract_issue_parts(input).unwrap();
    // Takes last \n---\n , yaml up to "inter"
    assert_eq!(yaml, "old yaml\n---\ninter");
    assert_eq!(comment, "final yaml? No, comment");
}

fn by_pattern(input: &str) -> Option<(String, String)> {
    let pattern = regex::Regex::new(r#"(?s)^---\n+(?P<yaml>.*)\n+---(?P<comment>.*)$"#).unwrap();
    let caps = pattern.captures(input.trim())?;
    let yaml = caps.name("yaml")?.as_str().trim().to_string();
    let comment = caps.name("comment")?.as_str().trim().to_string();
    Some((yaml, comment))
}

#[test]
fn extract_issue_parts_agrees_with_the_pattern() {
    let inputs = [
        "",
        "---",
        "---\n",
        "---\n---",
        "---\n\n---",
        "---\n\n\n---",
        "---\n\n\n\n---\n\n",
        "  ---\na: 1\n---\n  body  \n",
        "---\r\na\r\n---\r\nb",
        "---\n---\n---",
        "---\n---\n---\n---x",
        "---\na\n----",
        "---\na\n--\n---b\n",
        "x---\na\n---\nb",
        "---\n\n a \n\n\n---\n\n b \n\n",
        "---\na\n---\nb\n---",
        "---\na\n---\nb\n--",
        "\u{a0}---\na\n---b\u{2003}",
        "---\n\u{e9}\u{4e2d}\n---\u{1f600}",
        Issue::new_template(),
    ];
    for input in inputs {
        assert_eq!(
            Issue::extract_issue_parts(input).ok(),
            by_pattern(input),
            "input: {input:?}"
        );
    }
}
