use vimplugins::config::Repository;
use vimplugins::error::SourceParseError;
use vimplugins::manifest::parse_manifest;

#[test]
fn simple_lines_parse() {
    let entries = parse_manifest("owner/repo\nfoo/bar:baz\n").expect("both lines are valid");
    assert_eq!(entries.len(), 2);
    assert_eq!(entries[0].owner, "owner");
    assert_eq!(entries[0].repo, "repo");
    assert_eq!(entries[0].name, None);
    assert_eq!(entries[1].owner, "foo");
    assert_eq!(entries[1].repo, "bar");
    assert_eq!(entries[1].name, Some("baz".to_string()));
}

#[test]
fn comments_and_blank_lines_are_skipped() {
    let entries =
        parse_manifest("# heading\n\n   \nowner/repo\n").expect("comments and blanks skip");
    assert_eq!(entries.len(), 1);
    assert_eq!(entries[0].owner, "owner");
}

#[test]
fn fields_are_trimmed() {
    let entries = parse_manifest("  a / b : c \n").expect("padding trims away");
    assert_eq!(entries[0].owner, "a");
    assert_eq!(entries[0].repo, "b");
    assert_eq!(entries[0].name, Some("c".to_string()));
}

#[test]
fn crlf_endings_are_handled() {
    let entries = parse_manifest("a/b\r\nc/d\r\n").expect("CRLF line endings parse");
    assert_eq!(entries.len(), 2);
    assert_eq!(entries[0].repo, "b");
    assert_eq!(entries[1].owner, "c");
}

#[test]
fn final_line_without_newline_counts() {
    let entries = parse_manifest("a/b").expect("an unterminated final line parses");
    assert_eq!(entries.len(), 1);
}

#[test]
fn empty_source_yields_no_entries() {
    let entries = parse_manifest("").expect("an empty source is fine");
    assert_eq!(entries.len(), 0);
}

#[test]
fn malformed_line_reports_its_number() {
    assert!(matches!(parse_manifest("no slash here\n"), Err(SourceParseError { line: 1 })));
    assert!(matches!(parse_manifest("ok/fine\nnope\n"), Err(SourceParseError { line: 2 })));
}

#[test]
fn indented_comment_is_not_a_comment() {
    // only a line opening with `#` is a comment; an indented one is judged
    // as an entry and has no `/`
    assert!(matches!(parse_manifest(" # note\n"), Err(SourceParseError { line: 1 })));
}

#[test]
fn empty_owner_is_malformed() {
    assert!(matches!(parse_manifest("/repo\n"), Err(SourceParseError { line: 1 })));
}

#[test]
fn empty_repo_is_malformed() {
    assert!(matches!(parse_manifest("owner/ :name\n"), Err(SourceParseError { line: 1 })));
}

#[test]
fn repository_parse_splits_owner_and_name() {
    let r = Repository::parse("owner/name").expect("a plain identifier parses");
    assert_eq!(r.owner, "owner");
    assert_eq!(r.name, "name");
}

#[test]
fn repository_parse_keeps_later_slashes() {
    let r = Repository::parse("a/b/c").expect("only the first slash splits");
    assert_eq!(r.owner, "a");
    assert_eq!(r.name, "b/c");
}

#[test]
fn repository_parse_rejects_bad_shapes() {
    assert!(Repository::parse("plain").is_none());
    assert!(Repository::parse("a/").is_none());
    assert!(Repository::parse("/b").is_none());
    assert!(Repository::parse("").is_none());
}
