use prowl::tools::guard::scan;
use prowl::tools::is_read_only;

#[test]
fn select_is_read_only() {
    assert!(is_read_only("SELECT 1"));
}

#[test]
fn drop_is_refused() {
    assert!(!is_read_only("DROP TABLE x"));
}

#[test]
fn quoted_keyword_is_refused() {
    assert!(!is_read_only("SELECT 'DELETE'"));
}

#[test]
fn every_blocked_word_is_refused() {
    for word in [
        "INSERT", "UPDATE", "DELETE", "DROP", "ALTER", "CREATE", "TRUNCATE", "EXEC", "EXECUTE",
    ] {
        assert!(!is_read_only(word), "{}", word);
        assert!(!is_read_only(&format!("SELECT 1; {} x", word)), "{}", word);
    }
}

#[test]
fn lower_case_keyword_is_refused() {
    assert!(!is_read_only("drop table x"));
    assert!(!is_read_only("Insert into t values (1)"));
}

#[test]
fn keyword_behind_a_tab_or_line_feed_is_refused() {
    assert!(!is_read_only("DROP\tTABLE"));
    assert!(!is_read_only("SELECT 1\nDELETE FROM t"));
    assert!(!is_read_only("SELECT 1\u{3000}DROP"));
}

#[test]
fn punctuation_at_the_edges_is_stripped() {
    assert!(!is_read_only("SELECT 1; DROP; TABLE"));
    assert!(!is_read_only("(DELETE)"));
    assert!(!is_read_only(";;exec;;"));
    assert!(!is_read_only("\u{ab}DROP\u{bb}"));
}

#[test]
fn keyword_glued_to_another_word_passes() {
    assert!(is_read_only("DROPTABLE"));
    assert!(is_read_only("SELECT updated_at FROM t"));
    assert!(is_read_only("SELECT created FROM t"));
    assert!(is_read_only("EXECUTE1"));
}

#[test]
fn punctuation_inside_a_token_is_kept() {
    // One token: only its edges are stripped, so the word inside is not seen.
    assert!(is_read_only("DROP;TABLE"));
    assert!(is_read_only("x.DELETE.y"));
}

#[test]
fn letters_of_other_scripts_are_not_stripped() {
    assert!(is_read_only("\u{c9}DROP"));
    assert!(is_read_only("DROP\u{662}"));
}

#[test]
fn empty_and_blank_statements_pass() {
    assert!(is_read_only(""));
    assert!(is_read_only("   \n\t "));
    assert!(is_read_only("();,"));
}

#[test]
fn scan_takes_the_text_as_it_stands() {
    assert!(scan("drop table x"));
    assert!(!scan("DROP table x"));
}
