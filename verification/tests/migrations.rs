use passkey_auth::migrations::split_statements;

#[test]
fn statements_are_split_trimmed_and_blank_ones_dropped() {
    let sql = "CREATE TABLE a (x INT);\n\n  CREATE INDEX i ON a (x) ;\n  ;\n";
    assert_eq!(split_statements(sql), vec!["CREATE TABLE a (x INT)", "CREATE INDEX i ON a (x)"]);
}

#[test]
fn script_without_separator_is_one_statement() {
    assert_eq!(split_statements("  SELECT 1 "), vec!["SELECT 1"]);
}

#[test]
fn empty_script_has_no_statements() {
    assert!(split_statements("").is_empty());
    assert!(split_statements(";;\n;").is_empty());
}
