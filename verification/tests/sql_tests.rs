use tricoredb::sql::build_transaction_script;
use tricoredb::{ErrorKind, Param, Rows, Statement};

#[test]
fn a_script_keeps_its_placeholders_and_flattens_its_parameters() {
    let (script, params) = build_transaction_script(&[
        Statement::with_params(
            "INSERT INTO t VALUES (?, ?)",
            vec![Param::from(1), Param::from("ada")],
        ),
        Statement::with_params(
            "UPDATE t SET name = ? WHERE id = ?",
            vec![Param::from("bob"), Param::from(1)],
        ),
    ])
    .unwrap();
    assert_eq!(
        script,
        "BEGIN; INSERT INTO t VALUES (?, ?); UPDATE t SET name = ? WHERE id = ?; COMMIT"
    );
    assert_eq!(params.len(), 4);
    assert_eq!(params[1], Param::Text("ada".into()));
    assert_eq!(params[2], Param::Text("bob".into()));
}

#[test]
fn trailing_semicolons_and_whitespace_do_not_break_the_script() {
    let (script, _) =
        build_transaction_script(&[Statement::new("  INSERT INTO t VALUES (1) ;  ")]).unwrap();
    assert_eq!(script, "BEGIN; INSERT INTO t VALUES (1); COMMIT");
}

#[test]
fn caller_supplied_transaction_control_is_refused() {
    for sql in ["BEGIN", "begin", "COMMIT", "ROLLBACK", "START TRANSACTION"] {
        let err = build_transaction_script(&[Statement::new(sql)]).unwrap_err();
        assert_eq!(err.kind, ErrorKind::InvalidArgument);
    }
}

#[test]
fn an_empty_transaction_is_refused() {
    assert!(build_transaction_script(&[]).is_err());
    assert!(build_transaction_script(&[Statement::new("  ;  ")]).is_err());
}

#[test]
fn rows_can_be_read_by_column_name() {
    let rows = Rows {
        columns: vec!["id".into(), "name".into()],
        rows: vec![vec!["1".into(), "ada".into()]],
    };
    assert_eq!(rows.get(0, "name"), Some("ada"));
    assert_eq!(rows.get(0, "missing"), None);
    assert_eq!(rows.maps()[0].get("id").map(String::as_str), Some("1"));
    assert_eq!(rows.len(), 1);
    assert!(!rows.is_empty());
}

#[test]
fn the_refused_statement_is_named() {
    let err = build_transaction_script(&[
        Statement::from("SELECT 1"),
        Statement::new("\u{a0}CoMmIt ;;"),
    ])
    .unwrap_err();
    assert_eq!(
        err.message,
        "transaction() brackets the script itself — remove the `COMMIT` statement"
    );
    let err = build_transaction_script(&[Statement::new("\u{3000};;\t")]).unwrap_err();
    assert_eq!(err.message, "every statement in a transaction must be non-empty SQL");
    let err = build_transaction_script(&[]).unwrap_err();
    assert_eq!(err.message, "a transaction needs at least one statement");
    // A word that only begins like a keyword is no keyword.
    let (script, _) =
        build_transaction_script(&[Statement::new("beginning ; ;"), Statement::new("x;y")]).unwrap();
    assert_eq!(script, "BEGIN; beginning ;; x;y; COMMIT");
}

#[test]
fn cells_that_are_not_there_are_none() {
    let rows = Rows {
        columns: vec!["a".into(), "b".into(), "a".into()],
        rows: vec![vec!["1".into()], vec!["1".into(), "2".into(), "3".into(), "4".into()]],
    };
    assert_eq!(rows.get(0, "b"), None);
    assert_eq!(rows.get(2, "a"), None);
    assert_eq!(rows.get(1, "a"), Some("1"));
    let maps = rows.maps();
    assert_eq!(maps.len(), 2);
    assert_eq!(maps[0].len(), 1);
    assert_eq!(maps[1].get("a").map(String::as_str), Some("3"));
    assert_eq!(maps[1].len(), 2);
    assert!(Rows::default().is_empty());
}

#[test]
fn a_statement_is_copied_with_its_values() {
    let s = Statement::with_params("x", vec![Param::bytes(&[1]), Param::Null]);
    assert_eq!(s.clone(), s);
    assert_eq!(Statement::from("x").params.len(), 0);
}
