use sqlite_cursor::cursor::cursor_with_statement;
use sqlite_cursor::row::{row_from_columns, RowMap};
use sqlite_cursor::types::{BindArg, ColumnType, ResultCode};

#[test]
fn result_code_numeric_vocabulary() {
    assert_eq!(ResultCode::from_code(0), ResultCode::SQLITE_OK);
    assert_eq!(ResultCode::from_code(19), ResultCode::SQLITE_CONSTRAINT);
    assert_eq!(ResultCode::from_code(25), ResultCode::SQLITE_RANGE);
    assert_eq!(ResultCode::from_code(100), ResultCode::SQLITE_ROW);
    assert_eq!(ResultCode::from_code(101), ResultCode::SQLITE_DONE);
    assert_eq!(ResultCode::from_code(7777), ResultCode::SQLITE_ERROR);
    assert_eq!(ResultCode::SQLITE_OK.code(), 0);
    assert_eq!(ResultCode::SQLITE_CONSTRAINT.code(), 19);
    assert_eq!(ResultCode::SQLITE_DONE.code(), 101);
}

#[test]
fn rowmap_insert_and_get() {
    let mut row = RowMap::new();
    assert_eq!(row.len(), 0);
    assert!(row.insert("a".to_string(), BindArg::Integer(1)));
    assert!(row.insert("b".to_string(), BindArg::Null));
    assert!(!row.insert("a".to_string(), BindArg::Integer(2)));
    assert_eq!(row.len(), 2);
    assert_eq!(row.get("a"), Some(&BindArg::Integer(1)));
    assert_eq!(row.get("b"), Some(&BindArg::Null));
    assert_eq!(row.get("c"), None);
}

#[test]
fn bind_params_binds_by_position() {
    let conn = sqlite::open(":memory:").unwrap();
    conn.execute("CREATE TABLE t (a INTEGER, b TEXT)").unwrap();
    let stmt = conn.prepare("INSERT INTO t VALUES (?, ?)").unwrap();
    let mut cur = cursor_with_statement(stmt);
    let rc = cur.bind_params(&[BindArg::Integer(1), BindArg::Text("a".to_string())]);
    assert_eq!(rc, ResultCode::SQLITE_OK);
    assert_eq!(cur.step(), ResultCode::SQLITE_DONE);
    drop(cur);

    let stmt = conn.prepare("SELECT a, b FROM t").unwrap();
    let mut cur = cursor_with_statement(stmt);
    let row = cur.step_row().unwrap().unwrap();
    assert_eq!(row.get("a"), Some(&BindArg::Integer(1)));
    assert_eq!(row.get("b"), Some(&BindArg::Text("a".to_string())));
}

#[test]
fn bind_params_mismatched_arity_fails_fast() {
    let conn = sqlite::open(":memory:").unwrap();
    conn.execute("CREATE TABLE t (a INTEGER, b TEXT)").unwrap();
    let stmt = conn.prepare("INSERT INTO t VALUES (?, ?)").unwrap();
    let mut cur = cursor_with_statement(stmt);
    let rc = cur.bind_params(&[
        BindArg::Integer(1),
        BindArg::Text("a".to_string()),
        BindArg::Integer(9),
    ]);
    // The third value has no placeholder: the engine reports the binding
    // error for the first invalid index, and the first two stay bound.
    assert_eq!(rc, ResultCode::SQLITE_RANGE);
    assert_eq!(cur.step(), ResultCode::SQLITE_DONE);
    drop(cur);

    let stmt = conn.prepare("SELECT a, b FROM t").unwrap();
    let mut cur = cursor_with_statement(stmt);
    let row = cur.step_row().unwrap().unwrap();
    assert_eq!(row.get("a"), Some(&BindArg::Integer(1)));
    assert_eq!(row.get("b"), Some(&BindArg::Text("a".to_string())));
}

#[test]
fn step_row_yields_rows_then_none() {
    let conn = sqlite::open(":memory:").unwrap();
    conn.execute(
        "CREATE TABLE t (id INTEGER, name TEXT);
         INSERT INTO t VALUES (1, 'x');
         INSERT INTO t VALUES (2, 'y');",
    )
    .unwrap();
    let stmt = conn.prepare("SELECT id, name FROM t ORDER BY id").unwrap();
    let mut cur = cursor_with_statement(stmt);

    let first = cur.step_row().unwrap().unwrap();
    assert_eq!(first.get("id"), Some(&BindArg::Integer(1)));
    assert_eq!(first.get("name"), Some(&BindArg::Text("x".to_string())));

    let second = cur.step_row().unwrap().unwrap();
    assert_eq!(second.get("id"), Some(&BindArg::Integer(2)));
    assert_eq!(second.get("name"), Some(&BindArg::Text("y".to_string())));

    assert!(cur.step_row().unwrap().is_none());
}

#[test]
fn step_row_returns_error_code_as_failure() {
    let conn = sqlite::open(":memory:").unwrap();
    conn.execute(
        "CREATE TABLE t (id INTEGER PRIMARY KEY);
         INSERT INTO t VALUES (1);",
    )
    .unwrap();
    let stmt = conn.prepare("INSERT INTO t VALUES (1)").unwrap();
    let mut cur = cursor_with_statement(stmt);
    let r = cur.step_row();
    assert_eq!(r, Err(ResultCode::SQLITE_CONSTRAINT));
}

#[test]
fn row_from_columns_rejects_a_duplicate_name() {
    let names = vec!["a".to_string(), "b".to_string(), "a".to_string()];
    let values = vec![BindArg::Integer(1), BindArg::Null, BindArg::Integer(2)];
    assert_eq!(row_from_columns(&names, values), Err("a".to_string()));
}

#[test]
fn row_from_columns_pairs_names_with_values() {
    let names = vec!["a".to_string(), "b".to_string()];
    let values = vec![BindArg::Integer(1), BindArg::Null];
    let row = row_from_columns(&names, values).unwrap();
    assert_eq!(row.len(), 2);
    assert_eq!(row.get("a"), Some(&BindArg::Integer(1)));
    assert_eq!(row.get("b"), Some(&BindArg::Null));
}

#[test]
fn column_type_distinguishes_null_from_empty_text() {
    let conn = sqlite::open(":memory:").unwrap();
    let stmt = conn.prepare("SELECT NULL AS n, '' AS e").unwrap();
    let mut cur = cursor_with_statement(stmt);
    assert_eq!(cur.step(), ResultCode::SQLITE_ROW);
    assert_eq!(cur.get_column_type(0), Some(ColumnType::SQLITE_NULL));
    assert_eq!(cur.get_column_type(1), Some(ColumnType::SQLITE_TEXT));
    assert_eq!(cur.get_text(0), None);
    assert_eq!(cur.get_text(1), Some(String::new()));
    assert_eq!(cur.get_column_type(9), None);
    drop(cur);

    let stmt = conn.prepare("SELECT NULL AS n, '' AS e").unwrap();
    let mut cur = cursor_with_statement(stmt);
    let row = cur.step_row().unwrap().unwrap();
    assert_eq!(row.get("n"), Some(&BindArg::Null));
    assert_eq!(row.get("e"), Some(&BindArg::Text(String::new())));
}

#[test]
fn static_text_with_stable_buffer_decodes() {
    let conn = sqlite::open(":memory:").unwrap();
    conn.execute("CREATE TABLE t (s TEXT)").unwrap();
    let stmt = conn.prepare("INSERT INTO t VALUES (?)").unwrap();
    let mut cur = cursor_with_statement(stmt);
    assert_eq!(
        cur.bind_param(1, &BindArg::StaticText("stays put")),
        ResultCode::SQLITE_OK
    );
    assert_eq!(cur.step(), ResultCode::SQLITE_DONE);
    drop(cur);

    let stmt = conn.prepare("SELECT s FROM t").unwrap();
    let mut cur = cursor_with_statement(stmt);
    let row = cur.step_row().unwrap().unwrap();
    assert_eq!(row.get("s"), Some(&BindArg::Text("stays put".to_string())));
}

#[test]
fn text_binding_is_unaffected_by_source_going_away() {
    let conn = sqlite::open(":memory:").unwrap();
    conn.execute("CREATE TABLE t (s TEXT)").unwrap();
    let stmt = conn.prepare("INSERT INTO t VALUES (?)").unwrap();
    let mut cur = cursor_with_statement(stmt);
    {
        let mut source = String::from("kept");
        let arg = BindArg::Text(source.clone());
        assert_eq!(cur.bind_param(1, &arg), ResultCode::SQLITE_OK);
        // The engine copied the bytes at bind time: changing and dropping
        // the source before stepping must not affect the bound value.
        source.clear();
        source.push_str("changed");
        drop(arg);
        drop(source);
    }
    assert_eq!(cur.step(), ResultCode::SQLITE_DONE);
    drop(cur);

    let stmt = conn.prepare("SELECT s FROM t").unwrap();
    let mut cur = cursor_with_statement(stmt);
    let row = cur.step_row().unwrap().unwrap();
    assert_eq!(row.get("s"), Some(&BindArg::Text("kept".to_string())));
}

#[test]
fn blob_round_trip_preserves_bytes() {
    let conn = sqlite::open(":memory:").unwrap();
    conn.execute("CREATE TABLE t (x BLOB)").unwrap();
    let stmt = conn.prepare("INSERT INTO t VALUES (?)").unwrap();
    let mut cur = cursor_with_statement(stmt);
    assert_eq!(
        cur.bind_param(1, &BindArg::Blob(vec![0, 1, 2, 255])),
        ResultCode::SQLITE_OK
    );
    assert_eq!(cur.step(), ResultCode::SQLITE_DONE);
    drop(cur);

    let stmt = conn.prepare("SELECT x FROM t").unwrap();
    let mut cur = cursor_with_statement(stmt);
    assert_eq!(cur.step(), ResultCode::SQLITE_ROW);
    assert_eq!(cur.get_column_type(0), Some(ColumnType::SQLITE_BLOB));
    assert_eq!(cur.get_blob(0), Some(vec![0, 1, 2, 255]));
    drop(cur);

    let stmt = conn.prepare("SELECT x FROM t").unwrap();
    let mut cur = cursor_with_statement(stmt);
    let row = cur.step_row().unwrap().unwrap();
    assert_eq!(row.get("x"), Some(&BindArg::Blob(vec![0, 1, 2, 255])));
}

#[test]
fn float_round_trip_preserves_bits() {
    let conn = sqlite::open(":memory:").unwrap();
    conn.execute("CREATE TABLE t (x REAL)").unwrap();
    let stmt = conn.prepare("INSERT INTO t VALUES (?)").unwrap();
    let mut cur = cursor_with_statement(stmt);
    let bits = 3.5f64.to_bits();
    assert_eq!(
        cur.bind_param(1, &BindArg::Float64(bits)),
        ResultCode::SQLITE_OK
    );
    assert_eq!(cur.step(), ResultCode::SQLITE_DONE);
    drop(cur);

    let stmt = conn.prepare("SELECT x FROM t").unwrap();
    let mut cur = cursor_with_statement(stmt);
    assert_eq!(cur.step(), ResultCode::SQLITE_ROW);
    assert_eq!(cur.get_column_type(0), Some(ColumnType::SQLITE_FLOAT));
    assert_eq!(cur.get_f64(0), Some(bits));
    assert_eq!(cur.get_f64(0).map(f64::from_bits), Some(3.5));
    drop(cur);

    let stmt = conn.prepare("SELECT x FROM t").unwrap();
    let mut cur = cursor_with_statement(stmt);
    let row = cur.step_row().unwrap().unwrap();
    assert_eq!(row.get("x"), Some(&BindArg::Float64(bits)));
}

#[test]
fn integer64_bind_round_trips() {
    let conn = sqlite::open(":memory:").unwrap();
    conn.execute("CREATE TABLE t (x INTEGER)").unwrap();
    let stmt = conn.prepare("INSERT INTO t VALUES (?)").unwrap();
    let mut cur = cursor_with_statement(stmt);
    assert_eq!(
        cur.bind_param(1, &BindArg::Integer64(i64::MAX)),
        ResultCode::SQLITE_OK
    );
    assert_eq!(cur.step(), ResultCode::SQLITE_DONE);
    drop(cur);

    let stmt = conn.prepare("SELECT x FROM t").unwrap();
    let mut cur = cursor_with_statement(stmt);
    assert_eq!(cur.step(), ResultCode::SQLITE_ROW);
    assert_eq!(cur.get_i64(0), Some(i64::MAX));
}

#[test]
fn reset_keeps_bindings_and_clear_bindings_nulls_them() {
    let conn = sqlite::open(":memory:").unwrap();
    let stmt = conn.prepare("SELECT ? AS v").unwrap();
    let mut cur = cursor_with_statement(stmt);
    assert_eq!(cur.bind_param(1, &BindArg::Integer(7)), ResultCode::SQLITE_OK);
    assert_eq!(cur.step(), ResultCode::SQLITE_ROW);
    assert_eq!(cur.get_int(0), Some(7));

    // Resetting restarts the row sequence but keeps the binding.
    assert_eq!(cur.reset(), ResultCode::SQLITE_OK);
    assert_eq!(cur.step(), ResultCode::SQLITE_ROW);
    assert_eq!(cur.get_int(0), Some(7));

    // Clearing the bindings sets the parameter back to NULL.
    assert_eq!(cur.reset(), ResultCode::SQLITE_OK);
    assert_eq!(cur.clear_bindings(), ResultCode::SQLITE_OK);
    assert_eq!(cur.step(), ResultCode::SQLITE_ROW);
    assert_eq!(cur.get_column_type(0), Some(ColumnType::SQLITE_NULL));
}

#[test]
fn bind_index_beyond_engine_range_is_refused() {
    let conn = sqlite::open(":memory:").unwrap();
    let stmt = conn.prepare("SELECT ?").unwrap();
    let mut cur = cursor_with_statement(stmt);
    // The engine takes parameter indices as 32-bit C integers; an index
    // that cannot be expressed is refused up front.
    assert_eq!(
        cur.bind_param(0x8000_0000, &BindArg::Null),
        ResultCode::SQLITE_RANGE
    );
}

#[test]
fn named_parameter_index_resolves() {
    let conn = sqlite::open(":memory:").unwrap();
    let stmt = conn.prepare("SELECT :name AS v").unwrap();
    let cur = cursor_with_statement(stmt);
    assert_eq!(cur.get_bind_index(":name"), 1);
    assert_eq!(cur.get_bind_index(":missing"), 0);
}

#[test]
fn column_introspection_reports_names_in_order() {
    let conn = sqlite::open(":memory:").unwrap();
    let stmt = conn.prepare("SELECT 1 AS one, 'x' AS two").unwrap();
    let cur = cursor_with_statement(stmt);
    assert_eq!(cur.get_column_count(), 2);
    assert_eq!(cur.get_column_name(0), Some("one".to_string()));
    assert_eq!(cur.get_column_name(1), Some("two".to_string()));
    assert_eq!(cur.get_column_name(2), None);
    assert_eq!(
        cur.get_column_names(),
        vec!["one".to_string(), "two".to_string()]
    );
}

#[test]
fn cursor_dropped_mid_iteration_releases_its_statement() {
    let conn = sqlite::open(":memory:").unwrap();
    conn.execute(
        "CREATE TABLE t (id INTEGER);
         INSERT INTO t VALUES (1);
         INSERT INTO t VALUES (2);",
    )
    .unwrap();
    {
        let stmt = conn.prepare("SELECT id FROM t").unwrap();
        let mut cur = cursor_with_statement(stmt);
        assert_eq!(cur.step(), ResultCode::SQLITE_ROW);
        // Leave the remaining row unread: the cursor goes out of scope
        // mid-iteration and must still release its statement.
    }
    // A lingering statement would hold the table open; dropping it must
    // leave the connection free for further work.
    conn.execute("DROP TABLE t").unwrap();
}

#[test]
fn get_int_applies_engine_coercion() {
    let conn = sqlite::open(":memory:").unwrap();
    let stmt = conn.prepare("SELECT '42' AS v").unwrap();
    let mut cur = cursor_with_statement(stmt);
    assert_eq!(cur.step(), ResultCode::SQLITE_ROW);
    assert_eq!(cur.get_int(0), Some(42));
    assert_eq!(cur.get_i64(0), Some(42));
    assert_eq!(cur.get_f64(0).map(f64::from_bits), Some(42.0));
    assert_eq!(cur.get_int(9), None);
}
