use rusqlite::types::{Null, ToSql};
use rusqlite::Connection;
use sidecar::{
    bind_params, build_row, db_execute, db_init, db_query, execute_result, query_result, RawColumn,
    ResultSet, Row, SidecarError, SqlParam, UntypedValue,
};

fn native(params: Vec<SqlParam>) -> Vec<Box<dyn ToSql>> {
    params
        .into_iter()
        .map(|param| -> Box<dyn ToSql> {
            match param {
                SqlParam::Null => Box::new(Null),
                SqlParam::Bool(b) => Box::new(b),
                SqlParam::Integer(i) => Box::new(i),
                SqlParam::Real(bits) => Box::new(f64::from_bits(bits)),
                SqlParam::Text(text) => Box::new(text),
            }
        })
        .collect()
}

fn run_execute(conn: &Connection, sql: &str, params: Vec<SqlParam>) -> Result<usize, String> {
    let boxed = native(params);
    conn.execute(sql, rusqlite::params_from_iter(boxed.iter()))
        .map_err(|e| e.to_string())
}

fn read_column(row: &rusqlite::Row, index: usize) -> RawColumn {
    RawColumn {
        text: row.get::<_, String>(index).ok(),
        integer: row.get::<_, i64>(index).ok(),
        float: row.get::<_, f64>(index).ok().map(f64::to_bits),
        boolean: row.get::<_, bool>(index).ok(),
        binary: row.get::<_, Vec<u8>>(index).ok(),
    }
}

fn run_query(conn: &Connection, sql: &str, params: Vec<SqlParam>) -> Result<ResultSet, String> {
    let boxed = native(params);
    let mut statement = conn.prepare(sql).map_err(|e| e.to_string())?;
    let names: Vec<String> = statement.column_names().iter().map(|n| n.to_string()).collect();
    let width = names.len();
    let mut set = ResultSet::new(names);
    let mut rows = statement
        .query(rusqlite::params_from_iter(boxed.iter()))
        .map_err(|e| e.to_string())?;
    while let Some(row) = rows.next().map_err(|e| e.to_string())? {
        let columns: Vec<RawColumn> = (0..width).map(|i| read_column(row, i)).collect();
        assert!(set.push_row(columns));
    }
    Ok(set)
}

fn open_store(_path: &str, setup: &str) -> Result<Connection, String> {
    let conn = Connection::open_in_memory().map_err(|e| e.to_string())?;
    conn.execute_batch(setup).map_err(|e| e.to_string())?;
    Ok(conn)
}

fn store() -> Option<Connection> {
    let mut db: Option<Connection> = None;
    db_init(&mut db, Some(":memory:".to_string()), || unreachable!(), open_store).unwrap();
    db
}

fn text(s: &str) -> UntypedValue {
    UntypedValue::Text(s.to_string())
}

fn cell<'a>(row: &'a Row, name: &str) -> Option<&'a UntypedValue> {
    row.get(&name.to_string())
}

fn empty_column() -> RawColumn {
    RawColumn { text: None, integer: None, float: None, boolean: None, binary: None }
}

#[test]
fn parameters_are_bound_in_positional_order() {
    let bound = bind_params(&vec![
        UntypedValue::Integer(1),
        text("two"),
        UntypedValue::Null,
        UntypedValue::Bool(true),
        UntypedValue::Float(0.5f64.to_bits()),
    ]);
    assert_eq!(
        bound,
        vec![
            SqlParam::Integer(1),
            SqlParam::Text("two".to_string()),
            SqlParam::Null,
            SqlParam::Bool(true),
            SqlParam::Real(0.5f64.to_bits()),
        ]
    );
    assert_eq!(bind_params(&vec![]), vec![]);
}

#[test]
fn store_outcome_of_a_mutation_is_passed_on() {
    assert_eq!(execute_result(Ok(3)), Ok(3));
    assert_eq!(
        execute_result(Err("UNIQUE constraint failed: t.id".to_string())),
        Err(SidecarError::Database("UNIQUE constraint failed: t.id".to_string()))
    );
}

#[test]
fn later_column_of_the_same_name_wins() {
    let names = vec!["a".to_string(), "b".to_string(), "a".to_string()];
    let columns = vec![
        RawColumn { integer: Some(1), ..empty_column() },
        RawColumn { integer: Some(2), ..empty_column() },
        RawColumn { integer: Some(3), ..empty_column() },
    ];
    let row = build_row(&names, &columns);
    assert_eq!(row.len(), 2);
    assert_eq!(cell(&row, "a"), Some(&UntypedValue::Integer(3)));
    assert_eq!(cell(&row, "b"), Some(&UntypedValue::Integer(2)));
}

#[test]
fn row_without_columns_is_empty() {
    let row = build_row(&vec![], &vec![]);
    assert_eq!(row.len(), 0);
}

#[test]
fn result_set_takes_only_rows_that_fit() {
    let mut set = ResultSet::new(vec!["a".to_string(), "b".to_string()]);
    assert!(!set.push_row(vec![empty_column()]));
    assert!(!set.push_row(vec![empty_column(), empty_column(), empty_column()]));
    assert_eq!(set.row_count(), 0);
    assert!(set.push_row(vec![empty_column(), empty_column()]));
    assert_eq!(set.row_count(), 1);
}

#[test]
fn store_outcome_of_a_query_is_decoded() {
    let mut set = ResultSet::new(vec!["id".to_string(), "name".to_string()]);
    assert!(set.push_row(vec![
        RawColumn { integer: Some(1), ..empty_column() },
        RawColumn { text: Some("ada".to_string()), ..empty_column() },
    ]));
    assert!(set.push_row(vec![
        RawColumn { integer: Some(2), ..empty_column() },
        empty_column(),
    ]));
    let rows = query_result(Ok(set)).unwrap();
    assert_eq!(rows.len(), 2);
    assert_eq!(cell(&rows[0], "id"), Some(&UntypedValue::Integer(1)));
    assert_eq!(cell(&rows[0], "name"), Some(&text("ada")));
    assert_eq!(cell(&rows[1], "id"), Some(&UntypedValue::Integer(2)));
    assert_eq!(cell(&rows[1], "name"), Some(&UntypedValue::Null));
    assert_eq!(
        query_result(Err("no such table: t".to_string())).err(),
        Some(SidecarError::Database("no such table: t".to_string()))
    );
}

#[test]
fn statements_need_a_connection() {
    let db: Option<Connection> = None;
    assert_eq!(
        db_execute(&db, "SELECT 1", &vec![], |_, _, _| unreachable!()),
        Err(SidecarError::InvalidState("Database not initialized".to_string()))
    );
    assert_eq!(
        db_query(&db, "SELECT 1", &vec![], |_, _, _| unreachable!()).err(),
        Some(SidecarError::InvalidState("Database not initialized".to_string()))
    );
}

#[test]
fn init_hands_path_and_setup_to_the_opener() {
    let mut db: Option<Connection> = None;
    let result = db_init(
        &mut db,
        Some("/data/app.db".to_string()),
        || unreachable!(),
        |path, setup| {
            assert_eq!(path, "/data/app.db");
            assert_eq!(setup, "PRAGMA journal_mode=WAL; PRAGMA foreign_keys=ON;");
            open_store(path, setup)
        },
    );
    assert_eq!(result, Ok(()));
    assert!(db.is_some());
}

#[test]
fn init_without_path_uses_the_default_location() {
    let mut db: Option<Connection> = None;
    let result = db_init(
        &mut db,
        None,
        || "/home/user/.local/share/sidecar/sidecar.db".to_string(),
        |path, setup| {
            assert_eq!(path, "/home/user/.local/share/sidecar/sidecar.db");
            open_store(path, setup)
        },
    );
    assert_eq!(result, Ok(()));
    assert!(db.is_some());
}

#[test]
fn failed_init_keeps_the_earlier_connection() {
    let mut db = store();
    db_execute(&db, "CREATE TABLE kept (id INTEGER)", &vec![], run_execute).unwrap();
    let result = db_init(
        &mut db,
        Some("/nowhere".to_string()),
        || unreachable!(),
        |_, _| Err("unable to open database file".to_string()),
    );
    assert_eq!(
        result,
        Err(SidecarError::Database("unable to open database file".to_string()))
    );
    assert_eq!(
        db_execute(&db, "INSERT INTO kept VALUES (1)", &vec![], run_execute),
        Ok(1)
    );
}

#[test]
fn init_replaces_the_earlier_connection() {
    let mut db = store();
    db_execute(&db, "CREATE TABLE gone (id INTEGER)", &vec![], run_execute).unwrap();
    db_init(&mut db, Some(":memory:".to_string()), || unreachable!(), open_store).unwrap();
    assert!(matches!(
        db_execute(&db, "INSERT INTO gone VALUES (1)", &vec![], run_execute),
        Err(SidecarError::Database(_))
    ));
}

#[test]
fn setup_enables_foreign_keys() {
    let db = store();
    let rows = db_query(&db, "PRAGMA foreign_keys", &vec![], run_query).unwrap();
    assert_eq!(rows.len(), 1);
    assert_eq!(cell(&rows[0], "foreign_keys"), Some(&UntypedValue::Integer(1)));
}

#[test]
fn execute_reports_affected_rows() {
    let db = store();
    assert_eq!(
        db_execute(&db, "CREATE TABLE t (id INTEGER PRIMARY KEY, name TEXT)", &vec![], run_execute),
        Ok(0)
    );
    for (id, name) in [(1, "a"), (2, "b"), (3, "c")] {
        assert_eq!(
            db_execute(
                &db,
                "INSERT INTO t (id, name) VALUES (?1, ?2)",
                &vec![UntypedValue::Integer(id), text(name)],
                run_execute,
            ),
            Ok(1)
        );
    }
    assert_eq!(
        db_execute(&db, "UPDATE t SET name = ?1 WHERE id > ?2", &vec![text("z"), UntypedValue::Integer(1)], run_execute),
        Ok(2)
    );
    assert_eq!(db_execute(&db, "DELETE FROM t", &vec![], run_execute), Ok(3));
}

#[test]
fn store_errors_surface_as_database_errors() {
    let db = store();
    assert!(matches!(
        db_execute(&db, "THIS IS NOT SQL", &vec![], run_execute),
        Err(SidecarError::Database(_))
    ));
    db_execute(&db, "CREATE TABLE u (id INTEGER PRIMARY KEY)", &vec![], run_execute).unwrap();
    db_execute(&db, "INSERT INTO u VALUES (1)", &vec![], run_execute).unwrap();
    assert_eq!(
        db_execute(&db, "INSERT INTO u VALUES (1)", &vec![], run_execute),
        Err(SidecarError::Database("UNIQUE constraint failed: u.id".to_string()))
    );
    assert!(matches!(
        db_query(&db, "SELECT * FROM missing", &vec![], run_query),
        Err(SidecarError::Database(_))
    ));
    assert_eq!(db_execute(&db, "INSERT INTO u VALUES (2)", &vec![], run_execute), Ok(1));
}

#[test]
fn values_round_trip_through_untyped_columns() {
    let db = store();
    db_execute(&db, "CREATE TABLE v (pos INTEGER, val)", &vec![], run_execute).unwrap();
    let stored = vec![
        UntypedValue::Integer(42),
        UntypedValue::Integer(i64::MIN),
        UntypedValue::Float(2.5f64.to_bits()),
        UntypedValue::Float((-0.1f64).to_bits()),
        text("hello"),
        text("42"),
        text(""),
        UntypedValue::Bool(true),
        UntypedValue::Bool(false),
        UntypedValue::Null,
        UntypedValue::Decimal("18446744073709551616".to_string()),
        UntypedValue::Composite("{\"a\":[1,2]}".to_string()),
    ];
    let returned = vec![
        UntypedValue::Integer(42),
        UntypedValue::Integer(i64::MIN),
        UntypedValue::Float(2.5f64.to_bits()),
        UntypedValue::Float((-0.1f64).to_bits()),
        text("hello"),
        text("42"),
        text(""),
        UntypedValue::Integer(1),
        UntypedValue::Integer(0),
        UntypedValue::Null,
        text("18446744073709551616"),
        text("{\"a\":[1,2]}"),
    ];
    for (pos, value) in stored.iter().enumerate() {
        assert_eq!(
            db_execute(
                &db,
                "INSERT INTO v (pos, val) VALUES (?1, ?2)",
                &vec![UntypedValue::Integer(pos as i64), value.clone()],
                run_execute,
            ),
            Ok(1)
        );
    }
    let rows = db_query(&db, "SELECT pos, val FROM v ORDER BY pos", &vec![], run_query).unwrap();
    assert_eq!(rows.len(), stored.len());
    for (pos, row) in rows.iter().enumerate() {
        assert_eq!(cell(row, "pos"), Some(&UntypedValue::Integer(pos as i64)));
        assert_eq!(cell(row, "val"), Some(&returned[pos]));
    }
}

#[test]
fn numeric_text_in_a_text_column_stays_text() {
    let db = store();
    db_execute(&db, "CREATE TABLE n (val TEXT)", &vec![], run_execute).unwrap();
    db_execute(&db, "INSERT INTO n VALUES (?1)", &vec![UntypedValue::Integer(7)], run_execute)
        .unwrap();
    let rows = db_query(&db, "SELECT val FROM n", &vec![], run_query).unwrap();
    assert_eq!(cell(&rows[0], "val"), Some(&text("7")));
}

#[test]
fn blob_columns_come_back_text_safe_encoded() {
    let db = store();
    let rows = db_query(&db, "SELECT x'010203' AS data, x'' AS hollow", &vec![], run_query).unwrap();
    assert_eq!(cell(&rows[0], "data"), Some(&text("AQID")));
    assert_eq!(cell(&rows[0], "hollow"), Some(&text("")));
}

#[test]
fn duplicate_column_names_keep_the_last() {
    let db = store();
    let rows = db_query(&db, "SELECT 1 AS a, 'x' AS b, 2 AS a", &vec![], run_query).unwrap();
    assert_eq!(rows.len(), 1);
    assert_eq!(rows[0].len(), 2);
    assert_eq!(cell(&rows[0], "a"), Some(&UntypedValue::Integer(2)));
    assert_eq!(cell(&rows[0], "b"), Some(&text("x")));
}

#[test]
fn query_materializes_every_row() {
    let db = store();
    db_execute(&db, "CREATE TABLE many (id INTEGER)", &vec![], run_execute).unwrap();
    for id in 0..50 {
        db_execute(&db, "INSERT INTO many VALUES (?1)", &vec![UntypedValue::Integer(id)], run_execute)
            .unwrap();
    }
    let rows = db_query(
        &db,
        "SELECT id FROM many WHERE id >= ?1 ORDER BY id",
        &vec![UntypedValue::Integer(10)],
        run_query,
    )
    .unwrap();
    assert_eq!(rows.len(), 40);
    assert_eq!(cell(&rows[0], "id"), Some(&UntypedValue::Integer(10)));
    assert_eq!(cell(&rows[39], "id"), Some(&UntypedValue::Integer(49)));
    let none = db_query(&db, "SELECT id FROM many WHERE id < 0", &vec![], run_query).unwrap();
    assert_eq!(none.len(), 0);
}

#[test]
fn serialized_increments_lose_no_update() {
    let db = store();
    db_execute(&db, "CREATE TABLE counter (n INTEGER)", &vec![], run_execute).unwrap();
    db_execute(&db, "INSERT INTO counter VALUES (0)", &vec![], run_execute).unwrap();
    for _ in 0..100 {
        assert_eq!(
            db_execute(&db, "UPDATE counter SET n = n + ?1", &vec![UntypedValue::Integer(1)], run_execute),
            Ok(1)
        );
    }
    let rows = db_query(&db, "SELECT n FROM counter", &vec![], run_query).unwrap();
    assert_eq!(cell(&rows[0], "n"), Some(&UntypedValue::Integer(100)));
}

#[test]
fn row_keeps_each_name_where_it_first_occurs() {
    let names = vec!["b".to_string(), "a".to_string(), "b".to_string(), "c".to_string()];
    let columns = vec![
        RawColumn { integer: Some(1), ..empty_column() },
        RawColumn { integer: Some(2), ..empty_column() },
        RawColumn { integer: Some(3), ..empty_column() },
        RawColumn { integer: Some(4), ..empty_column() },
    ];
    let entries = build_row(&names, &columns).into_entries();
    assert_eq!(
        entries,
        vec![
            ("b".to_string(), UntypedValue::Integer(3)),
            ("a".to_string(), UntypedValue::Integer(2)),
            ("c".to_string(), UntypedValue::Integer(4)),
        ]
    );
}

#[test]
fn queried_rows_list_their_columns_in_statement_order() {
    let db = store();
    let rows = db_query(&db, "SELECT 3 AS z, 1 AS a, 2 AS m, 4 AS a", &vec![], run_query).unwrap();
    let entries: Vec<(String, UntypedValue)> = rows.into_iter().next().unwrap().into_entries();
    assert_eq!(
        entries,
        vec![
            ("z".to_string(), UntypedValue::Integer(3)),
            ("a".to_string(), UntypedValue::Integer(4)),
            ("m".to_string(), UntypedValue::Integer(2)),
        ]
    );
}
