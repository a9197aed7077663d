use query_core::JsonValue;
use query_core::coerce::RawCell;
use query_core::error::DbError;
use query_core::executor::{ExecSession, TestSession};
use query_core::profile::ConnectionProfile;
use query_core::query_result::build_query_result;

fn int32_cell(v: i32) -> RawCell {
    RawCell { text: None, int32: Some(v), int64: None, boolean: None, float_bits: None }
}

fn text_cell(s: &str) -> RawCell {
    RawCell {
        text: Some(s.to_string()),
        int32: None,
        int64: None,
        boolean: None,
        float_bits: None,
    }
}

fn local_profile() -> ConnectionProfile {
    ConnectionProfile {
        name: "local".to_string(),
        host: "localhost".to_string(),
        port: 5432,
        database: "mydb".to_string(),
        username: "admin".to_string(),
        password: "".to_string(),
    }
}

// A mock driver: every simulated open and release is counted, so the
// tests can check that each path through a session balances them.
struct MockDriver {
    opens: usize,
    closes: usize,
}

impl MockDriver {
    fn new() -> MockDriver {
        MockDriver { opens: 0, closes: 0 }
    }

    fn open(&mut self) {
        self.opens += 1;
    }

    fn close(&mut self) {
        self.closes += 1;
    }
}

#[test]
fn select_one_as_x_single_row() {
    // One row, one column named x, integer value 1.
    let mut driver = MockDriver::new();
    let mut s = ExecSession::new();
    driver.open();
    s.connected();
    s.rows_fetched(vec!["x".to_string()], vec![vec![int32_cell(1)]], 3);
    driver.close();
    let r = s.close_acknowledged().unwrap();
    assert_eq!(r.columns, vec!["x".to_string()]);
    assert_eq!(r.rows, vec![vec![JsonValue::Int32(1)]]);
    assert_eq!(r.row_count, 1);
    assert_eq!(r.execution_time_ms, 3);
    assert_eq!(driver.opens, driver.closes);
}

#[test]
fn zero_rows_gives_empty_columns() {
    // A statement returning zero rows: empty columns, empty rows, count 0,
    // whatever the driver reported as first-row metadata.
    let mut s = ExecSession::new();
    s.connected();
    s.rows_fetched(Vec::new(), Vec::new(), 1);
    let r = s.close_acknowledged().unwrap();
    assert_eq!(r.columns, Vec::<String>::new());
    assert_eq!(r.rows, Vec::<Vec<JsonValue>>::new());
    assert_eq!(r.row_count, 0);
}

#[test]
fn every_row_as_wide_as_the_column_list() {
    let rows = vec![
        vec![int32_cell(1), text_cell("a")],
        vec![int32_cell(2), text_cell("b")],
        vec![int32_cell(3), RawCell::null()],
    ];
    let r = build_query_result(vec!["id".to_string(), "label".to_string()], rows, 12);
    assert_eq!(r.row_count, 3);
    assert_eq!(r.columns.len(), 2);
    for row in &r.rows {
        assert_eq!(row.len(), r.columns.len());
    }
    assert_eq!(r.rows[2][1], JsonValue::Null);
}

#[test]
fn unreachable_host_is_a_connection_error() {
    // The connect itself failed: a connection error carrying the driver's
    // network message, and no result of any kind.
    let mut driver = MockDriver::new();
    let mut s = ExecSession::new();
    let e = s.connect_failed("connection refused (os error 111)".to_string());
    assert_eq!(e, DbError::ConnectionError("connection refused (os error 111)".to_string()));
    assert_eq!(e.message(), "connection refused (os error 111)");
    assert_eq!(driver.opens, 0);
    assert_eq!(driver.opens, driver.closes);
}

#[test]
fn statement_failure_released_before_error() {
    let mut driver = MockDriver::new();
    let mut s = ExecSession::new();
    driver.open();
    s.connected();
    s.statement_failed("syntax error at or near \"SELEC\"".to_string());
    // The error only comes out once the release is acknowledged.
    driver.close();
    let r = s.close_acknowledged();
    assert_eq!(
        r,
        Err(DbError::ExecutionError("syntax error at or near \"SELEC\"".to_string()))
    );
    assert_eq!(driver.opens, driver.closes);
}

#[test]
fn connection_test_success_message() {
    let mut driver = MockDriver::new();
    let mut s = TestSession::new(local_profile());
    driver.open();
    s.connected();
    driver.close();
    let msg = s.close_acknowledged();
    assert_eq!(msg, "Successfully connected to localhost:5432/mydb");
    assert_eq!(driver.opens, driver.closes);
}

#[test]
fn connection_test_failure() {
    let mut driver = MockDriver::new();
    let mut s = TestSession::new(local_profile());
    let e = s.connect_failed("name resolution failed".to_string());
    assert_eq!(e, DbError::ConnectionError("name resolution failed".to_string()));
    assert_eq!(driver.opens, driver.closes);
}
