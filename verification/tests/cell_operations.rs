use office_sync::poller::poll_step;
use office_sync::state::OfficeState;

fn ready_state() -> OfficeState {
    let mut s = OfficeState::new();
    poll_step(&mut s, true);
    s
}

#[test]
fn operations_are_no_ops_before_the_host_is_ready() {
    let mut s = OfficeState::new();
    s.set_address(String::from("A1"));
    s.set_new_value(String::from("7"));
    assert!(s.read_cell_request().is_none());
    assert!(s.write_cell_request().is_none());
    assert!(!s.sheet_name_request());
    // The state is untouched by the refused requests.
    assert!(!s.office_status);
    assert_eq!(s.address, "A1");
    assert_eq!(s.value, "");
    assert_eq!(s.sheet, "");
    assert_eq!(s.new_value, "7");
}

#[test]
fn write_before_ready_issues_no_host_call_and_changes_nothing() {
    let mut s = OfficeState::new();
    s.set_address(String::from("C3"));
    s.set_new_value(String::from("99"));
    // Without a request there is nothing to hand to the host gateway.
    assert!(s.write_cell_request().is_none());
    assert!(!s.office_status);
    assert_eq!(s.address, "C3");
    assert_eq!(s.value, "");
    assert_eq!(s.sheet, "");
    assert_eq!(s.new_value, "99");
}

#[test]
fn successful_read_updates_value() {
    let mut s = ready_state();
    s.set_address(String::from("B2"));
    let request = s.read_cell_request();
    assert_eq!(request.as_deref(), Some("B2"));
    let err = s.read_cell_complete(Ok(String::from("42")));
    assert!(err.is_none());
    assert_eq!(s.value, "42");
}

#[test]
fn failing_read_leaves_value_unchanged() {
    let mut s = ready_state();
    s.set_address(String::from("B2"));
    s.read_cell_complete(Ok(String::from("first")));
    let err = s.read_cell_complete(Err(String::from("bad address")));
    assert_eq!(err.as_deref(), Some("bad address"));
    assert_eq!(s.value, "first");
}

#[test]
fn write_request_snapshots_address_and_staged_value() {
    let mut s = ready_state();
    s.set_address(String::from("D4"));
    s.set_new_value(String::from("7"));
    let request = s.write_cell_request();
    assert_eq!(request, Some((String::from("D4"), String::from("7"))));
}

#[test]
fn successful_write_changes_no_field() {
    let mut s = ready_state();
    s.set_address(String::from("D4"));
    s.set_new_value(String::from("7"));
    let err = s.write_cell_complete(Ok(()));
    assert!(err.is_none());
    assert!(s.office_status);
    assert_eq!(s.address, "D4");
    assert_eq!(s.value, "");
    assert_eq!(s.sheet, "");
    assert_eq!(s.new_value, "7");
}

#[test]
fn failing_write_leaves_all_fields_unchanged() {
    let mut s = ready_state();
    s.set_address(String::from("D4"));
    s.set_new_value(String::from("7"));
    s.read_cell_complete(Ok(String::from("old")));
    let err = s.write_cell_complete(Err(String::from("host rejected the write")));
    assert_eq!(err.as_deref(), Some("host rejected the write"));
    assert!(s.office_status);
    assert_eq!(s.address, "D4");
    assert_eq!(s.value, "old");
    assert_eq!(s.sheet, "");
    assert_eq!(s.new_value, "7");
}

#[test]
fn successful_sheet_fetch_updates_name() {
    let mut s = ready_state();
    assert!(s.sheet_name_request());
    let err = s.sheet_name_complete(Ok(String::from("Budget")));
    assert!(err.is_none());
    assert_eq!(s.sheet, "Budget");
}

#[test]
fn failing_sheet_fetch_keeps_prior_name_and_reports_the_error() {
    let mut s = ready_state();
    assert!(s.sheet_name_request());
    let err = s.sheet_name_complete(Err(String::from("permission denied")));
    assert_eq!(err.as_deref(), Some("permission denied"));
    assert_eq!(s.sheet, "");
}

#[test]
fn later_completion_wins_regardless_of_issue_order() {
    let mut s = ready_state();
    s.set_address(String::from("A1"));
    let first = s.read_cell_request().unwrap();
    s.set_address(String::from("A2"));
    let second = s.read_cell_request().unwrap();
    assert_eq!(first, "A1");
    assert_eq!(second, "A2");
    // The read issued second completes first; the read issued first
    // completes last and its value stays.
    s.read_cell_complete(Ok(String::from("from A2")));
    s.read_cell_complete(Ok(String::from("from A1")));
    assert_eq!(s.value, "from A1");
}
