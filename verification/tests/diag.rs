use crm_supervisor::diag::{
    close_line, failure_line, rejected_line, resolve_server_path, startup_line, success_line,
    u32_decimal,
};

#[test]
fn decimal_of_zero() {
    assert_eq!(u32_decimal(0), "0");
}

#[test]
fn decimal_of_single_digit() {
    assert_eq!(u32_decimal(7), "7");
}

#[test]
fn decimal_of_round_number() {
    assert_eq!(u32_decimal(10), "10");
    assert_eq!(u32_decimal(100), "100");
}

#[test]
fn decimal_of_typical_pid() {
    assert_eq!(u32_decimal(4242), "4242");
}

#[test]
fn decimal_of_largest_value() {
    assert_eq!(u32_decimal(u32::MAX), "4294967295");
}

#[test]
fn startup_line_names_the_path() {
    assert_eq!(
        startup_line("./server/crm-export-server.cjs"),
        "Starting Node API server at: ./server/crm-export-server.cjs"
    );
}

#[test]
fn success_line_names_the_pid() {
    let line = success_line(4242);
    assert!(line.contains("PID: 4242"));
    assert_eq!(line, "Node API server started successfully (PID: 4242)");
}

#[test]
fn failure_line_carries_the_error_text() {
    let line = failure_line("ENOENT");
    assert!(line.contains("ENOENT"));
    assert_eq!(line, "Failed to start Node API server: ENOENT");
}

#[test]
fn rejected_line_names_the_pid() {
    assert_eq!(rejected_line(8), "Duplicate API server start rejected (PID: 8)");
}

#[test]
fn close_line_is_the_cleanup_announcement() {
    assert_eq!(close_line(), "Window closing, cleaning up API server...");
}

#[test]
fn server_path_is_the_same_in_both_modes() {
    let debug = resolve_server_path(true);
    let release = resolve_server_path(false);
    assert_eq!(debug, release);
    assert_eq!(debug, "./server/crm-export-server.cjs");
}
