use tunnel_manager::forwarder::ProgramCall;
use tunnel_manager::models::ReachabilityResult;
use tunnel_manager::probe::{
    check_target_reachability, probe_attempt, test_command, test_connection, ConnectAttempt,
    ConnectOutcome, TestRun, PROBE_TIMEOUT_SECS,
};

#[test]
fn probe_connects_to_host_and_port_within_three_seconds() {
    assert_eq!(
        probe_attempt("10.0.0.5", 5432),
        ConnectAttempt { address: "10.0.0.5:5432".to_string(), timeout_secs: 3 }
    );
    assert_eq!(PROBE_TIMEOUT_SECS, 3);
}

#[test]
fn connection_means_reachable() {
    assert_eq!(check_target_reachability(ConnectOutcome::Connected), ReachabilityResult::Reachable);
}

#[test]
fn refusal_means_host_up_and_port_closed() {
    assert_eq!(
        check_target_reachability(ConnectOutcome::Refused),
        ReachabilityResult::HostReachablePortClosed
    );
}

#[test]
fn other_failure_means_unreachable_with_its_reason() {
    assert_eq!(
        check_target_reachability(ConnectOutcome::Failed(
            "failed to lookup address information".to_string()
        )),
        ReachabilityResult::HostUnreachable("failed to lookup address information".to_string())
    );
}

#[test]
fn timeout_means_unreachable() {
    assert_eq!(
        check_target_reachability(ConnectOutcome::TimedOut),
        ReachabilityResult::HostUnreachable("Connection timed out".to_string())
    );
}

#[test]
fn test_runs_nc_with_host_and_port() {
    assert_eq!(
        test_command("10.0.0.5", 5432),
        ProgramCall {
            program: "nc".to_string(),
            args: vec!["-zvw3".to_string(), "10.0.0.5".to_string(), "5432".to_string()]
        }
    );
}

fn finished(stdout: &str, stderr: &str, success: bool) -> TestRun {
    TestRun::Finished { stdout: stdout.to_string(), stderr: stderr.to_string(), success }
}

#[test]
fn test_log_joins_output_and_errors_with_a_newline() {
    let response = test_connection("h", 1, finished("out", "err", true));
    assert!(response.success);
    assert_eq!(response.log, "out\nerr");
}

#[test]
fn test_log_of_one_stream_is_that_stream() {
    assert_eq!(test_connection("h", 1, finished("out\n", "", true)).log, "out\n");
    let response = test_connection("h", 1, finished("", "nc: connect failed", false));
    assert!(!response.success);
    assert_eq!(response.log, "nc: connect failed");
}

#[test]
fn test_log_of_a_silent_success() {
    let response = test_connection("10.0.0.5", 5432, finished("", "", true));
    assert!(response.success);
    assert_eq!(response.log, "Connection succeeded");
}

#[test]
fn test_log_of_a_silent_failure_names_the_target() {
    let response = test_connection("10.0.0.5", 5432, finished("", "", false));
    assert!(!response.success);
    assert_eq!(response.log, "Connection to 10.0.0.5:5432 failed (no output)");
}

#[test]
fn test_that_could_not_run_has_failed() {
    let response = test_connection(
        "10.0.0.5",
        5432,
        TestRun::NotStarted { reason: "No such file or directory".to_string() },
    );
    assert!(!response.success);
    assert_eq!(response.log, "Failed to run nc: No such file or directory");
}
