use zero2prod::logging::LogLevel;
use zero2prod::tasks::{report_exit, TaskOutcome};

#[test]
fn normal_exit_is_reported_as_info() {
    let report = report_exit("api", TaskOutcome::Exited);
    assert_eq!(report.level, LogLevel::Info);
    assert_eq!(report.text, "api has exited");
    assert_eq!(report.error_message, None);
    assert_eq!(report.error_cause_chain, None);
}

#[test]
fn failed_task_is_reported_as_error() {
    let report = report_exit(
        "background worker",
        TaskOutcome::Failed { message: "db down".to_owned(), cause_chain: "db down\nCaused by: io".to_owned() },
    );
    assert_eq!(report.level, LogLevel::Error);
    assert_eq!(report.text, "background worker failed");
    assert_eq!(report.error_message.as_deref(), Some("db down"));
    assert_eq!(report.error_cause_chain.as_deref(), Some("db down\nCaused by: io"));
}

#[test]
fn aborted_task_is_reported_as_error() {
    let report = report_exit(
        "api",
        TaskOutcome::Aborted { message: "task 7 panicked".to_owned(), cause_chain: "JoinError::Panic".to_owned() },
    );
    assert_eq!(report.level, LogLevel::Error);
    assert_eq!(report.text, "api task failed to complete");
    assert_eq!(report.error_message.as_deref(), Some("task 7 panicked"));
}
