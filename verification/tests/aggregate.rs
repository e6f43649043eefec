use codex_mcp::ExitOutcome;
use codex_mcp::RunState;

fn lines(ls: &[&str]) -> Vec<String> {
    ls.iter().map(|l| l.to_string()).collect()
}

fn clean_exit() -> ExitOutcome {
    ExitOutcome::Exited {
        ok: true,
        status: "exit status: 0".to_string(),
    }
}

#[test]
fn test_clean_stream_aggregates_reply_and_session() {
    let mut st = RunState::new(false);
    st.process_lines(&lines(&[
        "{\"item\":{\"type\":\"agent_message\",\"text\":\"Hello \"}}",
        "{\"item\":{\"type\":\"agent_message\",\"text\":\"world\"}}",
        "{\"thread_id\":\"abc123\"}",
        "{\"type\":\"turn.completed\"}",
    ]));
    let r = st.finalize(clean_exit());
    assert!(r.success);
    assert_eq!(r.session_id.as_deref(), Some("abc123"));
    assert_eq!(r.agent_messages.as_deref(), Some("Hello world"));
    assert!(r.error.is_none());
    assert!(r.all_messages.is_none());
}

#[test]
fn test_reconnect_notice_is_ignored() {
    let mut st = RunState::new(false);
    st.process_lines(&lines(&[
        "{\"type\":\"error\",\"message\":\"Reconnecting... attempt 2\"}",
        "{\"item\":{\"type\":\"agent_message\",\"text\":\"done\"}}",
        "{\"thread_id\":\"t1\"}",
        "{\"type\":\"turn.completed\"}",
    ]));
    let r = st.finalize(clean_exit());
    assert!(r.success);
    assert_eq!(r.session_id.as_deref(), Some("t1"));
    assert_eq!(r.agent_messages.as_deref(), Some("done"));
    assert!(r.error.is_none());
}

#[test]
fn test_missing_session_identity_fails() {
    let mut st = RunState::new(false);
    st.process_lines(&lines(&[
        "{\"item\":{\"type\":\"agent_message\",\"text\":\"partial answer\"}}",
        "{\"type\":\"turn.completed\"}",
    ]));
    let r = st.finalize(clean_exit());
    assert!(!r.success);
    let err = r.error.expect("error text expected");
    assert!(err.contains("Failed to get `SESSION_ID`"));
    // The captured reply is still included for diagnosis.
    assert_eq!(r.agent_messages.as_deref(), Some("partial answer"));
}

#[test]
fn test_missing_reply_fails() {
    let mut st = RunState::new(false);
    st.process_lines(&lines(&[
        "{\"thread_id\":\"t2\"}",
        "{\"type\":\"turn.completed\"}",
    ]));
    let r = st.finalize(clean_exit());
    assert!(!r.success);
    let err = r.error.expect("error text expected");
    assert!(err.contains("Failed to get `agent_messages`"));
    assert!(err.contains("return_all_messages"));
    assert_eq!(r.session_id.as_deref(), Some("t2"));
    assert!(r.agent_messages.is_none());
}

#[test]
fn test_non_zero_exit_fails_but_keeps_reply() {
    let mut st = RunState::new(false);
    st.process_lines(&lines(&[
        "{\"item\":{\"type\":\"agent_message\",\"text\":\"all good\"}}",
        "{\"thread_id\":\"t3\"}",
        "{\"type\":\"turn.completed\"}",
    ]));
    let r = st.finalize(ExitOutcome::Exited {
        ok: false,
        status: "exit status: 1".to_string(),
    });
    assert!(!r.success);
    let err = r.error.expect("error text expected");
    assert!(err.contains("[codex exit] exit status: 1"));
    assert_eq!(r.session_id.as_deref(), Some("t3"));
    assert_eq!(r.agent_messages.as_deref(), Some("all good"));
}

#[test]
fn test_malformed_line_does_not_stop_processing() {
    let mut st = RunState::new(false);
    st.process_lines(&lines(&[
        "{\"item\":{\"type\":\"agent_message\",\"text\":\"first \"}}",
        "this is not json",
        "{\"item\":{\"type\":\"agent_message\",\"text\":\"second\"}}",
        "{\"thread_id\":\"t4\"}",
        "{\"type\":\"turn.completed\"}",
    ]));
    let r = st.finalize(clean_exit());
    assert!(!r.success);
    let err = r.error.expect("error text expected");
    assert!(err.contains("[json decode error]"));
    assert!(err.contains("this is not json"));
    // Lines after the malformed one were still processed.
    assert_eq!(r.agent_messages.as_deref(), Some("first second"));
    assert_eq!(r.session_id.as_deref(), Some("t4"));
}

#[test]
fn test_wait_timeout_is_reported() {
    let mut st = RunState::new(false);
    st.process_lines(&lines(&[
        "{\"item\":{\"type\":\"agent_message\",\"text\":\"slow child\"}}",
        "{\"thread_id\":\"t5\"}",
        "{\"type\":\"turn.completed\"}",
    ]));
    let r = st.finalize(ExitOutcome::WaitTimeout {
        ceiling: "5s".to_string(),
    });
    assert!(!r.success);
    let err = r.error.expect("error text expected");
    assert!(err.contains("[codex wait timeout] 5s"));
}

#[test]
fn test_wait_error_is_reported() {
    let mut st = RunState::new(false);
    st.process_lines(&lines(&[
        "{\"item\":{\"type\":\"agent_message\",\"text\":\"x\"}}",
        "{\"thread_id\":\"t6\"}",
    ]));
    let r = st.finalize(ExitOutcome::WaitError {
        error: "No child processes".to_string(),
    });
    assert!(!r.success);
    let err = r.error.expect("error text expected");
    assert!(err.contains("[codex wait error] No child processes"));
}

#[test]
fn test_failure_event_logs_nested_message() {
    let mut st = RunState::new(false);
    st.process_lines(&lines(&[
        "{\"type\":\"task_failed\",\"error\":{\"message\":\"boom\"}}",
        "{\"item\":{\"type\":\"agent_message\",\"text\":\"y\"}}",
        "{\"thread_id\":\"t7\"}",
        "{\"type\":\"turn.completed\"}",
    ]));
    let r = st.finalize(clean_exit());
    assert!(!r.success);
    let err = r.error.expect("error text expected");
    assert!(err.contains("[codex error] boom"));
}

#[test]
fn test_error_event_with_message_fails() {
    let mut st = RunState::new(false);
    st.process_lines(&lines(&[
        "{\"type\":\"error\",\"message\":\"stream disconnected\"}",
        "{\"item\":{\"type\":\"agent_message\",\"text\":\"z\"}}",
        "{\"thread_id\":\"t8\"}",
        "{\"type\":\"turn.completed\"}",
    ]));
    let r = st.finalize(clean_exit());
    assert!(!r.success);
    let err = r.error.expect("error text expected");
    assert!(err.contains("[codex error] stream disconnected"));
}

#[test]
fn test_completion_marker_stops_consumption() {
    let mut st = RunState::new(false);
    st.process_lines(&lines(&[
        "{\"item\":{\"type\":\"agent_message\",\"text\":\"kept\"}}",
        "{\"thread_id\":\"t9\"}",
        "{\"type\":\"turn.completed\"}",
        "{\"item\":{\"type\":\"agent_message\",\"text\":\" dropped\"}}",
    ]));
    let r = st.finalize(clean_exit());
    assert!(r.success);
    assert_eq!(r.agent_messages.as_deref(), Some("kept"));
}

#[test]
fn test_retention_keeps_decoded_lines_only() {
    let mut st = RunState::new(true);
    st.process_lines(&lines(&[
        "  {\"thread_id\":\"t10\"}  ",
        "",
        "not json at all",
        "{\"item\":{\"type\":\"agent_message\",\"text\":\"m\"}}",
        "{\"type\":\"turn.completed\"}",
    ]));
    let r = st.finalize(clean_exit());
    let all = r.all_messages.expect("retained events expected");
    // The blank line and the malformed line are not retained; the decoded
    // lines are kept verbatim, trimmed, in order.
    assert_eq!(
        all,
        vec![
            "{\"thread_id\":\"t10\"}",
            "{\"item\":{\"type\":\"agent_message\",\"text\":\"m\"}}",
            "{\"type\":\"turn.completed\"}",
        ]
    );
}

#[test]
fn test_session_identity_last_write_wins() {
    let mut st = RunState::new(false);
    st.process_lines(&lines(&[
        "{\"thread_id\":\"old\"}",
        "{\"item\":{\"type\":\"agent_message\",\"text\":\"m\"}}",
        "{\"thread_id\":\"new\"}",
        "{\"type\":\"turn.completed\"}",
    ]));
    let r = st.finalize(clean_exit());
    assert!(r.success);
    assert_eq!(r.session_id.as_deref(), Some("new"));
}

#[test]
fn test_non_string_fields_are_ignored() {
    let mut st = RunState::new(false);
    st.process_lines(&lines(&[
        "{\"thread_id\":42}",
        "{\"item\":{\"type\":\"agent_message\",\"text\":\"m\"}}",
        "{\"thread_id\":\"tid\"}",
        "{\"type\":7}",
        "{\"type\":\"turn.completed\"}",
    ]));
    let r = st.finalize(clean_exit());
    assert!(r.success);
    assert_eq!(r.session_id.as_deref(), Some("tid"));
}
