use xbase::message::{Message, MessageLevel, ProcessItem, StatuslineState, Task};

fn log(msg: &str, level: MessageLevel) -> Message {
    Message::Log { msg: msg.to_string(), level }
}

#[test]
fn constructors_set_kind_and_level() {
    assert_eq!(
        Message::notify_error("e"),
        Message::Notify { msg: "e".to_string(), level: MessageLevel::Error }
    );
    assert_eq!(
        Message::notify_warn("w"),
        Message::Notify { msg: "w".to_string(), level: MessageLevel::Warn }
    );
    assert_eq!(
        Message::notify_trace("t"),
        Message::Notify { msg: "t".to_string(), level: MessageLevel::Trace }
    );
    assert_eq!(
        Message::notify_debug("d"),
        Message::Notify { msg: "d".to_string(), level: MessageLevel::Debug }
    );
    assert_eq!(Message::log_error("e"), log("e", MessageLevel::Error));
    assert_eq!(Message::log_warn("w"), log("w", MessageLevel::Warn));
    assert_eq!(Message::log_trace("t"), log("t", MessageLevel::Trace));
    assert_eq!(Message::log_debug("d"), log("d", MessageLevel::Debug));
}

#[test]
fn log_info_is_info() {
    assert_eq!(Message::log_info("hello"), log("hello", MessageLevel::Info));
}

#[test]
fn stdout_error_line_is_error() {
    let m = Message::from_process_item(ProcessItem::Output("fatal error: x".to_string()));
    assert_eq!(m, log("fatal error: x", MessageLevel::Error));
}

#[test]
fn stdout_classification_ignores_case() {
    let m = Message::from_process_item(ProcessItem::Output("ERROR here".to_string()));
    assert_eq!(m, log("ERROR here", MessageLevel::Error));
    let m = Message::from_process_item(ProcessItem::Output("Warning: unused".to_string()));
    assert_eq!(m, log("Warning: unused", MessageLevel::Warn));
    let m = Message::from_process_item(ProcessItem::Output("Compiling foo".to_string()));
    assert_eq!(m, log("Compiling foo", MessageLevel::Info));
}

#[test]
fn stderr_line_is_error() {
    let m = Message::from_process_item(ProcessItem::Error("all good".to_string()));
    assert_eq!(m, log("all good", MessageLevel::Error));
}

#[test]
fn exit_codes_close_the_stream() {
    let m = Message::from_process_item(ProcessItem::Exit("2".to_string()));
    assert_eq!(m, log("Exit 2", MessageLevel::Error));
    let m = Message::from_process_item(ProcessItem::Exit("0".to_string()));
    assert_eq!(m, log("Success", MessageLevel::Info));
    let m = Message::from_process_item(ProcessItem::Exit(" 0\n".to_string()));
    assert_eq!(m, log("Success", MessageLevel::Info));
}

#[test]
fn output_line_with_given_lower_case() {
    let m = Message::from_output_line("X".to_string(), "a warning");
    assert_eq!(m, log("X", MessageLevel::Warn));
    let m = Message::from_exit_code("7", "7");
    assert_eq!(m, log("Exit 7", MessageLevel::Error));
}

#[test]
fn level_names_round_trip() {
    let all = [
        MessageLevel::Trace,
        MessageLevel::Debug,
        MessageLevel::Info,
        MessageLevel::Warn,
        MessageLevel::Error,
        MessageLevel::Success,
    ];
    for l in all {
        assert_eq!(MessageLevel::from_name(l.name()), Some(l));
    }
    assert_eq!(MessageLevel::Warn.name(), "Warn");
    assert_eq!(MessageLevel::from_name("warn"), None);
}

#[test]
fn statusline_names_round_trip() {
    let all = [
        StatuslineState::Success,
        StatuslineState::Failure,
        StatuslineState::Processing,
        StatuslineState::Watching,
        StatuslineState::Running,
    ];
    for s in all {
        assert_eq!(StatuslineState::from_name(s.name()), Some(s));
    }
    assert_eq!(StatuslineState::Processing.name(), "Processing");
    assert_eq!(StatuslineState::from_name("Idle"), None);
}

#[test]
fn json_lines_follow_the_schema() {
    let m = Message::Notify { msg: "recompiled".to_string(), level: MessageLevel::Info };
    assert_eq!(
        m.to_json_line(),
        "{\"Notify\":{\"msg\":\"recompiled\",\"level\":\"Info\"}}\n".to_string()
    );
    let m = log("a \"b\"", MessageLevel::Error);
    assert_eq!(
        m.to_json_line(),
        "{\"Log\":{\"msg\":\"a \\\"b\\\"\",\"level\":\"Error\"}}\n".to_string()
    );
    let m = Message::Execute(Task::UpdateStatusline(StatuslineState::Processing));
    assert_eq!(
        m.to_json_line(),
        "{\"Execute\":{\"UpdateStatusline\":\"Processing\"}}\n".to_string()
    );
    assert_eq!(
        Message::Execute(Task::OpenLogger).to_json_line(),
        "{\"Execute\":\"OpenLogger\"}\n".to_string()
    );
    assert_eq!(
        Message::Execute(Task::ReloadLspServer).to_json_line(),
        "{\"Execute\":\"ReloadLspServer\"}\n".to_string()
    );
}

#[test]
fn json_line_with_given_quoting() {
    let m = Message::notify_warn("ignored");
    assert_eq!(
        m.line_with_quoted("\"q\""),
        "{\"Notify\":{\"msg\":\"q\",\"level\":\"Warn\"}}\n".to_string()
    );
}

#[test]
fn plain_text_becomes_info_notification() {
    let m: Message = "saved".to_string().into();
    assert_eq!(m, Message::Notify { msg: "saved".to_string(), level: MessageLevel::Info });
    assert_eq!(Message::notify_info("saved"), m);
}
