use xbase::broadcast::{Broadcast, ChannelState};
use xbase::event::{Event, EventKind, IgnoreMatcher, InternalState, NotifyKind, RawEvent};
use xbase::message::{Message, MessageLevel, StatuslineState, Task};
use xbase::error::Error;
use xbase::project::{report_recompile, PackageInfo, SwiftProject, TargetDecl};
use xbase::watch::{should_recompile, Action, Dispatch, WatchService};

fn raw(kind: NotifyKind, path: &str) -> RawEvent {
    RawEvent { kind, paths: vec![path.to_string()] }
}

fn matcher(patterns: &[&str]) -> IgnoreMatcher {
    IgnoreMatcher::new("/tmp/proj", patterns.iter().map(|p| p.to_string()).collect()).unwrap()
}

#[test]
fn ignored_path_gives_no_event() {
    let ignore = matcher(&["**/.build/**"]);
    let mut st = InternalState::new(0);
    let e = Event::new(&ignore, &mut st, &raw(NotifyKind::ModifyData, "/tmp/proj/.build/x.o"), 10);
    assert!(e.is_none());
    let d = Dispatch::start(&e, 3);
    assert_eq!(d.action(), Action::Finish);
    assert_eq!(st.last_path(), "");
}

#[test]
fn patterns_are_relative_to_root() {
    let ignore = matcher(&["build/**", "*.o"]);
    assert!(ignore.is_match("/tmp/proj/build/a.swift"));
    assert!(ignore.is_match("/tmp/proj/x.o"));
    assert!(!ignore.is_match("/tmp/proj/src/build/a.swift"));
    assert!(!ignore.is_match("/tmp/other/build/a.swift"));
    assert!(!ignore.is_match("/tmp/proj/main.swift"));
}

#[test]
fn invalid_pattern_is_refused() {
    assert!(IgnoreMatcher::new("/tmp/proj", vec!["a/**b".to_string()]).is_none());
}

#[test]
fn other_kinds_give_no_event() {
    let ignore = matcher(&[]);
    let mut st = InternalState::new(0);
    assert!(Event::new(&ignore, &mut st, &raw(NotifyKind::Access, "/tmp/proj/a"), 1).is_none());
    assert!(Event::new(&ignore, &mut st, &raw(NotifyKind::ModifyMetadata, "/tmp/proj/a"), 1).is_none());
    let empty = RawEvent { kind: NotifyKind::Create, paths: vec![] };
    assert!(Event::new(&ignore, &mut st, &empty, 1).is_none());
}

#[test]
fn kinds_map_to_events() {
    assert_eq!(EventKind::from_notify(NotifyKind::Create), EventKind::Create);
    assert_eq!(EventKind::from_notify(NotifyKind::Remove), EventKind::Remove);
    assert_eq!(EventKind::from_notify(NotifyKind::ModifyName), EventKind::Rename);
    assert_eq!(EventKind::from_notify(NotifyKind::ModifyData), EventKind::ContentUpdate);
    assert_eq!(EventKind::from_notify(NotifyKind::Any), EventKind::Other);
}

#[test]
fn repeat_within_window_is_seen() {
    let ignore = matcher(&["**/.build/**"]);
    let mut st = InternalState::new(0);
    let first = Event::new(&ignore, &mut st, &raw(NotifyKind::ModifyData, "/tmp/proj/a.swift"), 1000).unwrap();
    assert!(!first.is_seen());
    st.update_debounce(1005);
    assert_eq!(st.last_run(1050), 45);
    let second = Event::new(&ignore, &mut st, &raw(NotifyKind::ModifyData, "/tmp/proj/a.swift"), 1050).unwrap();
    assert!(second.is_seen());
    st.update_debounce(1050);
    let later = Event::new(&ignore, &mut st, &raw(NotifyKind::ModifyData, "/tmp/proj/a.swift"), 1200).unwrap();
    assert!(!later.is_seen());
    let other = Event::new(&ignore, &mut st, &raw(NotifyKind::ModifyData, "/tmp/proj/b.swift"), 1201).unwrap();
    assert!(!other.is_seen());
    assert_eq!(other.file_name(), "b.swift");
    assert_eq!(other.path(), "/tmp/proj/b.swift");
    assert_eq!(st.last_path(), "/tmp/proj/b.swift");
}

#[test]
fn config_file_change_triggers_regeneration() {
    let ignore = matcher(&["**/.build/**"]);
    let mut st = InternalState::new(0);
    let e = Event::new(&ignore, &mut st, &raw(NotifyKind::ModifyData, "/tmp/proj/Package.swift"), 500).unwrap();
    assert!(should_recompile(&e, "Package.swift", true));
    let p = SwiftProject::new("/tmp/proj", vec![]);
    assert!(p.should_generate(&e));
    let src = Event::new(&ignore, &mut st, &raw(NotifyKind::ModifyData, "/tmp/proj/main.swift"), 900).unwrap();
    assert!(!should_recompile(&src, "Package.swift", true));
    assert!(!p.should_generate(&src));
    let renamed = Event::new(&ignore, &mut st, &raw(NotifyKind::ModifyName, "/tmp/proj/x.swift"), 2000).unwrap();
    assert!(should_recompile(&renamed, "Package.swift", false));
    assert!(!should_recompile(&renamed, "Package.swift", true));
}

#[test]
fn reactor_discard_removes_it() {
    let mut set = WatchService::new();
    assert!(!set.add("build"));
    assert!(!set.add("run"));
    assert!(set.add("build"));
    assert_eq!(set.len(), 2);

    let ignore = matcher(&[]);
    let mut st = InternalState::new(0);
    let e = Event::new(&ignore, &mut st, &raw(NotifyKind::Remove, "/tmp/proj/main.swift"), 10);
    let mut d = Dispatch::start(&e, set.len());
    assert_eq!(d.action(), Action::AskDiscard(0));
    d.step(false);
    assert_eq!(d.action(), Action::AskTrigger(0));
    d.step(true);
    assert_eq!(d.action(), Action::RunTrigger(0));
    d.step(true);
    assert_eq!(d.action(), Action::AskDiscard(1));
    d.step(true);
    assert_eq!(d.action(), Action::RunDiscard(1));
    d.step(true);
    assert_eq!(d.action(), Action::Finish);
    set.remove_discarded(&d);
    assert_eq!(set.len(), 1);
    assert_eq!(set.key(0), "build");
    assert_eq!(set.position("run"), None);

    assert!(set.remove("build"));
    assert!(!set.remove("build"));
    let d = Dispatch::start(&e, set.len());
    assert_eq!(d.action(), Action::Finish);
}

#[test]
fn connected_messages_arrive_in_order() {
    let mut b = Broadcast::new("/tmp/proj", "/tmp/xbase/proj.socket");
    assert_eq!(b.state_now(), ChannelState::Idle);
    b.info("dropped before a peer");
    b.listen();
    b.connect();
    assert_eq!(b.state_now(), ChannelState::Connected);
    b.info("recompiling ..");
    b.update_statusline(StatuslineState::Processing);
    b.log_error("bad");
    let first = b.next_message().unwrap();
    assert_eq!(first, Message::Notify { msg: "recompiling ..".to_string(), level: MessageLevel::Info });
    assert_eq!(
        b.next_message(),
        Some(Message::Execute(Task::UpdateStatusline(StatuslineState::Processing)))
    );
    assert_eq!(b.next_message(), Some(Message::log_error("bad")));
    assert_eq!(b.next_message(), None);
    assert_eq!(b.address(), "/tmp/xbase/proj.socket");
    assert_eq!(b.root(), "/tmp/proj");
}

#[test]
fn disconnect_drops_and_abort_is_final() {
    let mut b = Broadcast::new("/tmp/proj", "/tmp/s");
    b.listen();
    b.connect();
    b.warn("one");
    b.disconnect();
    assert_eq!(b.next_message(), None);
    b.success("lost");
    b.connect();
    assert_eq!(b.next_message(), None);
    b.open_logger();
    assert_eq!(b.next_message(), Some(Message::Execute(Task::OpenLogger)));
    b.abort();
    b.connect();
    assert_eq!(b.state_now(), ChannelState::Aborted);
    b.reload_lsp_server();
    assert_eq!(b.next_message(), None);
}

#[test]
fn step_and_separator_lines() {
    let mut b = Broadcast::new("/tmp/proj", "/tmp/s");
    b.listen();
    b.connect();
    b.log_step("Build");
    b.log_separator();
    let dots = ".".repeat(73);
    assert_eq!(b.next_message(), Some(Message::log_info("Build")));
    assert_eq!(b.next_message(), Some(Message::log_info(&dots)));
    assert_eq!(b.next_message(), Some(Message::log_info(&dots)));
    b.success("done");
    assert_eq!(
        b.next_message(),
        Some(Message::Notify { msg: "done".to_string(), level: MessageLevel::Success })
    );
    b.trace("t");
    b.debug("d");
    b.error("e");
    b.log_info("i");
    b.log_warn("w");
    b.log_trace("lt");
    b.log_debug("ld");
    assert_eq!(b.next_message(), Some(Message::notify_trace("t")));
    assert_eq!(b.next_message(), Some(Message::notify_debug("d")));
    assert_eq!(b.next_message(), Some(Message::notify_error("e")));
    assert_eq!(b.next_message(), Some(Message::log_info("i")));
    assert_eq!(b.next_message(), Some(Message::log_warn("w")));
    assert_eq!(b.next_message(), Some(Message::log_trace("lt")));
    assert_eq!(b.next_message(), Some(Message::log_debug("ld")));
}

fn connected() -> Broadcast {
    let mut b = Broadcast::new("/tmp/proj", "/tmp/s");
    b.listen();
    b.connect();
    b
}

fn status(st: StatuslineState) -> Option<Message> {
    Some(Message::Execute(Task::UpdateStatusline(st)))
}

#[test]
fn failed_build_opens_logger() {
    let mut b = connected();
    let mut p = SwiftProject::new("/tmp/proj", vec![]);
    let r = p.finish_generate(&mut b, false, Err(Error::Message("unused".to_string())));
    assert_eq!(r, Err(Error::Generate));
    assert_eq!(b.next_message(), status(StatuslineState::Failure));
    assert_eq!(b.next_message(), Some(Message::Execute(Task::OpenLogger)));
    assert_eq!(b.next_message(), None);
}

#[test]
fn successful_build_reads_description() {
    let mut b = connected();
    let mut p = SwiftProject::new("/tmp/proj", vec![]);
    let info = PackageInfo {
        name: Some("proj".to_string()),
        targets: Some(vec![TargetDecl { name: Some("App".to_string()), kind: None }]),
    };
    assert_eq!(p.finish_generate(&mut b, true, Ok(info)), Ok(()));
    assert_eq!(p.name(), "proj");
    assert_eq!(b.next_message(), status(StatuslineState::Success));
    let bad = PackageInfo { name: None, targets: Some(vec![]) };
    assert!(matches!(p.finish_generate(&mut b, true, Ok(bad)), Err(Error::DefinitionParsing(_))));
    assert_eq!(p.name(), "proj");
    assert_eq!(b.next_message(), status(StatuslineState::Failure));
    let unread = Err(Error::DefinitionParsing("no output".to_string()));
    assert_eq!(
        p.finish_generate(&mut b, true, unread),
        Err(Error::DefinitionParsing("no output".to_string()))
    );
    assert_eq!(b.next_message(), status(StatuslineState::Failure));
}

#[test]
fn recompile_reports() {
    let mut b = connected();
    report_recompile(&mut b, &Ok(()));
    report_recompile(&mut b, &Err(Error::Generate));
    assert_eq!(b.next_message(), Some(Message::notify_info("recompiled")));
    assert_eq!(
        b.next_message(),
        Some(Message::notify_error("Fail to recompile generation failed"))
    );
    assert_eq!(Error::Run("x".to_string()).describe(), "run: x");
}

#[test]
fn receive_ignored_event_reaches_no_reactor() {
    let mut set = WatchService::new();
    set.add("build");
    let ignore = matcher(&["**/.build/**"]);
    let mut st = InternalState::new(0);
    let (e, d) = set.receive(&ignore, &mut st, &raw(NotifyKind::Create, "/tmp/proj/.build/x.o"), 5);
    assert!(e.is_none());
    assert_eq!(d.action(), Action::Finish);
    assert_eq!(st.last_path(), "");
    let (e, d) = set.receive(&ignore, &mut st, &raw(NotifyKind::Create, "/tmp/proj/a.swift"), 6);
    assert!(e.unwrap().is_create_event());
    assert_eq!(d.action(), Action::AskDiscard(0));
    assert_eq!(st.last_path(), "/tmp/proj/a.swift");
}
