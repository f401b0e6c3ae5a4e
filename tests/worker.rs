use sqlite_ui::target::{DbPath, PathError};
use sqlite_ui::worker::{
    Action, DbWorker, Event, MsgIn, Notification, OpenError, QueryError, Reaction,
};

fn cmd(w: &mut DbWorker, m: MsgIn) -> Reaction {
    w.step(Event::Command(m))
}

fn open_memory(w: &mut DbWorker) {
    let r = cmd(w, MsgIn::OpenDatabase { db_path: None });
    assert!(r.notes.is_empty());
    assert!(matches!(r.action, Action::Connect { ref target } if target == "sqlite:file::memory:?cache=shared"));
    assert!(matches!(w, DbWorker::Opening));
    let r = w.step(Event::Connected);
    assert!(matches!(r.notes.as_slice(), [Notification::Opened]));
    assert!(matches!(r.action, Action::Wait));
    assert!(matches!(w, DbWorker::Open { query_running: false }));
}

#[test]
fn new_worker_is_closed() {
    assert!(matches!(DbWorker::new(), DbWorker::Closed));
}

#[test]
fn close_when_closed_is_silent() {
    let mut w = DbWorker::new();
    let r = cmd(&mut w, MsgIn::CloseDatabase);
    assert!(r.notes.is_empty());
    assert!(matches!(r.action, Action::Wait));
    assert!(matches!(w, DbWorker::Closed));
}

#[test]
fn open_non_utf8_fails_once() {
    let mut w = DbWorker::new();
    let r = cmd(&mut w, MsgIn::OpenDatabase { db_path: Some(DbPath::NotUtf8("x".to_string())) });
    assert_eq!(r.notes.len(), 1);
    assert!(matches!(
        r.notes[0],
        Notification::OpenFailed(OpenError::Path(PathError::NotUtf8 { .. }))
    ));
    assert!(matches!(r.action, Action::Wait));
    assert!(matches!(w, DbWorker::Closed));
}

#[test]
fn open_query_close_in_order() {
    let mut w = DbWorker::new();
    open_memory(&mut w);
    let r = cmd(&mut w, MsgIn::RunQuery { sql: "SELECT 1".to_string() });
    assert!(r.notes.is_empty());
    assert!(matches!(r.action, Action::Execute { ref sql } if sql == "SELECT 1"));
    let r = w.step(Event::QueryDone { rows: 1 });
    assert!(matches!(r.notes.as_slice(), [Notification::QueryCompleted { rows: 1 }]));
    let r = cmd(&mut w, MsgIn::CloseDatabase);
    assert!(r.notes.is_empty());
    assert!(matches!(r.action, Action::Disconnect));
    assert!(matches!(w, DbWorker::Closing { .. }));
    let r = w.step(Event::Disconnected);
    assert!(matches!(r.notes.as_slice(), [Notification::Closed]));
    assert!(matches!(r.action, Action::Wait));
    assert!(matches!(w, DbWorker::Closed));
}

#[test]
fn query_failure_keeps_connection() {
    let mut w = DbWorker::new();
    open_memory(&mut w);
    cmd(&mut w, MsgIn::RunQuery { sql: "SELEC".to_string() });
    let r = w.step(Event::QueryFailed { message: "syntax error".to_string() });
    assert!(matches!(
        r.notes.as_slice(),
        [Notification::QueryError(QueryError::Failed { message })] if message == "syntax error"
    ));
    assert!(matches!(w, DbWorker::Open { query_running: false }));
}

#[test]
fn quit_while_open_closes_once() {
    let mut w = DbWorker::new();
    open_memory(&mut w);
    let r = cmd(&mut w, MsgIn::Quit);
    assert!(r.notes.is_empty());
    assert!(matches!(r.action, Action::Disconnect));
    let r = w.step(Event::Disconnected);
    assert!(matches!(r.notes.as_slice(), [Notification::Closed]));
    assert!(matches!(r.action, Action::Exit));
    assert!(matches!(w, DbWorker::Closed));
}

#[test]
fn quit_when_closed_exits() {
    let mut w = DbWorker::new();
    let r = cmd(&mut w, MsgIn::Quit);
    assert!(r.notes.is_empty());
    assert!(matches!(r.action, Action::Exit));
}

#[test]
fn query_while_closed_is_rejected() {
    let mut w = DbWorker::new();
    let r = cmd(&mut w, MsgIn::RunQuery { sql: "SELECT 1".to_string() });
    assert!(matches!(r.notes.as_slice(), [Notification::QueryError(QueryError::NotOpen)]));
    let r = cmd(&mut w, MsgIn::CancelQuery);
    assert!(matches!(r.notes.as_slice(), [Notification::QueryError(QueryError::NoQueryRunning)]));
    assert!(matches!(w, DbWorker::Closed));
}

#[test]
fn cancel_running_query() {
    let mut w = DbWorker::new();
    open_memory(&mut w);
    cmd(&mut w, MsgIn::RunQuery { sql: "SELECT 1".to_string() });
    let r = cmd(&mut w, MsgIn::CancelQuery);
    assert!(matches!(r.action, Action::Abort));
    let r = w.step(Event::QueryAborted);
    assert!(matches!(r.notes.as_slice(), [Notification::QueryError(QueryError::Cancelled)]));
    assert!(matches!(w, DbWorker::Open { query_running: false }));
}

#[test]
fn commands_during_query_are_deferred() {
    let mut w = DbWorker::new();
    open_memory(&mut w);
    cmd(&mut w, MsgIn::RunQuery { sql: "SELECT 1".to_string() });
    let r = cmd(&mut w, MsgIn::CloseDatabase);
    assert!(r.notes.is_empty());
    assert!(matches!(r.action, Action::Defer(MsgIn::CloseDatabase)));
    assert!(matches!(w, DbWorker::Open { query_running: true }));
}

#[test]
fn reopen_closes_first() {
    let mut w = DbWorker::new();
    open_memory(&mut w);
    let r = cmd(&mut w, MsgIn::OpenDatabase { db_path: Some(DbPath::Utf8("a?b".to_string())) });
    assert!(matches!(r.action, Action::Disconnect));
    let r = w.step(Event::Disconnected);
    assert!(matches!(r.notes.as_slice(), [Notification::Closed]));
    assert!(matches!(r.action, Action::Connect { ref target } if target == "sqlite:file:a%3fb"));
    assert!(matches!(w, DbWorker::Opening));
}

#[test]
fn connect_failure_returns_to_closed() {
    let mut w = DbWorker::new();
    cmd(&mut w, MsgIn::OpenDatabase { db_path: Some(DbPath::Utf8("/nope/db".to_string())) });
    let r = w.step(Event::ConnectFailed { message: "unable to open".to_string() });
    assert!(matches!(
        r.notes.as_slice(),
        [Notification::OpenFailed(OpenError::Connect { message })] if message == "unable to open"
    ));
    assert!(matches!(w, DbWorker::Closed));
}

#[test]
fn stray_io_event_is_ignored() {
    let mut w = DbWorker::new();
    let r = w.step(Event::Disconnected);
    assert!(r.notes.is_empty());
    assert!(matches!(r.action, Action::Wait));
    assert!(matches!(w, DbWorker::Closed));
}
