use vstd::prelude::*;
use crate::target::{build_connection_str, target_of, DbPath, PathError};

verus! {

/// Commands to the worker, in the order the caller sent them.
#[derive(Debug)]
pub enum MsgIn {
    Quit,
    /// `None` is the shared in-memory database.
    OpenDatabase { db_path: Option<DbPath> },
    CloseDatabase,
    RunQuery { sql: String },
    CancelQuery,
}

/// What the worker reacts to: a command, or the outcome of the I/O it asked for.
#[derive(Debug)]
pub enum Event {
    Command(MsgIn),
    Connected,
    ConnectFailed { message: String },
    Disconnected,
    QueryDone { rows: u64 },
    QueryFailed { message: String },
    QueryAborted,
}

/// Why a database could not be opened.
#[derive(Debug)]
pub enum OpenError {
    Path(PathError),
    Connect { message: String },
}

/// Why a query produced no rows.
#[derive(Debug)]
pub enum QueryError {
    /// A query was asked for while no database was open.
    NotOpen,
    /// A cancellation was asked for while no query was running.
    NoQueryRunning,
    /// The running query was cancelled.
    Cancelled,
    /// The storage engine reported an error.
    Failed { message: String },
}

/// What the worker reports back to the caller.
#[derive(Debug)]
pub enum Notification {
    Opened,
    OpenFailed(OpenError),
    Closed,
    QueryCompleted { rows: u64 },
    QueryError(QueryError),
}

/// What follows once the connection is shut down.
#[derive(Debug)]
pub enum AfterClose {
    Stay,
    Reopen(Option<DbPath>),
    Exit,
}

/// The worker's state. A connection is live exactly in `Open` and `Closing`.
#[derive(Debug)]
pub enum DbWorker {
    Closed,
    Opening,
    Open { query_running: bool },
    Closing { next: AfterClose },
}

/// The next piece of work that the worker's host performs.
#[derive(Debug)]
pub enum Action {
    /// Wait for the next command.
    Wait,
    /// Keep this command and hand it in again once the worker is idle.
    Defer(MsgIn),
    /// Open a connection to the target; report `Connected` or `ConnectFailed`.
    Connect { target: String },
    /// Shut the connection down; report `Disconnected`.
    Disconnect,
    /// Run the query; report `QueryDone`, `QueryFailed` or `QueryAborted`.
    Execute { sql: String },
    /// Abort the running query; it reports `QueryAborted`, unless it finished first.
    Abort,
    /// Stop the worker: no connection is live.
    Exit,
}

/// An action as a mathematical value.
pub enum Plan {
    Wait,
    Defer(MsgIn),
    Connect(Seq<char>),
    Disconnect,
    Execute(Seq<char>),
    Abort,
    Exit,
}

impl View for Action {
    type V = Plan;

    open spec fn view(&self) -> Plan {
        match self {
            Action::Wait => Plan::Wait,
            Action::Defer(m) => Plan::Defer(*m),
            Action::Connect { target } => Plan::Connect(target@),
            Action::Disconnect => Plan::Disconnect,
            Action::Execute { sql } => Plan::Execute(sql@),
            Action::Abort => Plan::Abort,
            Action::Exit => Plan::Exit,
        }
    }
}

/// The worker's answer to one event.
#[derive(Debug)]
pub struct Reaction {
    pub notes: Vec<Notification>,
    pub action: Action,
}

/// Opening from the closed state, after the notifications `before`.
pub open spec fn open_spec(path: Option<DbPath>, before: Seq<Notification>) -> (DbWorker, Seq<Notification>, Plan) {
    match target_of(path) {
        Ok(t) => (DbWorker::Opening, before, Plan::Connect(t)),
        Err(e) => (DbWorker::Closed, before.push(Notification::OpenFailed(OpenError::Path(e))), Plan::Wait),
    }
}

/// The next state, the notifications and the next action for an event.
pub open spec fn step_spec(s: DbWorker, e: Event) -> (DbWorker, Seq<Notification>, Plan) {
    match s {
        DbWorker::Closed => match e {
            Event::Command(MsgIn::Quit) => (DbWorker::Closed, seq![], Plan::Exit),
            Event::Command(MsgIn::OpenDatabase { db_path }) => open_spec(db_path, seq![]),
            Event::Command(MsgIn::RunQuery { .. }) =>
                (DbWorker::Closed, seq![Notification::QueryError(QueryError::NotOpen)], Plan::Wait),
            Event::Command(MsgIn::CancelQuery) =>
                (DbWorker::Closed, seq![Notification::QueryError(QueryError::NoQueryRunning)], Plan::Wait),
            _ => (DbWorker::Closed, seq![], Plan::Wait),
        },
        DbWorker::Opening => match e {
            Event::Command(m) => (DbWorker::Opening, seq![], Plan::Defer(m)),
            Event::Connected => (DbWorker::Open { query_running: false }, seq![Notification::Opened], Plan::Wait),
            Event::ConnectFailed { message } => (
                DbWorker::Closed,
                seq![Notification::OpenFailed(OpenError::Connect { message })],
                Plan::Wait,
            ),
            _ => (DbWorker::Opening, seq![], Plan::Wait),
        },
        DbWorker::Open { query_running: false } => match e {
            Event::Command(MsgIn::Quit) => (DbWorker::Closing { next: AfterClose::Exit }, seq![], Plan::Disconnect),
            Event::Command(MsgIn::OpenDatabase { db_path }) =>
                (DbWorker::Closing { next: AfterClose::Reopen(db_path) }, seq![], Plan::Disconnect),
            Event::Command(MsgIn::CloseDatabase) =>
                (DbWorker::Closing { next: AfterClose::Stay }, seq![], Plan::Disconnect),
            Event::Command(MsgIn::RunQuery { sql }) =>
                (DbWorker::Open { query_running: true }, seq![], Plan::Execute(sql@)),
            Event::Command(MsgIn::CancelQuery) => (
                DbWorker::Open { query_running: false },
                seq![Notification::QueryError(QueryError::NoQueryRunning)],
                Plan::Wait,
            ),
            _ => (DbWorker::Open { query_running: false }, seq![], Plan::Wait),
        },
        DbWorker::Open { query_running: true } => match e {
            Event::Command(MsgIn::CancelQuery) => (DbWorker::Open { query_running: true }, seq![], Plan::Abort),
            Event::Command(m) => (DbWorker::Open { query_running: true }, seq![], Plan::Defer(m)),
            Event::QueryDone { rows } => (
                DbWorker::Open { query_running: false },
                seq![Notification::QueryCompleted { rows }],
                Plan::Wait,
            ),
            Event::QueryFailed { message } => (
                DbWorker::Open { query_running: false },
                seq![Notification::QueryError(QueryError::Failed { message })],
                Plan::Wait,
            ),
            Event::QueryAborted => (
                DbWorker::Open { query_running: false },
                seq![Notification::QueryError(QueryError::Cancelled)],
                Plan::Wait,
            ),
            _ => (DbWorker::Open { query_running: true }, seq![], Plan::Wait),
        },
        DbWorker::Closing { next } => match e {
            Event::Command(m) => (DbWorker::Closing { next }, seq![], Plan::Defer(m)),
            Event::Disconnected => match next {
                AfterClose::Stay => (DbWorker::Closed, seq![Notification::Closed], Plan::Wait),
                AfterClose::Exit => (DbWorker::Closed, seq![Notification::Closed], Plan::Exit),
                AfterClose::Reopen(p) => open_spec(p, seq![Notification::Closed]),
            },
            _ => (DbWorker::Closing { next }, seq![], Plan::Wait),
        },
    }
}

fn reaction(notes: Vec<Notification>, action: Action) -> (r: Reaction)
    ensures
        r.notes == notes,
        r.action == action,
{
    Reaction { notes, action }
}

fn one(n: Notification) -> (v: Vec<Notification>)
    ensures
        v@ == seq![n],
{
    let mut v = Vec::new();
    v.push(n);
    v
}

/// Opening from the closed state, after the notifications `notes`.
fn open_from_closed(path: Option<DbPath>, notes: Vec<Notification>) -> (r: (DbWorker, Reaction))
    ensures
        (r.0, r.1.notes@, r.1.action@) == open_spec(path, notes@),
{
    match build_connection_str(path) {
        Ok(target) => (DbWorker::Opening, reaction(notes, Action::Connect { target })),
        Err(e) => {
            let mut notes = notes;
            notes.push(Notification::OpenFailed(OpenError::Path(e)));
            (DbWorker::Closed, reaction(notes, Action::Wait))
        },
    }
}

impl DbWorker {
    /// A worker with no database open.
    pub fn new() -> (w: Self)
        ensures
            w == DbWorker::Closed,
    {
        DbWorker::Closed
    }

    /// Whether a connection is live in this state.
    pub open spec fn holds_connection(self) -> bool {
        self is Open || self is Closing
    }

    /// Decides what the worker does on `event`: it moves to the next state and returns
    /// the notifications to report, in order, and the next action for its host.
    pub fn step(&mut self, event: Event) -> (r: Reaction)
        ensures
            (*final(self), r.notes@, r.action@) == step_spec(*old(self), event),
    {
        let mut s = DbWorker::Closed;
        core::mem::swap(self, &mut s);
        let (next, r) = match s {
            DbWorker::Closed => match event {
                Event::Command(MsgIn::Quit) => (DbWorker::Closed, reaction(Vec::new(), Action::Exit)),
                Event::Command(MsgIn::OpenDatabase { db_path }) => open_from_closed(db_path, Vec::new()),
                Event::Command(MsgIn::RunQuery { .. }) => (
                    DbWorker::Closed,
                    reaction(one(Notification::QueryError(QueryError::NotOpen)), Action::Wait),
                ),
                Event::Command(MsgIn::CancelQuery) => (
                    DbWorker::Closed,
                    reaction(one(Notification::QueryError(QueryError::NoQueryRunning)), Action::Wait),
                ),
                _ => (DbWorker::Closed, reaction(Vec::new(), Action::Wait)),
            },
            DbWorker::Opening => match event {
                Event::Command(m) => (DbWorker::Opening, reaction(Vec::new(), Action::Defer(m))),
                Event::Connected => (
                    DbWorker::Open { query_running: false },
                    reaction(one(Notification::Opened), Action::Wait),
                ),
                Event::ConnectFailed { message } => (
                    DbWorker::Closed,
                    reaction(
                        one(Notification::OpenFailed(OpenError::Connect { message })),
                        Action::Wait,
                    ),
                ),
                _ => (DbWorker::Opening, reaction(Vec::new(), Action::Wait)),
            },
            DbWorker::Open { query_running } => if !query_running {
                match event {
                    Event::Command(MsgIn::Quit) => (
                        DbWorker::Closing { next: AfterClose::Exit },
                        reaction(Vec::new(), Action::Disconnect),
                    ),
                    Event::Command(MsgIn::OpenDatabase { db_path }) => (
                        DbWorker::Closing { next: AfterClose::Reopen(db_path) },
                        reaction(Vec::new(), Action::Disconnect),
                    ),
                    Event::Command(MsgIn::CloseDatabase) => (
                        DbWorker::Closing { next: AfterClose::Stay },
                        reaction(Vec::new(), Action::Disconnect),
                    ),
                    Event::Command(MsgIn::RunQuery { sql }) => (
                        DbWorker::Open { query_running: true },
                        reaction(Vec::new(), Action::Execute { sql }),
                    ),
                    Event::Command(MsgIn::CancelQuery) => (
                        DbWorker::Open { query_running: false },
                        reaction(one(Notification::QueryError(QueryError::NoQueryRunning)), Action::Wait),
                    ),
                    _ => (DbWorker::Open { query_running: false }, reaction(Vec::new(), Action::Wait)),
                }
            } else {
                match event {
                    Event::Command(MsgIn::CancelQuery) => (
                        DbWorker::Open { query_running: true },
                        reaction(Vec::new(), Action::Abort),
                    ),
                    Event::Command(m) => (
                        DbWorker::Open { query_running: true },
                        reaction(Vec::new(), Action::Defer(m)),
                    ),
                    Event::QueryDone { rows } => (
                        DbWorker::Open { query_running: false },
                        reaction(one(Notification::QueryCompleted { rows }), Action::Wait),
                    ),
                    Event::QueryFailed { message } => (
                        DbWorker::Open { query_running: false },
                        reaction(
                            one(Notification::QueryError(QueryError::Failed { message })),
                            Action::Wait,
                        ),
                    ),
                    Event::QueryAborted => (
                        DbWorker::Open { query_running: false },
                        reaction(one(Notification::QueryError(QueryError::Cancelled)), Action::Wait),
                    ),
                    _ => (DbWorker::Open { query_running: true }, reaction(Vec::new(), Action::Wait)),
                }
            },
            DbWorker::Closing { next } => match event {
                Event::Command(m) => (DbWorker::Closing { next }, reaction(Vec::new(), Action::Defer(m))),
                Event::Disconnected => match next {
                    AfterClose::Stay => (DbWorker::Closed, reaction(one(Notification::Closed), Action::Wait)),
                    AfterClose::Exit => (DbWorker::Closed, reaction(one(Notification::Closed), Action::Exit)),
                    AfterClose::Reopen(p) => open_from_closed(p, one(Notification::Closed)),
                },
                _ => (DbWorker::Closing { next }, reaction(Vec::new(), Action::Wait)),
            },
        };
        *self = next;
        r
    }
}

/// The open state is entered only from the opening state, and the closed state only
/// from the closing state or from a failed opening; the worker asks to exit only
/// with no connection live.
pub proof fn lemma_transitions(s: DbWorker, e: Event)
    ensures
        step_spec(s, e).0 is Open && !(s is Open) ==> s is Opening,
        step_spec(s, e).0 is Closed && !(s is Closed) ==> s is Closing || s is Opening,
        step_spec(s, e).2 is Exit ==> step_spec(s, e).0 is Closed,
{
}

/// The state reached from `s` after the events `es`, in order.
pub open spec fn state_after(s: DbWorker, es: Seq<Event>) -> DbWorker
    decreases es.len(),
{
    if es.len() == 0 {
        s
    } else {
        step_spec(state_after(s, es.drop_last()), es.last()).0
    }
}

/// Along any sequence of events, the open state is entered only from the opening
/// state, and the closed state only from the closing state or a failed opening.
pub proof fn lemma_run_transitions(s: DbWorker, es: Seq<Event>, i: int)
    requires
        0 <= i < es.len(),
    ensures
        ({
            let a = state_after(s, es.take(i));
            let b = state_after(s, es.take(i + 1));
            &&& b is Open && !(a is Open) ==> a is Opening
            &&& b is Closed && !(a is Closed) ==> a is Closing || a is Opening
        }),
{
    let t = es.take(i + 1);
    assert(t.drop_last() =~= es.take(i));
    assert(t.last() == es[i]);
    lemma_transitions(state_after(s, es.take(i)), es[i]);
}

/// Closing while closed reports nothing and changes nothing.
pub proof fn lemma_close_when_closed()
    ensures
        step_spec(DbWorker::Closed, Event::Command(MsgIn::CloseDatabase)) == (
        DbWorker::Closed,
        Seq::<Notification>::empty(),
        Plan::Wait,
    ),
{
    assert(seq![] =~= Seq::<Notification>::empty());
}

/// Opening a path that is not UTF-8 reports exactly one failure and leaves the
/// worker closed.
pub proof fn lemma_open_not_utf8(display: String)
    ensures
        ({
            let r = step_spec(
                DbWorker::Closed,
                Event::Command(MsgIn::OpenDatabase { db_path: Some(DbPath::NotUtf8(display)) }),
            );
            &&& r.0 is Closed
            &&& r.1 == seq![Notification::OpenFailed(OpenError::Path(PathError::NotUtf8 { display }))]
            &&& r.2 is Wait
        }),
{
}

/// Opening the in-memory database, running a query and closing reports, in order,
/// that the database opened, the query's outcome, and that it closed.
pub proof fn lemma_open_query_close(sql: String, outcome: Event)
    requires
        outcome is QueryDone || outcome is QueryFailed,
    ensures
        ({
            let r1 = step_spec(DbWorker::Closed, Event::Command(MsgIn::OpenDatabase { db_path: None }));
            let r2 = step_spec(r1.0, Event::Connected);
            let r3 = step_spec(r2.0, Event::Command(MsgIn::RunQuery { sql }));
            let r4 = step_spec(r3.0, outcome);
            let r5 = step_spec(r4.0, Event::Command(MsgIn::CloseDatabase));
            let r6 = step_spec(r5.0, Event::Disconnected);
            &&& r1.1.len() == 0 && r1.2 == Plan::Connect(crate::target::memory_target())
            &&& r2.1 == seq![Notification::Opened]
            &&& r3.1.len() == 0 && r3.2 == Plan::Execute(sql@)
            &&& r4.1.len() == 1 && (r4.1[0] is QueryCompleted || r4.1[0] is QueryError)
            &&& r5.1.len() == 0 && r5.2 is Disconnect
            &&& r6.1 == seq![Notification::Closed] && r6.0 is Closed
        }),
{
}

/// Quitting with a database open reports that it closed exactly once, and the worker
/// then exits with no connection live.
pub proof fn lemma_quit_while_open()
    ensures
        ({
            let r1 = step_spec(DbWorker::Open { query_running: false }, Event::Command(MsgIn::Quit));
            let r2 = step_spec(r1.0, Event::Disconnected);
            &&& r1.1.len() == 0 && r1.2 is Disconnect && r1.0.holds_connection()
            &&& r2.1 == seq![Notification::Closed]
            &&& r2.2 is Exit
            &&& !r2.0.holds_connection()
        }),
{
}

} // verus!
