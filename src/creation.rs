use vstd::prelude::*;
use crate::records::{
    audit_message, CreateLogEntry, CreateUser, LogEntry, LogRow, User, UserRow,
};

verus! {

/// Where a user creation stands: which answer from the store it waits for.
#[derive(Clone, Copy, PartialEq, Eq, Structural, Debug)]
pub enum Phase {
    Beginning,
    WritingLog,
    WritingUser,
    Committing,
    RollingBack,
    Finished,
}

/// What the HTTP layer answers once a creation is finished.
pub enum Response {
    /// `201 Created`, with the user row that was committed.
    Created(User),
    /// `500 Internal Server Error`; nothing was committed.
    InternalError,
}

/// The next thing to do on behalf of a request.
pub enum Action {
    /// Open a transaction on the pool.
    BeginTransaction,
    /// Insert a log row in the open transaction.
    InsertLog(CreateLogEntry),
    /// Insert a user row in the open transaction.
    InsertUser(CreateUser),
    /// Commit the open transaction.
    Commit,
    /// Roll the open transaction back.
    Rollback,
    /// Send this response; the request is done.
    Respond(Response),
}

/// What the store answered to the last action.
pub enum Event {
    TransactionBegun,
    TransactionFailed,
    LogInserted(LogEntry),
    LogFailed,
    UserInserted(User),
    UserFailed,
    Committed,
    CommitFailed,
    RolledBack,
}

impl Response {
    /// The HTTP status code of this response.
    pub fn status_code(&self) -> (r: u16)
        ensures
            r == status_of(self@),
    {
        match self {
            Response::Created(_) => 201,
            Response::InternalError => 500,
        }
    }
}

/// `201 Created` for a created user, `500 Internal Server Error` otherwise.
pub open spec fn status_of(r: Reply) -> u16 {
    match r {
        Reply::Created(_) => 201,
        Reply::InternalError => 500,
    }
}

/// Mathematical form of a [`Response`].
pub enum Reply {
    Created(UserRow),
    InternalError,
}

/// Mathematical form of an [`Action`].
pub enum Command {
    BeginTransaction,
    InsertLog(Seq<char>),
    InsertUser(Seq<char>),
    Commit,
    Rollback,
    Respond(Reply),
}

/// Mathematical form of an [`Event`].
pub enum Outcome {
    TransactionBegun,
    TransactionFailed,
    LogInserted(LogRow),
    LogFailed,
    UserInserted(UserRow),
    UserFailed,
    Committed,
    CommitFailed,
    RolledBack,
}

impl View for Response {
    type V = Reply;

    open spec fn view(&self) -> Reply {
        match self {
            Response::Created(u) => Reply::Created(u@),
            Response::InternalError => Reply::InternalError,
        }
    }
}

impl View for Action {
    type V = Command;

    open spec fn view(&self) -> Command {
        match self {
            Action::BeginTransaction => Command::BeginTransaction,
            Action::InsertLog(entry) => Command::InsertLog(entry@),
            Action::InsertUser(request) => Command::InsertUser(request@),
            Action::Commit => Command::Commit,
            Action::Rollback => Command::Rollback,
            Action::Respond(response) => Command::Respond(response@),
        }
    }
}

impl View for Event {
    type V = Outcome;

    open spec fn view(&self) -> Outcome {
        match self {
            Event::TransactionBegun => Outcome::TransactionBegun,
            Event::TransactionFailed => Outcome::TransactionFailed,
            Event::LogInserted(entry) => Outcome::LogInserted(entry@),
            Event::LogFailed => Outcome::LogFailed,
            Event::UserInserted(user) => Outcome::UserInserted(user@),
            Event::UserFailed => Outcome::UserFailed,
            Event::Committed => Outcome::Committed,
            Event::CommitFailed => Outcome::CommitFailed,
            Event::RolledBack => Outcome::RolledBack,
        }
    }
}

/// Mathematical form of a [`UserCreation`].
pub struct CreationState {
    pub name: Seq<char>,
    pub phase: Phase,
    /// The user row the store returned, once it did.
    pub user: Option<UserRow>,
}

/// The state of a creation that has just been asked to open its transaction.
pub open spec fn initial(name: Seq<char>) -> CreationState {
    CreationState { name, phase: Phase::Beginning, user: None }
}

/// A creation waits to commit only with the user row in hand.
pub open spec fn well_formed(s: CreationState) -> bool {
    s.phase == Phase::Committing ==> s.user is Some
}

/// One step of a creation: the state after the store's answer, and what to do
/// next. The log row is written before the user row; any failure inside the
/// transaction rolls it back; only a confirmed commit is answered with
/// `201 Created`.
pub open spec fn transition(s: CreationState, e: Outcome) -> (CreationState, Command) {
    match s.phase {
        Phase::Beginning => if e is TransactionBegun {
            (CreationState { phase: Phase::WritingLog, ..s }, Command::InsertLog(audit_message()))
        } else {
            (CreationState { phase: Phase::Finished, ..s }, Command::Respond(Reply::InternalError))
        },
        Phase::WritingLog => if e is LogInserted {
            (CreationState { phase: Phase::WritingUser, ..s }, Command::InsertUser(s.name))
        } else {
            (CreationState { phase: Phase::RollingBack, ..s }, Command::Rollback)
        },
        Phase::WritingUser => match e {
            Outcome::UserInserted(u) => (
                CreationState { phase: Phase::Committing, user: Some(u), ..s },
                Command::Commit,
            ),
            _ => (CreationState { phase: Phase::RollingBack, ..s }, Command::Rollback),
        },
        Phase::Committing => if e is Committed && s.user is Some {
            (
                CreationState { phase: Phase::Finished, ..s },
                Command::Respond(Reply::Created(s.user->0)),
            )
        } else {
            (CreationState { phase: Phase::Finished, ..s }, Command::Respond(Reply::InternalError))
        },
        _ => (CreationState { phase: Phase::Finished, ..s }, Command::Respond(Reply::InternalError)),
    }
}

/// The decisions of one `POST /users` request, from the request body to the
/// response. The caller performs each [`Action`] against the database and hands
/// the result back as an [`Event`].
pub struct UserCreation {
    name: String,
    phase: Phase,
    user: Option<User>,
}

impl View for UserCreation {
    type V = CreationState;

    closed spec fn view(&self) -> CreationState {
        CreationState {
            name: self.name@,
            phase: self.phase,
            user: match self.user {
                Some(u) => Some(u@),
                None => None,
            },
        }
    }
}

impl UserCreation {
    /// Starts a creation for the given request body; the first action opens
    /// the transaction.
    pub fn start(request: CreateUser) -> (r: (UserCreation, Action))
        ensures
            r.0@ == initial(request@),
            r.1@ == Command::BeginTransaction,
    {
        (UserCreation { name: request.name, phase: Phase::Beginning, user: None }, Action::BeginTransaction)
    }

    /// Whether the response has been decided; no further event is taken then.
    pub fn is_finished(&self) -> (r: bool)
        ensures
            r == (self@.phase == Phase::Finished),
    {
        self.phase == Phase::Finished
    }

    /// Takes the store's answer to the last action and returns the next one.
    pub fn step(&mut self, event: Event) -> (a: Action)
        requires
            old(self)@.phase != Phase::Finished,
        ensures
            (final(self)@, a@) == transition(old(self)@, event@),
    {
        match self.phase {
            Phase::Beginning => match event {
                Event::TransactionBegun => {
                    self.phase = Phase::WritingLog;
                    Action::InsertLog(CreateLogEntry::audit())
                },
                _ => {
                    self.phase = Phase::Finished;
                    Action::Respond(Response::InternalError)
                },
            },
            Phase::WritingLog => match event {
                Event::LogInserted(_) => {
                    self.phase = Phase::WritingUser;
                    Action::InsertUser(CreateUser::new(self.name.clone()))
                },
                _ => {
                    self.phase = Phase::RollingBack;
                    Action::Rollback
                },
            },
            Phase::WritingUser => match event {
                Event::UserInserted(user) => {
                    self.phase = Phase::Committing;
                    self.user = Some(user);
                    Action::Commit
                },
                _ => {
                    self.phase = Phase::RollingBack;
                    Action::Rollback
                },
            },
            Phase::Committing => {
                self.phase = Phase::Finished;
                match (event, &self.user) {
                    (Event::Committed, Some(user)) => Action::Respond(Response::Created(user.duplicate())),
                    _ => Action::Respond(Response::InternalError),
                }
            },
            _ => {
                self.phase = Phase::Finished;
                Action::Respond(Response::InternalError)
            },
        }
    }
}

} // verus!
