use vstd::prelude::*;
use crate::creation::{
    initial, transition, well_formed, Command, CreationState, Outcome, Phase, Reply,
};
use crate::records::{audit_message, LogRow, UserRow};

verus! {

/// A row as the store wrote it, in either table.
pub enum Row {
    Log(LogRow),
    User(UserRow),
}

/// What a transactional store holds on behalf of one request: the rows
/// written in its open transaction, and the rows it has committed.
pub struct TxStore {
    pub pending: Seq<Row>,
    pub kept: Seq<Row>,
}

pub open spec fn empty_store() -> TxStore {
    TxStore { pending: Seq::empty(), kept: Seq::empty() }
}

/// How the store changes when it answers command `c` with outcome `e`. An
/// insert that succeeded adds its row (the id the store assigned, the text it
/// was sent) to the open transaction; a confirmed commit keeps those rows; a
/// rollback or a failed commit discards them.
pub open spec fn apply(st: TxStore, c: Command, e: Outcome) -> TxStore {
    match c {
        Command::InsertLog(content) => match e {
            Outcome::LogInserted(l) => TxStore {
                pending: st.pending.push(Row::Log(LogRow { id: l.id, content })),
                ..st
            },
            _ => st,
        },
        Command::InsertUser(name) => match e {
            Outcome::UserInserted(u) => TxStore {
                pending: st.pending.push(Row::User(UserRow { id: u.id, name })),
                ..st
            },
            _ => st,
        },
        Command::Commit => if e is Committed {
            TxStore { pending: Seq::empty(), kept: st.kept + st.pending }
        } else {
            TxStore { pending: Seq::empty(), ..st }
        },
        Command::Rollback => TxStore { pending: Seq::empty(), ..st },
        _ => st,
    }
}

/// Serves a request from state `s`, whose last command was `last`, with the
/// store in state `st`: each outcome of `events` answers the command before
/// it. Returns the state, the last command and the store once the events run
/// out or the response is decided.
pub open spec fn serve(s: CreationState, last: Command, st: TxStore, events: Seq<Outcome>) -> (
    CreationState,
    Command,
    TxStore,
)
    decreases events.len(),
{
    if events.len() == 0 || s.phase == Phase::Finished {
        (s, last, st)
    } else {
        let (t, next) = transition(s, events[0]);
        serve(t, next, apply(st, last, events[0]), events.drop_first())
    }
}

/// A `POST /users` request for `name`, served by a store that answered with
/// `events`.
pub open spec fn serve_request(name: Seq<char>, events: Seq<Outcome>) -> (
    CreationState,
    Command,
    TxStore,
) {
    serve(initial(name), Command::BeginTransaction, empty_store(), events)
}

/// An audit row: a log row that says a user is being created.
pub open spec fn is_audit_row(r: Row) -> bool {
    r matches Row::Log(l) && l.content == audit_message()
}

/// What the store holds at each phase of a creation.
pub open spec fn consistent(s: CreationState, last: Command, st: TxStore) -> bool {
    &&& well_formed(s)
    &&& match s.phase {
        Phase::Beginning => last == Command::BeginTransaction && st == empty_store(),
        Phase::WritingLog => last == Command::InsertLog(audit_message()) && st == empty_store(),
        Phase::WritingUser => {
            &&& last == Command::InsertUser(s.name)
            &&& st.kept.len() == 0
            &&& st.pending.len() == 1
            &&& is_audit_row(st.pending[0])
        },
        Phase::Committing => {
            &&& last == Command::Commit
            &&& st.kept.len() == 0
            &&& st.pending.len() == 2
            &&& is_audit_row(st.pending[0])
            &&& st.pending[1] == Row::User(UserRow { id: s.user->0.id, name: s.name })
        },
        Phase::RollingBack => {
            &&& last == Command::Rollback
            &&& st.kept.len() == 0
            &&& st.pending.len() <= 1
            &&& st.pending.len() == 1 ==> is_audit_row(st.pending[0])
        },
        Phase::Finished => {
            &&& st.pending.len() == 0
            &&& match last {
                Command::Respond(Reply::Created(u)) => {
                    &&& st.kept.len() == 2
                    &&& is_audit_row(st.kept[0])
                    &&& st.kept[1] == Row::User(UserRow { id: u.id, name: s.name })
                },
                Command::Respond(Reply::InternalError) => st.kept.len() == 0,
                _ => false,
            }
        },
    }
}

proof fn lemma_step_consistent(s: CreationState, last: Command, st: TxStore, e: Outcome)
    requires
        consistent(s, last, st),
        s.phase != Phase::Finished,
    ensures
        ({
            let (t, next) = transition(s, e);
            consistent(t, next, apply(st, last, e))
        }),
{
    let st2 = apply(st, last, e);
    if s.phase == Phase::Committing && e is Committed {
        assert(st2.kept =~= st.pending);
    }
}

proof fn lemma_serve_consistent(s: CreationState, last: Command, st: TxStore, events: Seq<Outcome>)
    requires
        consistent(s, last, st),
    ensures
        ({
            let (t, next, st2) = serve(s, last, st, events);
            consistent(t, next, st2)
        }),
    decreases events.len(),
{
    if events.len() > 0 && s.phase != Phase::Finished {
        lemma_step_consistent(s, last, st, events[0]);
        let (t, next) = transition(s, events[0]);
        lemma_serve_consistent(t, next, apply(st, last, events[0]), events.drop_first());
    }
}

proof fn lemma_request_consistent(name: Seq<char>, events: Seq<Outcome>)
    ensures
        ({
            let (s, last, st) = serve_request(name, events);
            consistent(s, last, st) && s.name == name
        }),
{
    assert(consistent(initial(name), Command::BeginTransaction, empty_store()));
    lemma_serve_keeps_name(initial(name), Command::BeginTransaction, empty_store(), events);
    lemma_serve_consistent(initial(name), Command::BeginTransaction, empty_store(), events);
}

proof fn lemma_serve_keeps_name(s: CreationState, last: Command, st: TxStore, events: Seq<Outcome>)
    ensures
        serve(s, last, st, events).0.name == s.name,
    decreases events.len(),
{
    if events.len() > 0 && s.phase != Phase::Finished {
        let (t, next) = transition(s, events[0]);
        lemma_serve_keeps_name(t, next, apply(st, last, events[0]), events.drop_first());
    }
}

/// Whatever the store answers, a request answered with `201 Created` has
/// committed exactly its audit row and its user row, and a
/// request answered with `500 Internal Server Error` has committed nothing.
pub proof fn created_commits_both_rows_failure_commits_none(name: Seq<char>, events: Seq<Outcome>)
    ensures
        ({
            let (s, last, st) = serve_request(name, events);
            &&& last matches Command::Respond(Reply::Created(u)) ==> {
                &&& st.kept.len() == 2
                &&& is_audit_row(st.kept[0])
                &&& st.kept[1] == Row::User(UserRow { id: u.id, name })
            }
            &&& last == Command::Respond(Reply::InternalError) ==> st.kept.len() == 0
        }),
{
    lemma_request_consistent(name, events);
}

/// The user row is asked for only once the audit row has been
/// written in the same transaction, and a committed request has the audit row
/// written before the user row.
pub proof fn audit_row_precedes_user_row(name: Seq<char>, events: Seq<Outcome>)
    ensures
        ({
            let (s, last, st) = serve_request(name, events);
            &&& last is InsertUser ==> {
                &&& last == Command::InsertUser(name)
                &&& st.kept.len() == 0
                &&& st.pending.len() == 1
                &&& is_audit_row(st.pending[0])
            }
            &&& last matches Command::Respond(Reply::Created(u)) ==> {
                &&& st.kept.len() == 2
                &&& st.kept[0] is Log
                &&& st.kept[1] is User
            }
        }),
{
    lemma_request_consistent(name, events);
}

/// When the store refuses the audit row, the user row is
/// never asked for and nothing is ever written or committed; once the rollback
/// is answered the request ends with `500 Internal Server Error`, and the
/// creation is finished, so the server is free for the next request.
pub proof fn refused_audit_row_writes_no_user(name: Seq<char>, events: Seq<Outcome>)
    requires
        events.len() >= 2,
        events[0] == Outcome::TransactionBegun,
        !(events[1] is LogInserted),
    ensures
        forall|k: int|
            0 <= k <= events.len() ==> {
                let (s, last, st) = #[trigger] serve_request(name, events.take(k));
                &&& last !is InsertUser
                &&& st == empty_store()
            },
        events.len() >= 3 ==> {
            let (s, last, st) = serve_request(name, events);
            &&& s.phase == Phase::Finished
            &&& last == Command::Respond(Reply::InternalError)
        },
{
    reveal_with_fuel(serve, 4);
    assert forall|k: int| 0 <= k <= events.len() implies {
        let (s, last, st) = #[trigger] serve_request(name, events.take(k));
        &&& last !is InsertUser
        &&& st == empty_store()
    } by {
        let ev = events.take(k);
        if k >= 1 {
            assert(ev[0] == events[0]);
            let ev1 = ev.drop_first();
            if k >= 2 {
                assert(ev1[0] == events[1]);
                let ev2 = ev1.drop_first();
                if k >= 3 {
                    assert(ev2[0] == events[2]);
                }
            }
        }
    }
    if events.len() >= 3 {
        assert(events.take(events.len() as int) =~= events);
    }
}

/// Two requests served side by side, each in a transaction of its
/// own, commit only their own rows. When both are answered with
/// `201 Created`, the committed rows are, for each request, one audit row
/// followed by one user row under that request's name, whatever the store
/// answered the other request.
pub proof fn concurrent_requests_commit_their_own_rows(
    a: Seq<char>,
    events_a: Seq<Outcome>,
    b: Seq<char>,
    events_b: Seq<Outcome>,
)
    ensures
        ({
            let (_, last_a, st_a) = serve_request(a, events_a);
            let (_, last_b, st_b) = serve_request(b, events_b);
            last_a matches Command::Respond(Reply::Created(ua)) ==> (
            last_b matches Command::Respond(Reply::Created(ub)) ==> {
                let kept = st_a.kept + st_b.kept;
                &&& kept.len() == 4
                &&& is_audit_row(kept[0])
                &&& kept[1] == Row::User(UserRow { id: ua.id, name: a })
                &&& is_audit_row(kept[2])
                &&& kept[3] == Row::User(UserRow { id: ub.id, name: b })
            })
        }),
{
    lemma_request_consistent(a, events_a);
    lemma_request_consistent(b, events_b);
}

} // verus!
