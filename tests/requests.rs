use user_service::creation::{Action, Event, Response, UserCreation};
use user_service::records::{CreateUser, LogEntry, User, AUDIT_MESSAGE};
use user_service::routes::{root, GREETING};

/// A store that numbers the rows of each table from 1 and keeps what a
/// transaction wrote only when it commits.
struct FakeStore {
    users: Vec<(i32, String)>,
    logs: Vec<(i32, String)>,
    pending_users: Vec<(i32, String)>,
    pending_logs: Vec<(i32, String)>,
    next_user: i32,
    next_log: i32,
    fail_log: bool,
    fail_user: bool,
    fail_commit: bool,
}

impl FakeStore {
    fn new() -> FakeStore {
        FakeStore {
            users: Vec::new(),
            logs: Vec::new(),
            pending_users: Vec::new(),
            pending_logs: Vec::new(),
            next_user: 1,
            next_log: 1,
            fail_log: false,
            fail_user: false,
            fail_commit: false,
        }
    }

    fn perform(&mut self, action: &Action) -> Event {
        match action {
            Action::BeginTransaction => Event::TransactionBegun,
            Action::InsertLog(entry) => {
                if self.fail_log {
                    return Event::LogFailed;
                }
                let id = self.next_log;
                self.next_log += 1;
                self.pending_logs.push((id, entry.content.clone()));
                Event::LogInserted(LogEntry::new(id, entry.content.clone()))
            }
            Action::InsertUser(request) => {
                if self.fail_user {
                    return Event::UserFailed;
                }
                let id = self.next_user;
                self.next_user += 1;
                self.pending_users.push((id, request.name.clone()));
                Event::UserInserted(User::new(id, request.name.clone()))
            }
            Action::Commit => {
                if self.fail_commit {
                    self.pending_logs.clear();
                    self.pending_users.clear();
                    return Event::CommitFailed;
                }
                self.logs.append(&mut self.pending_logs);
                self.users.append(&mut self.pending_users);
                Event::Committed
            }
            Action::Rollback => {
                self.pending_logs.clear();
                self.pending_users.clear();
                Event::RolledBack
            }
            Action::Respond(_) => panic!("a response is not sent to the store"),
        }
    }

    /// Runs one `POST /users` request and returns its response and the
    /// actions taken, in order.
    fn create(&mut self, name: &str) -> (Response, Vec<&'static str>) {
        let (mut creation, mut action) = UserCreation::start(CreateUser::new(name.to_string()));
        let mut trail = Vec::new();
        loop {
            trail.push(match &action {
                Action::BeginTransaction => "begin",
                Action::InsertLog(_) => "insert log",
                Action::InsertUser(_) => "insert user",
                Action::Commit => "commit",
                Action::Rollback => "rollback",
                Action::Respond(_) => "respond",
            });
            if let Action::Respond(response) = action {
                assert!(creation.is_finished());
                return (response, trail);
            }
            assert!(!creation.is_finished());
            let event = self.perform(&action);
            action = creation.step(event);
        }
    }
}

fn created(response: &Response) -> (i32, String) {
    match response {
        Response::Created(user) => (user.id, user.name.clone()),
        Response::InternalError => panic!("expected a created user"),
    }
}

#[test]
fn alice_then_bob_get_consecutive_ids() {
    let mut store = FakeStore::new();
    let (alice, _) = store.create("Alice");
    assert_eq!(alice.status_code(), 201);
    assert_eq!(created(&alice), (1, "Alice".to_string()));
    assert_eq!(store.logs, vec![(1, "Creating new user".to_string())]);
    let (bob, _) = store.create("Bob");
    assert_eq!(bob.status_code(), 201);
    assert_eq!(created(&bob), (2, "Bob".to_string()));
    assert_eq!(
        store.logs,
        vec![(1, "Creating new user".to_string()), (2, "Creating new user".to_string())]
    );
    assert_eq!(store.users, vec![(1, "Alice".to_string()), (2, "Bob".to_string())]);
}

#[test]
fn log_is_written_before_user_then_committed() {
    let mut store = FakeStore::new();
    let (_, trail) = store.create("Carol");
    assert_eq!(trail, vec!["begin", "insert log", "insert user", "commit", "respond"]);
}

#[test]
fn insert_actions_carry_audit_text_and_name() {
    let (mut creation, _) = UserCreation::start(CreateUser::new("Dana".to_string()));
    match creation.step(Event::TransactionBegun) {
        Action::InsertLog(entry) => assert_eq!(entry.content, AUDIT_MESSAGE),
        _ => panic!("expected the audit insert"),
    }
    match creation.step(Event::LogInserted(LogEntry::new(7, AUDIT_MESSAGE.to_string()))) {
        Action::InsertUser(request) => assert_eq!(request.name, "Dana"),
        _ => panic!("expected the user insert"),
    }
}

#[test]
fn failed_log_insert_writes_no_user_and_server_goes_on() {
    let mut store = FakeStore::new();
    store.fail_log = true;
    let (response, trail) = store.create("Eve");
    assert_eq!(response.status_code(), 500);
    assert_eq!(trail, vec!["begin", "insert log", "rollback", "respond"]);
    assert!(store.users.is_empty());
    assert!(store.logs.is_empty());
    store.fail_log = false;
    let (next, _) = store.create("Frank");
    assert_eq!(created(&next), (1, "Frank".to_string()));
}

#[test]
fn failed_user_insert_discards_log_row() {
    let mut store = FakeStore::new();
    store.fail_user = true;
    let (response, trail) = store.create("Grace");
    assert_eq!(response.status_code(), 500);
    assert_eq!(trail, vec!["begin", "insert log", "insert user", "rollback", "respond"]);
    assert!(store.users.is_empty());
    assert!(store.logs.is_empty());
}

#[test]
fn failed_commit_answers_internal_error() {
    let mut store = FakeStore::new();
    store.fail_commit = true;
    let (response, trail) = store.create("Heidi");
    assert_eq!(response.status_code(), 500);
    assert_eq!(trail, vec!["begin", "insert log", "insert user", "commit", "respond"]);
    assert!(store.users.is_empty());
    assert!(store.logs.is_empty());
}

#[test]
fn failed_begin_answers_without_transaction() {
    let (mut creation, _) = UserCreation::start(CreateUser::new("Ivan".to_string()));
    match creation.step(Event::TransactionFailed) {
        Action::Respond(response) => assert_eq!(response.status_code(), 500),
        _ => panic!("expected a response"),
    }
    assert!(creation.is_finished());
}

#[test]
fn rollback_outcome_ends_in_internal_error() {
    let (mut creation, _) = UserCreation::start(CreateUser::new("Judy".to_string()));
    creation.step(Event::TransactionBegun);
    assert!(matches!(creation.step(Event::LogFailed), Action::Rollback));
    match creation.step(Event::RolledBack) {
        Action::Respond(Response::InternalError) => {}
        _ => panic!("expected an internal error"),
    }
}

#[test]
fn concurrent_requests_each_keep_their_own_rows() {
    let mut store = FakeStore::new();
    let (mut a, act_a) = UserCreation::start(CreateUser::new("Ann".to_string()));
    let (mut b, act_b) = UserCreation::start(CreateUser::new("Ben".to_string()));
    let mut next_a = a.step(store.perform(&act_a));
    let mut next_b = b.step(store.perform(&act_b));
    next_a = a.step(store.perform(&next_a));
    next_b = b.step(store.perform(&next_b));
    next_b = b.step(store.perform(&next_b));
    next_a = a.step(store.perform(&next_a));
    next_a = a.step(store.perform(&next_a));
    next_b = b.step(store.perform(&next_b));
    let ra = match next_a {
        Action::Respond(r) => r,
        _ => panic!("expected a response"),
    };
    let rb = match next_b {
        Action::Respond(r) => r,
        _ => panic!("expected a response"),
    };
    assert_eq!(created(&ra), (2, "Ann".to_string()));
    assert_eq!(created(&rb), (1, "Ben".to_string()));
    assert_eq!(store.users.len(), 2);
    assert_eq!(store.logs.len(), 2);
}

#[test]
fn empty_name_is_accepted() {
    let mut store = FakeStore::new();
    let (response, _) = store.create("");
    assert_eq!(created(&response), (1, String::new()));
}

#[test]
fn root_always_greets() {
    assert_eq!(root(), "Hello, World!");
    assert_eq!(root(), GREETING);
}

#[test]
fn audit_entry_and_duplicate() {
    let entry = user_service::records::CreateLogEntry::audit();
    assert_eq!(entry.content, "Creating new user");
    let user = User::new(3, "Kim".to_string());
    let copy = user.duplicate();
    assert_eq!((copy.id, copy.name), (3, "Kim".to_string()));
}
