use vstd::prelude::*;

verus! {

/// The text of the audit row written before every user row.
pub const AUDIT_MESSAGE: &'static str = "Creating new user";

/// The body of a request to create a user.
pub struct CreateUser {
    pub name: String,
}

/// A user row as the store returned it.
pub struct User {
    pub id: i32,
    pub name: String,
}

/// The content of a log row that is about to be inserted.
pub struct CreateLogEntry {
    pub content: String,
}

/// A log row as the store returned it.
pub struct LogEntry {
    pub id: i32,
    pub content: String,
}

/// Mathematical form of a user row.
pub struct UserRow {
    pub id: i32,
    pub name: Seq<char>,
}

/// Mathematical form of a log row.
pub struct LogRow {
    pub id: i32,
    pub content: Seq<char>,
}

impl View for CreateUser {
    type V = Seq<char>;

    open spec fn view(&self) -> Seq<char> {
        self.name@
    }
}

impl View for CreateLogEntry {
    type V = Seq<char>;

    open spec fn view(&self) -> Seq<char> {
        self.content@
    }
}

impl View for User {
    type V = UserRow;

    open spec fn view(&self) -> UserRow {
        UserRow { id: self.id, name: self.name@ }
    }
}

impl View for LogEntry {
    type V = LogRow;

    open spec fn view(&self) -> LogRow {
        LogRow { id: self.id, content: self.content@ }
    }
}

/// The audit text as a sequence of characters.
pub open spec fn audit_message() -> Seq<char> {
    AUDIT_MESSAGE@
}

impl CreateUser {
    pub fn new(name: String) -> (r: CreateUser)
        ensures
            r@ == name@,
    {
        CreateUser { name }
    }
}

impl CreateLogEntry {
    /// The entry that records the creation of a user.
    pub fn audit() -> (r: CreateLogEntry)
        ensures
            r@ == audit_message(),
    {
        CreateLogEntry { content: String::from_str(AUDIT_MESSAGE) }
    }
}

impl User {
    pub fn new(id: i32, name: String) -> (r: User)
        ensures
            r@ == (UserRow { id, name: name@ }),
    {
        User { id, name }
    }

    /// A copy of this row.
    pub fn duplicate(&self) -> (r: User)
        ensures
            r@ == self@,
    {
        User { id: self.id, name: self.name.clone() }
    }
}

impl LogEntry {
    pub fn new(id: i32, content: String) -> (r: LogEntry)
        ensures
            r@ == (LogRow { id, content: content@ }),
    {
        LogEntry { id, content }
    }
}

} // verus!
