//! Users, sessions, teams and memberships, as stored and as served.
use vstd::prelude::*;

use crate::auth::errors::AuthError;
use crate::text::{chars_of, contains_chars, contains_seq, occurs_at};

verus! {

// ── User ──

/// A user as the API serves it.
#[derive(Debug, Clone)]
pub struct User {
    pub id: String,
    pub email: String,
    pub username: Option<String>,
    pub display_name: Option<String>,
    pub auth_provider: String,
    pub external_id: Option<String>,
    pub avatar_url: Option<String>,
    pub is_active: bool,
    pub is_admin: bool,
    pub created_at: String,
    pub updated_at: String,
    pub last_login_at: Option<String>,
}

/// A row of the `users` table.
#[derive(Debug, Clone)]
pub struct UserRow {
    pub id: String,
    pub email: String,
    pub username: Option<String>,
    pub display_name: Option<String>,
    pub password_hash: Option<String>,
    pub auth_provider: String,
    pub external_id: Option<String>,
    pub avatar_url: Option<String>,
    pub is_active: i32,
    pub is_admin: i32,
    pub created_at: String,
    pub updated_at: String,
    pub last_login_at: Option<String>,
}

/// The user that a row describes: the flags are set when their column is non-zero, and
/// the password hash is left out.
pub open spec fn user_of_row(row: UserRow) -> User {
    User {
        id: row.id,
        email: row.email,
        username: row.username,
        display_name: row.display_name,
        auth_provider: row.auth_provider,
        external_id: row.external_id,
        avatar_url: row.avatar_url,
        is_active: row.is_active != 0,
        is_admin: row.is_admin != 0,
        created_at: row.created_at,
        updated_at: row.updated_at,
        last_login_at: row.last_login_at,
    }
}

/// A user is its row as stored: every field but the two flags is carried over
/// unchanged (in particular the user name and the display name each keep their own
/// column), each flag is set exactly when its column is non-zero, and nothing of the
/// password hash reaches the user.
pub proof fn lemma_user_keeps_its_row(row: UserRow)
    ensures
        user_of_row(row).id == row.id,
        user_of_row(row).email == row.email,
        user_of_row(row).username == row.username,
        user_of_row(row).display_name == row.display_name,
        user_of_row(row).auth_provider == row.auth_provider,
        user_of_row(row).external_id == row.external_id,
        user_of_row(row).avatar_url == row.avatar_url,
        user_of_row(row).created_at == row.created_at,
        user_of_row(row).updated_at == row.updated_at,
        user_of_row(row).last_login_at == row.last_login_at,
        user_of_row(row).is_active <==> row.is_active != 0,
        user_of_row(row).is_admin <==> row.is_admin != 0,
{
}

impl From<UserRow> for User {
    fn from(row: UserRow) -> (user: User)
        ensures
            user.id == row.id,
            user.email == row.email,
            user.username == row.username,
            user.display_name == row.display_name,
            user.auth_provider == row.auth_provider,
            user.external_id == row.external_id,
            user.avatar_url == row.avatar_url,
            user.created_at == row.created_at,
            user.updated_at == row.updated_at,
            user.last_login_at == row.last_login_at,
            user.is_active == (row.is_active != 0),
            user.is_admin == (row.is_admin != 0),
    {
        User {
            id: row.id,
            email: row.email,
            username: row.username,
            display_name: row.display_name,
            auth_provider: row.auth_provider,
            external_id: row.external_id,
            avatar_url: row.avatar_url,
            is_active: row.is_active != 0,
            is_admin: row.is_admin != 0,
            created_at: row.created_at,
            updated_at: row.updated_at,
            last_login_at: row.last_login_at,
        }
    }
}

impl vstd::std_specs::convert::FromSpecImpl<UserRow> for User {
    open spec fn obeys_from_spec() -> bool {
        true
    }

    open spec fn from_spec(row: UserRow) -> User {
        user_of_row(row)
    }
}

/// What creating a user takes.
#[derive(Debug, Clone)]
pub struct CreateUser {
    pub email: String,
    pub username: Option<String>,
    pub display_name: Option<String>,
    pub password: Option<String>,
    pub auth_provider: String,
    pub external_id: Option<String>,
    pub avatar_url: Option<String>,
    pub is_admin: bool,
}

/// The error that a failed insert of a user is reported as: a database error whose
/// message mentions `UNIQUE` means that the user exists already; anything else is a
/// database error with the driver's text.
pub open spec fn insert_error_of(db_message: Option<Seq<char>>, error_text: String) -> AuthError {
    match db_message {
        Some(m) => if contains_seq(m, "UNIQUE"@) {
            AuthError::UserAlreadyExists
        } else {
            AuthError::Database(error_text)
        },
        None => AuthError::Database(error_text),
    }
}

/// A failed insert is reported as an existing user exactly when the database's message
/// names a `UNIQUE` constraint, wherever in the message; every other failure is a
/// database error that carries the driver's text unchanged.
pub proof fn lemma_unique_violation_means_existing_user(
    before: Seq<char>,
    after: Seq<char>,
    db_message: Option<Seq<char>>,
    error_text: String,
)
    ensures
        insert_error_of(Some(before + "UNIQUE"@ + after), error_text) is UserAlreadyExists,
        insert_error_of(None, error_text) == AuthError::Database(error_text),
        insert_error_of(db_message, error_text) is UserAlreadyExists || insert_error_of(
            db_message,
            error_text,
        ) == AuthError::Database(error_text),
{
    let m = before + "UNIQUE"@ + after;
    assert(m.subrange(before.len() as int, (before.len() + "UNIQUE"@.len()) as int) =~= "UNIQUE"@);
    assert(occurs_at(m, "UNIQUE"@, before.len() as int));
}

/// Classifies a failed insert of a user. `db_message` is the database's own message
/// when the failure came from the database, and `error_text` the driver's text of it.
pub fn user_insert_error(db_message: Option<&str>, error_text: String) -> (e: AuthError)
    ensures
        e == insert_error_of(
            match db_message {
                Some(m) => Some(m@),
                None => None,
            },
            error_text,
        ),
{
    match db_message {
        Some(m) => {
            let cs = chars_of(m);
            let pat = chars_of("UNIQUE");
            if contains_chars(cs.as_slice(), pat.as_slice()) {
                AuthError::UserAlreadyExists
            } else {
                AuthError::Database(error_text)
            }
        },
        None => AuthError::Database(error_text),
    }
}

// ── Session ──

/// An instant in UTC: whole seconds since the Unix epoch and nanoseconds past them.
#[derive(Debug, Clone, Copy, PartialEq, Eq, Structural)]
pub struct UtcInstant {
    pub secs: i64,
    pub nanos: u32,
}

/// Instant `a` comes strictly after instant `b`.
pub open spec fn is_after(a: UtcInstant, b: UtcInstant) -> bool {
    a.secs > b.secs || (a.secs == b.secs && a.nanos > b.nanos)
}

/// "Strictly after" is a strict total order on instants, seconds first and then
/// nanoseconds: no instant is after itself, of two different instants exactly one is
/// after the other, it is transitive, and a later second is after any nanosecond of
/// an earlier one.
pub proof fn lemma_after_is_a_strict_total_order(a: UtcInstant, b: UtcInstant, c: UtcInstant)
    ensures
        !is_after(a, a),
        a != b ==> (is_after(a, b) || is_after(b, a)),
        !(is_after(a, b) && is_after(b, a)),
        is_after(a, b) && is_after(b, c) ==> is_after(a, c),
        a.secs > b.secs ==> is_after(a, b),
        a.secs == b.secs ==> (is_after(a, b) <==> a.nanos > b.nanos),
{
}

impl UtcInstant {
    /// Whether this instant comes strictly after `other`.
    pub fn after(&self, other: &UtcInstant) -> (b: bool)
        ensures
            b == is_after(*self, *other),
    {
        self.secs > other.secs || (self.secs == other.secs && self.nanos > other.nanos)
    }
}

/// A valid session.
#[derive(Debug, Clone)]
pub struct UserSession {
    pub id: String,
    pub user_id: String,
    pub expires_at: UtcInstant,
    pub revoked: bool,
}

/// A row of the `user_sessions` table.
#[derive(Debug, Clone)]
pub struct UserSessionRow {
    pub id: String,
    pub user_id: String,
    pub token_hash: String,
    pub expires_at: String,
    pub last_used_at: Option<String>,
    pub revoked: i32,
}

// ── Team ──

/// A team.
#[derive(Debug, Clone)]
pub struct Team {
    pub id: String,
    pub name: String,
    pub description: Option<String>,
    pub created_by: Option<String>,
    pub created_at: String,
    pub updated_at: String,
}

/// A row of the `teams` table.
#[derive(Debug, Clone)]
pub struct TeamRow {
    pub id: String,
    pub name: String,
    pub description: Option<String>,
    pub created_by: Option<String>,
    pub created_at: String,
    pub updated_at: String,
}

/// The team that a row describes.
pub open spec fn team_of_row(row: TeamRow) -> Team {
    Team {
        id: row.id,
        name: row.name,
        description: row.description,
        created_by: row.created_by,
        created_at: row.created_at,
        updated_at: row.updated_at,
    }
}

/// A team is its row as stored: every field is carried over unchanged.
pub proof fn lemma_team_keeps_its_row(row: TeamRow)
    ensures
        team_of_row(row).id == row.id,
        team_of_row(row).name == row.name,
        team_of_row(row).description == row.description,
        team_of_row(row).created_by == row.created_by,
        team_of_row(row).created_at == row.created_at,
        team_of_row(row).updated_at == row.updated_at,
{
}

impl From<TeamRow> for Team {
    fn from(row: TeamRow) -> (team: Team)
        ensures
            team.id == row.id,
            team.name == row.name,
            team.description == row.description,
            team.created_by == row.created_by,
            team.created_at == row.created_at,
            team.updated_at == row.updated_at,
    {
        Team {
            id: row.id,
            name: row.name,
            description: row.description,
            created_by: row.created_by,
            created_at: row.created_at,
            updated_at: row.updated_at,
        }
    }
}

impl vstd::std_specs::convert::FromSpecImpl<TeamRow> for Team {
    open spec fn obeys_from_spec() -> bool {
        true
    }

    open spec fn from_spec(row: TeamRow) -> Team {
        team_of_row(row)
    }
}

/// What creating a team takes.
#[derive(Debug, Clone)]
pub struct CreateTeam {
    pub name: String,
    pub description: Option<String>,
}

// ── Team Members ──

/// A member of a team, with the name of their role.
#[derive(Debug, Clone)]
pub struct TeamMember {
    pub user_id: String,
    pub email: String,
    pub display_name: Option<String>,
    pub role: String,
}

/// A row of the team-members query: the user joined with the role.
#[derive(Debug, Clone)]
pub struct TeamMemberRow {
    pub user_id: String,
    pub email: String,
    pub display_name: Option<String>,
    pub role_name: String,
}

impl TeamMember {
    /// The member that a row of the team-members query describes.
    pub fn from_row(r: TeamMemberRow) -> (m: TeamMember)
        ensures
            m == (TeamMember {
                user_id: r.user_id,
                email: r.email,
                display_name: r.display_name,
                role: r.role_name,
            }),
    {
        TeamMember { user_id: r.user_id, email: r.email, display_name: r.display_name, role: r.role_name }
    }
}

// ── Workspace Members ──

/// What adding a member to a workspace takes.
#[derive(Debug, Clone)]
pub struct AddWorkspaceMember {
    pub user_id: String,
    pub role: String,
}

} // verus!
