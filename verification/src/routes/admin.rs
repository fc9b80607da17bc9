//! The user- and team-management routes: who may use them, what they ask the
//! authentication service to do, and how they answer.
use vstd::prelude::*;

use crate::auth::models::{CreateUser, Team, User};
use crate::routes::auth::ErrorReply;
use crate::text::{concat2, owned};

verus! {

/// The body of a request to create a local user.
#[derive(Debug, Clone)]
pub struct CreateLocalUserRequest {
    pub email: String,
    pub username: Option<String>,
    pub display_name: Option<String>,
    pub password: String,
    pub is_admin: bool,
}

/// The body of a request to change a user.
#[derive(Debug, Clone)]
pub struct UpdateUserRequest {
    pub is_active: Option<bool>,
    pub is_admin: Option<bool>,
    pub display_name: Option<String>,
}

/// The body of a password reset.
#[derive(Debug, Clone)]
pub struct ResetPasswordRequest {
    pub new_password: String,
}

/// The body of a request to add a member to a team.
#[derive(Debug, Clone)]
pub struct AddTeamMemberRequest {
    pub user_id: String,
    pub role: String,
}

/// The refusal of an administrative route to a user who is not an administrator.
pub open spec fn admin_required_error() -> Seq<char> {
    "Admin access required"@
}

/// Administrative routes are for administrators only: anyone else is refused with
/// status 403.
pub fn require_admin(user: &User) -> (res: Result<(), ErrorReply>)
    ensures
        user.is_admin <==> res is Ok,
        res matches Err(r) ==> (r.status == 403 && r.error@ == admin_required_error()),
{
    if !user.is_admin {
        return Err(ErrorReply { status: 403, error: owned("Admin access required") });
    }
    Ok(())
}

/// What creating a local user asks of the service.
pub fn local_user_data(body: CreateLocalUserRequest) -> (data: CreateUser)
    ensures
        data.email == body.email,
        data.username == body.username,
        data.display_name == body.display_name,
        data.password == Some(body.password),
        data.auth_provider@ == "local"@,
        data.external_id is None,
        data.avatar_url is None,
        data.is_admin == body.is_admin,
{
    CreateUser {
        email: body.email,
        username: body.username,
        display_name: body.display_name,
        password: Some(body.password),
        auth_provider: owned("local"),
        external_id: None,
        avatar_url: None,
        is_admin: body.is_admin,
    }
}

/// One change that an update request makes to a user.
#[derive(Debug, Clone)]
pub enum UserChange {
    Activate,
    Deactivate,
    SetAdmin(bool),
}

/// The changes that an update request makes, in order: the active flag first, then
/// the administrator flag. The display name is not changed.
pub open spec fn user_changes_of(body: UpdateUserRequest) -> Seq<UserChange> {
    (match body.is_active {
        Some(true) => seq![UserChange::Activate],
        Some(false) => seq![UserChange::Deactivate],
        None => Seq::<UserChange>::empty(),
    }) + (match body.is_admin {
        Some(b) => seq![UserChange::SetAdmin(b)],
        None => Seq::<UserChange>::empty(),
    })
}

/// An update request makes one change per flag it carries, and no other: a requested
/// active flag comes first, as an activation or a deactivation, and a requested
/// administrator flag, set or cleared, comes last. The display name changes nothing.
pub proof fn lemma_user_changes_follow_the_request(body: UpdateUserRequest)
    ensures
        user_changes_of(body).len() == (if body.is_active is Some { 1int } else { 0int }) + (
        if body.is_admin is Some {
            1int
        } else {
            0int
        }),
        body.is_active == Some(true) ==> user_changes_of(body)[0] == UserChange::Activate,
        body.is_active == Some(false) ==> user_changes_of(body)[0] == UserChange::Deactivate,
        body.is_admin matches Some(b) ==> user_changes_of(body).last() == UserChange::SetAdmin(b),
        forall|i: int|
            0 <= i < user_changes_of(body).len() ==> (#[trigger] user_changes_of(body)[i] is SetAdmin
                ==> body.is_admin == Some(user_changes_of(body)[i]->SetAdmin_0)),
{
}

/// The changes that an update request makes to a user, in the order they are made.
pub fn user_changes(body: &UpdateUserRequest) -> (res: Vec<UserChange>)
    ensures
        res@ == user_changes_of(*body),
        res@.len() == (if body.is_active is Some { 1int } else { 0int }) + (if body.is_admin is Some {
            1int
        } else {
            0int
        }),
        body.is_active matches Some(active) ==> res@[0] == (if active {
            UserChange::Activate
        } else {
            UserChange::Deactivate
        }),
        body.is_admin matches Some(admin) ==> res@.last() == UserChange::SetAdmin(admin),
{
    let mut v: Vec<UserChange> = Vec::new();
    match body.is_active {
        Some(a) => {
            if a {
                v.push(UserChange::Activate);
            } else {
                v.push(UserChange::Deactivate);
            }
        },
        None => {},
    }
    match body.is_admin {
        Some(b) => v.push(UserChange::SetAdmin(b)),
        None => {},
    }
    assert(v@ =~= user_changes_of(*body));
    v
}

/// The answer for a user looked up after an update: the user, or 404 when there is
/// none.
pub fn found_user(user: Option<User>) -> (res: Result<User, ErrorReply>)
    ensures
        match user {
            Some(u) => (res matches Ok(v) && v == u),
            None => (res matches Err(r) && r.status == 404 && r.error@ == "User not found"@),
        },
{
    match user {
        Some(u) => Ok(u),
        None => Err(ErrorReply { status: 404, error: owned("User not found") }),
    }
}

/// The answer for a team looked up by id: the team, or 404 when there is none.
pub fn found_team(team: Option<Team>) -> (res: Result<Team, ErrorReply>)
    ensures
        match team {
            Some(t) => (res matches Ok(v) && v == t),
            None => (res matches Err(r) && r.status == 404 && r.error@ == "Team not found"@),
        },
{
    match team {
        Some(t) => Ok(t),
        None => Err(ErrorReply { status: 404, error: owned("Team not found") }),
    }
}

/// The id of the role that a team-member request names: `role-` and the role.
pub fn team_role_id(role: &str) -> (res: String)
    ensures
        res@ == "role-"@ + role@,
{
    concat2("role-", role)
}

} // verus!
