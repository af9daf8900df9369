//! Panel users and the operation log: who may manage users, what a new user
//! must give, and how the log is paged.
use vstd::prelude::*;

use crate::auth::{is_admin_role, Auth};
use crate::error::AppError;
use crate::text::{owned, parse_i64, parse_signed, str_eq};

verus! {

/// An entry of the operation log.
#[derive(Debug, Clone)]
pub struct OperationLog {
    pub id: i64,
    pub user_id: Option<String>,
    pub username: Option<String>,
    pub action: String,
    pub target: Option<String>,
    pub details: Option<String>,
    pub created_at: String,
}

/// A change to a user: each given field is replaced.
#[derive(Debug, Clone)]
pub struct UpdateUserRequest {
    pub username: Option<String>,
    pub password: Option<String>,
    pub role: Option<String>,
}

/// A user to create.
#[derive(Debug, Clone)]
pub struct CreateUserRequest {
    pub username: String,
    pub password: String,
    pub role: String,
}

/// The roles a user can have.
pub open spec fn is_known_role(role: Seq<char>) -> bool {
    role == "admin"@ || role == "operator"@ || role == "viewer"@
}

/// Whether `role` is `admin`, `operator` or `viewer`.
pub fn known_role(role: &str) -> (r: bool)
    ensures
        r == is_known_role(role@),
{
    str_eq(role, "admin") || str_eq(role, "operator") || str_eq(role, "viewer")
}

/// Only admins manage users: `Forbidden` with `message` for the others.
pub fn require_user_admin(auth: &Auth, message: &str) -> (r: Result<(), AppError>)
    ensures
        r is Ok <==> is_admin_role(auth.role@),
        r matches Err(e) ==> (e matches AppError::Forbidden(m) && m@ == message@),
{
    if auth.is_admin() {
        Ok(())
    } else {
        Err(AppError::Forbidden(owned(message)))
    }
}

/// Whether a user can be created from `req`: by an admin, with a user name
/// and a password, and a known role.
pub fn validate_new_user(auth: &Auth, req: &CreateUserRequest) -> (r: Result<(), AppError>)
    ensures
        r is Ok <==> is_admin_role(auth.role@) && req.username@.len() > 0 && req.password@.len() > 0
            && is_known_role(req.role@),
        !is_admin_role(auth.role@) ==> (r matches Err(AppError::Forbidden(m)) && m@
            == "Only administrators can create users"@),
        is_admin_role(auth.role@) && (req.username@.len() == 0 || req.password@.len() == 0) ==> (r matches Err(
            AppError::BadRequest(m),
        ) && m@ == "Username and password cannot be empty"@),
        is_admin_role(auth.role@) && req.username@.len() > 0 && req.password@.len() > 0 && !is_known_role(req.role@)
            ==> (r matches Err(AppError::BadRequest(m)) && m@ == "Invalid role. Expected one of: admin, operator, viewer"@),
{
    if !auth.is_admin() {
        return Err(AppError::Forbidden(owned("Only administrators can create users")));
    }
    if req.username.unicode_len() == 0 || req.password.unicode_len() == 0 {
        return Err(AppError::BadRequest(owned("Username and password cannot be empty")));
    }
    if !known_role(req.role.as_str()) {
        return Err(AppError::BadRequest(owned("Invalid role. Expected one of: admin, operator, viewer")));
    }
    Ok(())
}

/// Whether `auth` may apply `req` to a user: an admin, and a role, when one
/// is given, that is `admin`, `operator` or `viewer`.
pub fn validate_user_update(auth: &Auth, req: &UpdateUserRequest) -> (r: Result<(), AppError>)
    ensures
        r is Ok <==> is_admin_role(auth.role@) && (req.role matches Some(x) ==> is_known_role(x@)),
        !is_admin_role(auth.role@) ==> (r matches Err(AppError::Forbidden(m)) && m@
            == "Only administrators can update users"@),
        is_admin_role(auth.role@) && (req.role matches Some(x) && !is_known_role(x@)) ==> (r matches Err(
            AppError::BadRequest(m),
        ) && m@ == "Invalid role. Expected one of: admin, operator, viewer"@),
{
    if !auth.is_admin() {
        return Err(AppError::Forbidden(owned("Only administrators can update users")));
    }
    match &req.role {
        Some(role) => {
            if !known_role(role.as_str()) {
                return Err(AppError::BadRequest(owned("Invalid role. Expected one of: admin, operator, viewer")));
            }
        },
        None => {},
    }
    Ok(())
}

/// The error when the user name is taken.
pub fn username_taken() -> (r: AppError)
    ensures
        r matches AppError::Conflict(m) && m@ == "Username already exists"@,
{
    AppError::Conflict(owned("Username already exists"))
}

/// Whether `auth` may delete the user `user_id`: an admin, and not their
/// own account.
pub fn check_user_deletion(auth: &Auth, user_id: &str) -> (r: Result<(), AppError>)
    ensures
        r is Ok <==> is_admin_role(auth.role@) && user_id@ != auth.user_id@,
        !is_admin_role(auth.role@) ==> (r matches Err(AppError::Forbidden(m)) && m@
            == "Only administrators can delete users"@),
        is_admin_role(auth.role@) && user_id@ == auth.user_id@ ==> (r matches Err(AppError::BadRequest(m)) && m@
            == "Cannot delete your own user account"@),
{
    if !auth.is_admin() {
        return Err(AppError::Forbidden(owned("Only administrators can delete users")));
    }
    if str_eq(user_id, auth.user_id.as_str()) {
        return Err(AppError::BadRequest(owned("Cannot delete your own user account")));
    }
    Ok(())
}

/// How many fields an update changes.
pub open spec fn update_field_count(req: UpdateUserRequest) -> nat {
    (if req.username is Some { 1nat } else { 0nat }) + (if req.password is Some { 1nat } else { 0nat }) + (
    if req.role is Some { 1nat } else { 0nat })
}

impl UpdateUserRequest {
    /// How many fields the update changes.
    pub fn field_count(&self) -> (r: usize)
        ensures
            r == update_field_count(*self),
    {
        let mut n: usize = 0;
        if self.username.is_some() {
            n = n + 1;
        }
        if self.password.is_some() {
            n = n + 1;
        }
        if self.role.is_some() {
            n = n + 1;
        }
        n
    }
}

/// A number given in a query: its value when it reads as an `i64`, else
/// the default.
pub open spec fn query_number(raw: Option<Seq<char>>, default: i64) -> int {
    match raw {
        Some(s) => match parse_signed(s, i64::MAX as nat) {
            Some(v) => v,
            None => default as int,
        },
        None => default as int,
    }
}

/// The page of the operation log asked for: `limit` (100 by default) and
/// `offset` (0 by default), each ignored when it does not read as a number.
pub fn log_page(limit: Option<&str>, offset: Option<&str>) -> (r: (i64, i64))
    ensures
        r.0 == query_number(
            match limit {
                Some(s) => Some(s@),
                None => None,
            },
            100,
        ),
        r.1 == query_number(
            match offset {
                Some(s) => Some(s@),
                None => None,
            },
            0,
        ),
{
    let l = match limit {
        Some(s) => match parse_i64(s) {
            Some(v) => v,
            None => 100,
        },
        None => 100,
    };
    let o = match offset {
        Some(s) => match parse_i64(s) {
            Some(v) => v,
            None => 0,
        },
        None => 0,
    };
    (l, o)
}

} // verus!
