//! User records, their transfer objects, and the user repository's command
//! descriptions. Timestamps are carried as Unix seconds; the database layer
//! outside this crate converts to and from its own date-time values.
use vstd::prelude::*;

use crate::command::{Command, CommandType, SqlParam};
use crate::password::{password_matches, PasswordHashing};
use crate::status::{Status, StatusCodeConst, StatusMessage};

verus! {

/// The roles a user can hold.
#[derive(Debug, Clone, Copy, PartialEq, Eq, Structural)]
pub enum UserRole {
    Admin,
    Moderator,
    User,
}

/// The storage text of each role.
pub open spec fn role_text(r: UserRole) -> Seq<char> {
    match r {
        UserRole::Admin => "admin"@,
        UserRole::Moderator => "moderator"@,
        UserRole::User => "user"@,
    }
}

/// The role a storage text denotes; unknown text means the ordinary role.
pub open spec fn role_of(s: Seq<char>) -> UserRole {
    if s == "admin"@ {
        UserRole::Admin
    } else if s == "moderator"@ {
        UserRole::Moderator
    } else {
        UserRole::User
    }
}

impl UserRole {
    /// The storage text of this role.
    pub fn to_str(&self) -> (r: &'static str)
        ensures
            r@ == role_text(*self),
    {
        match self {
            UserRole::Admin => "admin",
            UserRole::Moderator => "moderator",
            UserRole::User => "user",
        }
    }

    /// Parses a storage text; unknown text falls back to the ordinary role.
    pub fn from_str(s: &str) -> (r: Self)
        ensures
            r == role_of(s@),
    {
        if s.to_owned() == "admin".to_owned() {
            UserRole::Admin
        } else if s.to_owned() == "moderator".to_owned() {
            UserRole::Moderator
        } else {
            UserRole::User
        }
    }
}

/// A stored user record.
#[derive(Debug)]
pub struct User {
    pub id: i32,
    pub user_name: String,
    pub name: String,
    pub password: String,
    pub email: String,
    pub role: UserRole,
    pub created_at: i64,
    pub updated_at: i64,
}

impl Clone for User {
    fn clone(&self) -> (r: Self)
        ensures
            r == *self,
    {
        User {
            id: self.id,
            user_name: self.user_name.clone(),
            name: self.name.clone(),
            password: self.password.clone(),
            email: self.email.clone(),
            role: self.role,
            created_at: self.created_at,
            updated_at: self.updated_at,
        }
    }
}

/// The user fields exposed to callers.
#[derive(Debug, Clone)]
pub struct UserDto {
    pub id: i32,
    pub user_name: String,
    pub name: String,
    pub email: String,
    pub role: UserRole,
}

/// The caller-facing view of a user record: everything but the password
/// hash and the timestamps.
pub open spec fn user_dto_of(user: User) -> UserDto {
    UserDto {
        id: user.id,
        name: user.name,
        user_name: user.user_name,
        email: user.email,
        role: user.role,
    }
}

impl From<User> for UserDto {
    fn from(user: User) -> (r: Self) {
        UserDto {
            id: user.id,
            name: user.name,
            user_name: user.user_name,
            email: user.email,
            role: user.role,
        }
    }
}

impl vstd::std_specs::convert::FromSpecImpl<User> for UserDto {
    open spec fn obeys_from_spec() -> bool {
        true
    }

    open spec fn from_spec(user: User) -> Self {
        user_dto_of(user)
    }
}

/// A registration request.
#[derive(Debug, Clone)]
pub struct UserRegisterReqDto {
    pub user_name: String,
    pub password: String,
    pub email: String,
    pub name: String,
    pub role: String,
}

/// A lookup request by user id.
#[derive(Debug, Clone)]
pub struct GetUserByIdReqDto {
    pub id: i32,
}

/// An update request: absent fields keep the stored value.
#[derive(Debug, Clone)]
pub struct UpdateUserReqDto {
    pub user_name: String,
    pub name: Option<String>,
    pub email: Option<String>,
    pub role: Option<String>,
}

/// Applies an update request to a stored user: each present field replaces
/// the stored one, an absent field leaves it alone; the role text is parsed
/// as `UserRole::from_str` does. Identity, password and timestamps are
/// untouched.
pub fn apply_user_update(u: User, upd: &UpdateUserReqDto) -> (r: User)
    ensures
        r.id == u.id,
        r.user_name == u.user_name,
        r.password == u.password,
        r.created_at == u.created_at,
        r.updated_at == u.updated_at,
        (match upd.name {
            Some(n) => r.name == n,
            None => r.name == u.name,
        }),
        (match upd.email {
            Some(e) => r.email == e,
            None => r.email == u.email,
        }),
        (match upd.role {
            Some(ro) => r.role == role_of(ro@),
            None => r.role == u.role,
        }),
{
    let name = match &upd.name {
        Some(n) => n.clone(),
        None => u.name,
    };
    let email = match &upd.email {
        Some(e) => e.clone(),
        None => u.email,
    };
    let role = match &upd.role {
        Some(ro) => UserRole::from_str(ro.as_str()),
        None => u.role,
    };
    User {
        id: u.id,
        user_name: u.user_name,
        name,
        password: u.password,
        email,
        role,
        created_at: u.created_at,
        updated_at: u.updated_at,
    }
}

/// The command that stores a new user: name, user name, email, the already
/// hashed password, and the requested role text, in that binding order.
pub fn create_user_command(user: &UserRegisterReqDto, hashed_password: String) -> (r: Command)
    ensures
        r.kind == CommandType::StoreProcedure,
        r.text@ == "[dbo].[create_user]"@,
        r.params@ =~= seq![
            SqlParam::Str(user.name),
            SqlParam::Str(user.user_name),
            SqlParam::Str(user.email),
            SqlParam::Str(hashed_password),
            SqlParam::Str(user.role),
        ],
{
    let mut params: Vec<SqlParam> = Vec::new();
    params.push(SqlParam::Str(user.name.clone()));
    params.push(SqlParam::Str(user.user_name.clone()));
    params.push(SqlParam::Str(user.email.clone()));
    params.push(SqlParam::Str(hashed_password));
    params.push(SqlParam::Str(user.role.clone()));
    Command { kind: CommandType::StoreProcedure, text: "[dbo].[create_user]".to_owned(), params }
}

/// The command that looks a user up by id.
pub fn select_user_command(id: i32) -> (r: Command)
    ensures
        r.kind == CommandType::StoreProcedure,
        r.text@ == "[dbo].[select_user]"@,
        r.params@ =~= seq![SqlParam::Int(id as i64)],
{
    let mut params: Vec<SqlParam> = Vec::new();
    params.push(SqlParam::Int(id as i64));
    Command { kind: CommandType::StoreProcedure, text: "[dbo].[select_user]".to_owned(), params }
}

/// The command that looks a user up by user name.
pub fn select_user_by_user_name_command(username: &str) -> (r: Command)
    ensures
        r.kind == CommandType::StoreProcedure,
        r.text@ == "[dbo].[select_user_by_user_name]"@,
        r.params@.len() == 1,
        r.params@[0] matches SqlParam::Str(u) && u@ == username@,
{
    let mut params: Vec<SqlParam> = Vec::new();
    params.push(SqlParam::Str(username.to_owned()));
    Command {
        kind: CommandType::StoreProcedure,
        text: "[dbo].[select_user_by_user_name]".to_owned(),
        params,
    }
}

/// The command that lists every user.
pub fn select_users_command() -> (r: Command)
    ensures
        r.kind == CommandType::StoreProcedure,
        r.text@ == "[dbo].[select_users]"@,
        r.params@ =~= Seq::<SqlParam>::empty(),
{
    Command {
        kind: CommandType::StoreProcedure,
        text: "[dbo].[select_users]".to_owned(),
        params: Vec::new(),
    }
}

/// The command that updates a user: name, user name, email and role text,
/// in that binding order.
pub fn update_user_command(user: &UserDto) -> (r: Command)
    ensures
        r.kind == CommandType::StoreProcedure,
        r.text@ == "[dbo].[update_user]"@,
        r.params@.len() == 4,
        r.params@[0] == SqlParam::Str(user.name),
        r.params@[1] == SqlParam::Str(user.user_name),
        r.params@[2] == SqlParam::Str(user.email),
        r.params@[3] matches SqlParam::Str(ro) && ro@ == role_text(user.role),
{
    let mut params: Vec<SqlParam> = Vec::new();
    params.push(SqlParam::Str(user.name.clone()));
    params.push(SqlParam::Str(user.user_name.clone()));
    params.push(SqlParam::Str(user.email.clone()));
    params.push(SqlParam::Str(user.role.to_str().to_owned()));
    Command { kind: CommandType::StoreProcedure, text: "[dbo].[update_user]".to_owned(), params }
}

/// The caller-facing view of a whole user list, in order.
pub fn user_dtos_of(users: Vec<User>) -> (r: Vec<UserDto>)
    ensures
        r@.len() == users@.len(),
        forall|i: int| 0 <= i < users@.len() ==> #[trigger] r@[i] == user_dto_of(users@[i]),
{
    let mut out: Vec<UserDto> = Vec::new();
    let mut i: usize = 0;
    while i < users.len()
        invariant
            i <= users@.len(),
            out@.len() == i,
            forall|j: int| 0 <= j < i ==> #[trigger] out@[j] == user_dto_of(users@[j]),
        decreases users@.len() - i,
    {
        out.push(UserDto::from(users[i].clone()));
        i = i + 1;
    }
    out
}

/// A lookup by id answers with the user's caller-facing view; a missing
/// user is a named not-found refusal.
pub fn user_by_id_response(user: Option<User>) -> (r: Result<UserDto, Status>)
    ensures
        user matches Some(u) ==> r == Ok::<UserDto, Status>(user_dto_of(u)),
        user is None ==> (r matches Err(s) && s.status == 404 && s.code@
            == StatusCodeConst::NOT_FOUND@ && s.message@ == "User"@ + " not found"@),
{
    match user {
        Some(u) => Ok(UserDto::from(u)),
        None => {
            let msg = StatusMessage::NotFound("User".to_owned()).to_str();
            Err(Status::not_found(msg.as_str()))
        },
    }
}

/// Plans storing a new user: refused when the user name is already taken;
/// otherwise the password is hashed and the resulting command binds name,
/// user name, email, the hash, and the role text, in that order. A hash
/// whose computation fails is reported as a refusal.
pub fn plan_user_create(user: &UserRegisterReqDto, already_exists: bool) -> (r: Result<
    Command,
    Status,
>)
    ensures
        already_exists ==> (r matches Err(s) && s.status == 400 && s.code@
            == StatusCodeConst::ERROR@ && s.message@ == "Username already exists"@),
        !already_exists ==> (match r {
            Ok(cmd) => cmd.kind == CommandType::StoreProcedure && cmd.text@
                == "[dbo].[create_user]"@ && cmd.params@.len() == 5 && cmd.params@[0]
                == SqlParam::Str(user.name) && cmd.params@[1] == SqlParam::Str(user.user_name)
                && cmd.params@[2] == SqlParam::Str(user.email) && (cmd.params@[3] matches
            SqlParam::Str(h) && password_matches(user.password@, h@)) && cmd.params@[4]
                == SqlParam::Str(user.role),
            Err(s) => s.status == 400 && s.code@ == StatusCodeConst::ERROR@ && s.message@
                == "Failed to hash password"@,
        }),
{
    if already_exists {
        return Err(Status::bad_request("Username already exists"));
    }
    match PasswordHashing::hash_password(user.password.as_str()) {
        Ok(hashed) => Ok(create_user_command(user, hashed)),
        Err(_) => Err(Status::bad_request("Failed to hash password")),
    }
}

} // verus!
