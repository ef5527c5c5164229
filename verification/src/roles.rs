//! Role records, their transfer objects, the role repository's command
//! descriptions, and the decisions of the role handlers.
use vstd::prelude::*;

use crate::command::{Command, CommandType, SqlParam};
use crate::status::{Status, StatusCodeConst, StatusMessage};
use crate::textfmt::{dec_int, i64_to_string};
use crate::users::User;

verus! {

/// A user-to-role assignment record.
#[derive(Debug, Clone)]
pub struct UserRoleEntity {
    pub id: i32,
    pub user_id: i32,
    pub role_id: i32,
}

/// A stored role record. Timestamps are Unix seconds.
#[derive(Debug, Clone)]
pub struct RoleEntity {
    pub id: i32,
    pub name: String,
    pub description: Option<String>,
    pub created_at: i64,
    pub updated_at: i64,
}

/// One row of a user's role overview.
#[derive(Debug, Clone)]
pub struct UserRolesEntity {
    pub role_id: i32,
    pub role_name: String,
    pub is_in_role: bool,
}

/// A user-to-role assignment as exposed to callers.
#[derive(Debug, Clone)]
pub struct UserRoleDto {
    pub id: i32,
    pub user_id: i32,
    pub role_id: i32,
}

/// A role as exposed to callers.
#[derive(Debug, Clone)]
pub struct RoleDto {
    pub id: i32,
    pub name: String,
    pub description: Option<String>,
}

/// A request to create a role.
#[derive(Debug, Clone)]
pub struct CreateRoleReqDto {
    pub name: String,
    pub description: Option<String>,
}

/// A request to update a role.
#[derive(Debug, Clone)]
pub struct UpdateRoleReqDto {
    pub id: i32,
    pub name: String,
    pub description: Option<String>,
}

/// A request for one user's role overview.
#[derive(Debug, Clone)]
pub struct GetUserRolesReqDto {
    pub user_id: i32,
}

/// A request to assign a role to a user.
#[derive(Debug, Clone)]
pub struct AssignUserRoleReqDto {
    pub user_id: i32,
    pub role_id: i32,
}

/// One row of a user's role overview as exposed to callers.
#[derive(Debug, Clone)]
pub struct UserRolesResDto {
    pub role_id: i32,
    pub role_name: String,
    pub is_in_role: bool,
}

impl From<UserRoleEntity> for UserRoleDto {
    fn from(value: UserRoleEntity) -> (r: Self) {
        Self { id: value.id, user_id: value.user_id, role_id: value.role_id }
    }
}

impl vstd::std_specs::convert::FromSpecImpl<UserRoleEntity> for UserRoleDto {
    open spec fn obeys_from_spec() -> bool {
        true
    }

    open spec fn from_spec(value: UserRoleEntity) -> Self {
        Self { id: value.id, user_id: value.user_id, role_id: value.role_id }
    }
}

impl From<UserRoleDto> for UserRoleEntity {
    fn from(value: UserRoleDto) -> (r: Self) {
        Self { id: value.id, user_id: value.user_id, role_id: value.role_id }
    }
}

impl vstd::std_specs::convert::FromSpecImpl<UserRoleDto> for UserRoleEntity {
    open spec fn obeys_from_spec() -> bool {
        true
    }

    open spec fn from_spec(value: UserRoleDto) -> Self {
        Self { id: value.id, user_id: value.user_id, role_id: value.role_id }
    }
}

/// The caller-facing view of a role record.
pub fn role_dto_of(value: &RoleEntity) -> (r: RoleDto)
    ensures
        r.id == value.id,
        r.name == value.name,
        r.description == value.description,
{
    RoleDto { id: value.id, name: value.name.clone(), description: value.description.clone() }
}

/// The caller-facing view of one role-overview row.
pub fn user_roles_res_of(value: &UserRolesEntity) -> (r: UserRolesResDto)
    ensures
        r.role_id == value.role_id,
        r.role_name == value.role_name,
        r.is_in_role == value.is_in_role,
{
    UserRolesResDto {
        role_id: value.role_id,
        role_name: value.role_name.clone(),
        is_in_role: value.is_in_role,
    }
}

/// The caller-facing view of a whole role list, in order.
pub fn role_dtos_of(roles: &Vec<RoleEntity>) -> (r: Vec<RoleDto>)
    ensures
        r@.len() == roles@.len(),
        forall|i: int|
            0 <= i < roles@.len() ==> (#[trigger] r@[i]).id == roles@[i].id && r@[i].name
                == roles@[i].name && r@[i].description == roles@[i].description,
{
    let mut out: Vec<RoleDto> = Vec::new();
    let mut i: usize = 0;
    while i < roles.len()
        invariant
            i <= roles@.len(),
            out@.len() == i,
            forall|j: int|
                0 <= j < i ==> (#[trigger] out@[j]).id == roles@[j].id && out@[j].name
                    == roles@[j].name && out@[j].description == roles@[j].description,
        decreases roles@.len() - i,
    {
        out.push(role_dto_of(&roles[i]));
        i = i + 1;
    }
    out
}

/// The caller-facing view of a whole role overview, in order.
pub fn user_roles_res_list_of(rows: &Vec<UserRolesEntity>) -> (r: Vec<UserRolesResDto>)
    ensures
        r@.len() == rows@.len(),
        forall|i: int|
            0 <= i < rows@.len() ==> (#[trigger] r@[i]).role_id == rows@[i].role_id
                && r@[i].role_name == rows@[i].role_name && r@[i].is_in_role == rows@[i].is_in_role,
{
    let mut out: Vec<UserRolesResDto> = Vec::new();
    let mut i: usize = 0;
    while i < rows.len()
        invariant
            i <= rows@.len(),
            out@.len() == i,
            forall|j: int|
                0 <= j < i ==> (#[trigger] out@[j]).role_id == rows@[j].role_id && out@[j].role_name
                    == rows@[j].role_name && out@[j].is_in_role == rows@[j].is_in_role,
        decreases rows@.len() - i,
    {
        out.push(user_roles_res_of(&rows[i]));
        i = i + 1;
    }
    out
}

/// A role entity for a creation request: a fresh record carries id 0 and
/// both timestamps set to the given time.
pub fn role_from_create_req(dto: CreateRoleReqDto, now: i64) -> (r: RoleEntity)
    ensures
        r.id == 0,
        r.name == dto.name,
        r.description == dto.description,
        r.created_at == now,
        r.updated_at == now,
{
    RoleEntity { id: 0, name: dto.name, description: dto.description, created_at: now, updated_at: now }
}

/// A role entity for an update request, both timestamps set to the given
/// time.
pub fn role_from_update_req(dto: UpdateRoleReqDto, now: i64) -> (r: RoleEntity)
    ensures
        r.id == dto.id,
        r.name == dto.name,
        r.description == dto.description,
        r.created_at == now,
        r.updated_at == now,
{
    RoleEntity {
        id: dto.id,
        name: dto.name,
        description: dto.description,
        created_at: now,
        updated_at: now,
    }
}

/// The command that stores a new role: name, then description (an absent
/// description binds as the empty string).
pub fn create_role_command(role: &RoleEntity) -> (r: Command)
    ensures
        r.kind == CommandType::StoreProcedure,
        r.text@ == "[dbo].[create_role]"@,
        r.params@.len() == 2,
        r.params@[0] == SqlParam::Str(role.name),
        r.params@[1] matches SqlParam::Str(d) && d@ == (match role.description {
            Some(desc) => desc@,
            None => Seq::<char>::empty(),
        }),
{
    let description = match &role.description {
        Some(d) => d.clone(),
        None => String::new(),
    };
    let mut params: Vec<SqlParam> = Vec::new();
    params.push(SqlParam::Str(role.name.clone()));
    params.push(SqlParam::Str(description));
    Command { kind: CommandType::StoreProcedure, text: "[dbo].[create_role]".to_owned(), params }
}

/// The command that updates a role: id, name, then description (an absent
/// description binds as the empty string).
pub fn update_role_command(role: &RoleEntity) -> (r: Command)
    ensures
        r.kind == CommandType::StoreProcedure,
        r.text@ == "[dbo].[update_role]"@,
        r.params@.len() == 3,
        r.params@[0] == SqlParam::Int(role.id as i64),
        r.params@[1] == SqlParam::Str(role.name),
        r.params@[2] matches SqlParam::Str(d) && d@ == (match role.description {
            Some(desc) => desc@,
            None => Seq::<char>::empty(),
        }),
{
    let description = match &role.description {
        Some(d) => d.clone(),
        None => String::new(),
    };
    let mut params: Vec<SqlParam> = Vec::new();
    params.push(SqlParam::Int(role.id as i64));
    params.push(SqlParam::Str(role.name.clone()));
    params.push(SqlParam::Str(description));
    Command { kind: CommandType::StoreProcedure, text: "[dbo].[update_role]".to_owned(), params }
}

/// The command that looks a role up by name.
pub fn select_role_by_name_command(name: &str) -> (r: Command)
    ensures
        r.kind == CommandType::StoreProcedure,
        r.text@ == "[dbo].[select_role_by_name]"@,
        r.params@.len() == 1,
        r.params@[0] matches SqlParam::Str(n) && n@ == name@,
{
    let mut params: Vec<SqlParam> = Vec::new();
    params.push(SqlParam::Str(name.to_owned()));
    Command {
        kind: CommandType::StoreProcedure,
        text: "[dbo].[select_role_by_name]".to_owned(),
        params,
    }
}

/// The command that looks a role up by id.
pub fn select_role_by_id_command(id: i32) -> (r: Command)
    ensures
        r.kind == CommandType::StoreProcedure,
        r.text@ == "[dbo].[select_role_by_id]"@,
        r.params@ =~= seq![SqlParam::Int(id as i64)],
{
    let mut params: Vec<SqlParam> = Vec::new();
    params.push(SqlParam::Int(id as i64));
    Command {
        kind: CommandType::StoreProcedure,
        text: "[dbo].[select_role_by_id]".to_owned(),
        params,
    }
}

/// The command that lists one user's role overview.
pub fn select_user_role_command(user_id: i32) -> (r: Command)
    ensures
        r.kind == CommandType::StoreProcedure,
        r.text@ == "[dbo].[select_user_role]"@,
        r.params@ =~= seq![SqlParam::Int(user_id as i64)],
{
    let mut params: Vec<SqlParam> = Vec::new();
    params.push(SqlParam::Int(user_id as i64));
    Command {
        kind: CommandType::StoreProcedure,
        text: "[dbo].[select_user_role]".to_owned(),
        params,
    }
}

/// Creating a role is refused exactly when one of that name already exists;
/// the refusal names the role.
pub fn create_role_conflict(existing: &Option<RoleEntity>, name: &String) -> (r: Option<Status>)
    ensures
        r is Some <==> existing is Some,
        r matches Some(s) ==> s.status == 400 && s.code@ == StatusCodeConst::ERROR@ && s.message@
            =~= "Role with name '"@ + name@ + "'"@ + " already existed"@,
{
    match existing {
        Some(_) => {
            let mut subject = "Role with name '".to_owned();
            subject.append(name.as_str());
            subject.append("'");
            let msg = StatusMessage::Existed(subject).to_str();
            Some(Status::bad_request(msg.as_str()))
        },
        None => None,
    }
}

/// Updating a role goes ahead only when the id is known and the new name is
/// free; each refusal names what was wrong.
pub fn update_role_gate(by_id: &Option<RoleEntity>, name_taken: bool, id: i32, name: &String) -> (r:
    Result<(), Status>)
    ensures
        by_id is None ==> (r matches Err(s) && s.status == 404 && s.code@
            == StatusCodeConst::NOT_FOUND@ && s.message@ =~= "Role with id '"@ + dec_int(id as int)
            + "'"@ + " not found"@),
        by_id is Some && name_taken ==> (r matches Err(s) && s.status == 400 && s.code@
            == StatusCodeConst::ERROR@ && s.message@ =~= "Role name '"@ + name@ + "'"@
            + " already existed"@),
        by_id is Some && !name_taken ==> r is Ok,
{
    match by_id {
        None => {
            let mut subject = "Role with id '".to_owned();
            let digits = i64_to_string(id as i64);
            subject.append(digits.as_str());
            subject.append("'");
            let msg = StatusMessage::NotFound(subject).to_str();
            Err(Status::not_found(msg.as_str()))
        },
        Some(_) => {
            if name_taken {
                let mut subject = "Role name '".to_owned();
                subject.append(name.as_str());
                subject.append("'");
                let msg = StatusMessage::Existed(subject).to_str();
                Err(Status::bad_request(msg.as_str()))
            } else {
                Ok(())
            }
        },
    }
}

/// A user's role overview is served only for a known user; the refusal
/// names the user id.
pub fn user_roles_gate(user: &Option<User>, user_id: i32) -> (r: Result<(), Status>)
    ensures
        user is Some <==> r is Ok,
        r matches Err(s) ==> s.status == 404 && s.code@ == StatusCodeConst::NOT_FOUND@ && s.message@
            =~= "User with id '"@ + dec_int(user_id as int) + "'"@ + " not found"@,
{
    match user {
        Some(_) => Ok(()),
        None => {
            let mut subject = "User with id '".to_owned();
            let digits = i64_to_string(user_id as i64);
            subject.append(digits.as_str());
            subject.append("'");
            let msg = StatusMessage::NotFound(subject).to_str();
            Err(Status::not_found(msg.as_str()))
        },
    }
}

/// Assigning a role a user already holds is refused.
pub fn assign_user_role_conflict(already_assigned: bool) -> (r: Option<Status>)
    ensures
        r is Some <==> already_assigned,
        r matches Some(s) ==> s.status == 409 && s.code@ == StatusCodeConst::UQIQUE_CONSTRAINT@
            && s.message@ == "User already has that role"@,
{
    if already_assigned {
        Some(Status::uqique_constraint_voilation("User already has that role"))
    } else {
        None
    }
}

} // verus!
