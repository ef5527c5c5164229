use api_core::command::{CommandType, SqlParam};
use api_core::password::PasswordHashing;
use api_core::roles::{
    assign_user_role_conflict, create_role_command, create_role_conflict, role_dto_of,
    role_dtos_of, role_from_create_req, role_from_update_req, select_role_by_id_command,
    select_role_by_name_command, select_user_role_command, update_role_command, update_role_gate,
    user_roles_gate, user_roles_res_list_of, CreateRoleReqDto, RoleEntity, UpdateRoleReqDto,
    UserRoleDto, UserRoleEntity, UserRolesEntity,
};
use api_core::users::{
    apply_user_update, create_user_command, plan_user_create, select_user_by_user_name_command,
    select_user_command, select_users_command, update_user_command, user_by_id_response,
    user_dtos_of, UpdateUserReqDto, User, UserDto, UserRegisterReqDto, UserRole,
};

fn sample_user() -> User {
    User {
        id: 1,
        user_name: "nith".to_string(),
        name: "Nith".to_string(),
        password: "hash".to_string(),
        email: "nith@example.com".to_string(),
        role: UserRole::User,
        created_at: 100,
        updated_at: 200,
    }
}

#[test]
fn role_text_round_trips() {
    assert_eq!(UserRole::Admin.to_str(), "admin");
    assert_eq!(UserRole::Moderator.to_str(), "moderator");
    assert_eq!(UserRole::User.to_str(), "user");
    assert_eq!(UserRole::from_str("admin"), UserRole::Admin);
    assert_eq!(UserRole::from_str("moderator"), UserRole::Moderator);
    assert_eq!(UserRole::from_str("user"), UserRole::User);
    assert_eq!(UserRole::from_str("anything else"), UserRole::User);
}

#[test]
fn user_dto_drops_password_and_timestamps() {
    let dto = UserDto::from(sample_user());
    assert_eq!(dto.id, 1);
    assert_eq!(dto.user_name, "nith");
    assert_eq!(dto.name, "Nith");
    assert_eq!(dto.email, "nith@example.com");
    assert_eq!(dto.role, UserRole::User);
}

#[test]
fn update_replaces_only_present_fields() {
    let upd = UpdateUserReqDto {
        user_name: "nith".to_string(),
        name: Some("New Name".to_string()),
        email: None,
        role: Some("admin".to_string()),
    };
    let r = apply_user_update(sample_user(), &upd);
    assert_eq!(r.name, "New Name");
    assert_eq!(r.email, "nith@example.com");
    assert_eq!(r.role, UserRole::Admin);
    assert_eq!(r.id, 1);
    assert_eq!(r.password, "hash");
    assert_eq!(r.created_at, 100);
    assert_eq!(r.updated_at, 200);
}

#[test]
fn user_commands_bind_in_declaration_order() {
    let reg = UserRegisterReqDto {
        user_name: "nith".to_string(),
        password: "pw".to_string(),
        email: "e@x".to_string(),
        name: "Nith".to_string(),
        role: "admin".to_string(),
    };
    let cmd = create_user_command(&reg, "HASH".to_string());
    assert_eq!(cmd.kind, CommandType::StoreProcedure);
    assert_eq!(cmd.text, "[dbo].[create_user]");
    let texts: Vec<String> = cmd
        .params
        .iter()
        .map(|p| match p {
            SqlParam::Str(s) => s.clone(),
            _ => panic!("unexpected parameter kind"),
        })
        .collect();
    assert_eq!(texts, vec!["Nith", "nith", "e@x", "HASH", "admin"]);

    let cmd = select_user_command(5);
    assert_eq!(cmd.text, "[dbo].[select_user]");
    assert!(matches!(cmd.params[0], SqlParam::Int(5)));

    let cmd = select_user_by_user_name_command("nith");
    assert_eq!(cmd.text, "[dbo].[select_user_by_user_name]");

    let cmd = select_users_command();
    assert_eq!(cmd.text, "[dbo].[select_users]");
    assert!(cmd.params.is_empty());

    let cmd = update_user_command(&UserDto::from(sample_user()));
    assert_eq!(cmd.text, "[dbo].[update_user]");
    assert!(matches!(&cmd.params[3], SqlParam::Str(s) if s == "user"));
}

#[test]
fn planning_a_create_hashes_the_password() {
    let reg = UserRegisterReqDto {
        user_name: "nith".to_string(),
        password: "pw".to_string(),
        email: "e@x".to_string(),
        name: "Nith".to_string(),
        role: "user".to_string(),
    };
    let cmd = plan_user_create(&reg, false).unwrap();
    match &cmd.params[3] {
        SqlParam::Str(h) => {
            assert_ne!(h, "pw");
            assert!(PasswordHashing::verify_password("pw", h));
        },
        _ => panic!("expected a hashed string parameter"),
    }
    let s = plan_user_create(&reg, true).err().unwrap();
    assert_eq!(s.status, 400);
    assert_eq!(s.message, "Username already exists");
}

#[test]
fn user_lookups_map_to_responses() {
    let dto = user_by_id_response(Some(sample_user())).unwrap();
    assert_eq!(dto.id, 1);
    let s = user_by_id_response(None).err().unwrap();
    assert_eq!(s.status, 404);
    assert_eq!(s.message, "User not found");

    let dtos = user_dtos_of(vec![sample_user(), sample_user()]);
    assert_eq!(dtos.len(), 2);
    assert_eq!(dtos[1].user_name, "nith");
}

fn sample_role() -> RoleEntity {
    RoleEntity {
        id: 3,
        name: "read".to_string(),
        description: Some("read only".to_string()),
        created_at: 0,
        updated_at: 0,
    }
}

#[test]
fn role_entities_from_requests_take_the_given_time() {
    let r = role_from_create_req(
        CreateRoleReqDto { name: "read".to_string(), description: None },
        77,
    );
    assert_eq!((r.id, r.created_at, r.updated_at), (0, 77, 77));
    let r = role_from_update_req(
        UpdateRoleReqDto { id: 9, name: "read".to_string(), description: None },
        88,
    );
    assert_eq!((r.id, r.created_at, r.updated_at), (9, 88, 88));
}

#[test]
fn role_commands_bind_in_declaration_order() {
    let cmd = create_role_command(&sample_role());
    assert_eq!(cmd.text, "[dbo].[create_role]");
    assert!(matches!(&cmd.params[0], SqlParam::Str(s) if s == "read"));
    assert!(matches!(&cmd.params[1], SqlParam::Str(s) if s == "read only"));

    let mut no_desc = sample_role();
    no_desc.description = None;
    let cmd = create_role_command(&no_desc);
    assert!(matches!(&cmd.params[1], SqlParam::Str(s) if s.is_empty()));

    let cmd = update_role_command(&sample_role());
    assert_eq!(cmd.text, "[dbo].[update_role]");
    assert!(matches!(cmd.params[0], SqlParam::Int(3)));

    assert_eq!(select_role_by_name_command("read").text, "[dbo].[select_role_by_name]");
    assert_eq!(select_role_by_id_command(3).text, "[dbo].[select_role_by_id]");
    assert_eq!(select_user_role_command(4).text, "[dbo].[select_user_role]");
}

#[test]
fn creating_an_existing_role_is_refused_by_name() {
    assert!(create_role_conflict(&None, &"read".to_string()).is_none());
    let s = create_role_conflict(&Some(sample_role()), &"read".to_string()).unwrap();
    assert_eq!(s.status, 400);
    assert_eq!(s.message, "Role with name 'read' already existed");
}

#[test]
fn updating_a_role_checks_id_then_name() {
    let s = update_role_gate(&None, false, 9, &"read".to_string()).err().unwrap();
    assert_eq!(s.status, 404);
    assert_eq!(s.message, "Role with id '9' not found");

    let s = update_role_gate(&None, false, -3, &"read".to_string()).err().unwrap();
    assert_eq!(s.message, "Role with id '-3' not found");

    let s = update_role_gate(&Some(sample_role()), true, 3, &"read".to_string()).err().unwrap();
    assert_eq!(s.status, 400);
    assert_eq!(s.message, "Role name 'read' already existed");

    assert!(update_role_gate(&Some(sample_role()), false, 3, &"read".to_string()).is_ok());
}

#[test]
fn role_overview_requires_a_known_user() {
    let s = user_roles_gate(&None, 12).err().unwrap();
    assert_eq!(s.status, 404);
    assert_eq!(s.message, "User with id '12' not found");
    assert!(user_roles_gate(&Some(sample_user()), 1).is_ok());
}

#[test]
fn assigning_a_held_role_is_a_conflict() {
    assert!(assign_user_role_conflict(false).is_none());
    let s = assign_user_role_conflict(true).unwrap();
    assert_eq!(s.status, 409);
    assert_eq!(s.message, "User already has that role");
}

#[test]
fn role_views_keep_fields_and_order() {
    let dto = role_dto_of(&sample_role());
    assert_eq!((dto.id, dto.name.as_str()), (3, "read"));

    let list = role_dtos_of(&vec![sample_role(), sample_role()]);
    assert_eq!(list.len(), 2);

    let rows = vec![
        UserRolesEntity { role_id: 1, role_name: "admin".to_string(), is_in_role: true },
        UserRolesEntity { role_id: 2, role_name: "read".to_string(), is_in_role: false },
    ];
    let res = user_roles_res_list_of(&rows);
    assert_eq!(res.len(), 2);
    assert_eq!(res[0].role_id, 1);
    assert!(res[0].is_in_role);
    assert_eq!(res[1].role_name, "read");

    let e = UserRoleEntity::from(UserRoleDto { id: 1, user_id: 2, role_id: 3 });
    assert_eq!((e.id, e.user_id, e.role_id), (1, 2, 3));
    let d = UserRoleDto::from(e);
    assert_eq!((d.id, d.user_id, d.role_id), (1, 2, 3));
}
