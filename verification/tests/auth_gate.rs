use api_core::auth::{
    authenticate_request, extract_token, register_conflict, role_allowed, validate_login,
    validate_registration, verify_login, AuthMiddleware, JwtAuthMiddleware, LoginReqDto,
    RequireAuth,
};
use api_core::jwt::JwtUtil;
use api_core::password::PasswordHashing;
use api_core::settings::JwtSetting;
use api_core::users::{User, UserDto, UserRegisterReqDto, UserRole};

fn jwt_setting() -> JwtSetting {
    JwtSetting {
        secret_key: "SECRET-REDACTED".to_string(),
        expiration_minutes: 60,
        issuer: "issuer.test".to_string(),
        audience: "audience.test".to_string(),
    }
}

fn sample_user(role: UserRole) -> User {
    User {
        id: 7,
        user_name: "nith".to_string(),
        name: "Nith".to_string(),
        password: "unused-hash".to_string(),
        email: "nith@example.com".to_string(),
        role,
        created_at: 0,
        updated_at: 0,
    }
}

fn sample_dto() -> UserDto {
    UserDto {
        id: 7,
        user_name: "nith".to_string(),
        name: "Nith".to_string(),
        email: "nith@example.com".to_string(),
        role: UserRole::User,
    }
}

fn fresh_token(cfg: &JwtSetting) -> String {
    JwtUtil::new(cfg).create_token(&sample_dto()).unwrap()
}

#[test]
fn request_without_credential_is_401_token_missing() {
    let cfg = jwt_setting();
    let r = authenticate_request(&cfg, None, None);
    let s = r.err().unwrap();
    assert_eq!(s.status, 401);
    assert_eq!(s.code, "TOKEN_MISSING");
    assert_eq!(s.message, "Unauthorized, token missing");
}

#[test]
fn header_without_bearer_prefix_counts_as_no_credential() {
    let cfg = jwt_setting();
    let r = authenticate_request(&cfg, None, Some("Basic abc".to_string()));
    let s = r.err().unwrap();
    assert_eq!(s.code, "TOKEN_MISSING");
}

#[test]
fn valid_token_in_cookie_is_accepted() {
    let cfg = jwt_setting();
    let token = fresh_token(&cfg);
    let claims = authenticate_request(&cfg, Some(token), None).unwrap();
    assert_eq!(claims.sub, 7);
    assert_eq!(claims.iss, "issuer.test");
    assert_eq!(claims.aud, "audience.test");
}

#[test]
fn valid_token_in_bearer_header_is_accepted() {
    let cfg = jwt_setting();
    let token = fresh_token(&cfg);
    let header = format!("Bearer {}", token);
    let claims = authenticate_request(&cfg, None, Some(header)).unwrap();
    assert_eq!(claims.sub, 7);
}

#[test]
fn garbage_token_is_401_unauthorized() {
    let cfg = jwt_setting();
    let r = authenticate_request(&cfg, Some("not.a.token".to_string()), None);
    let s = r.err().unwrap();
    assert_eq!(s.status, 401);
    assert_eq!(s.code, "UNAUTHORIZED");
    assert!(s.message.starts_with("Decoded token failed, "));
}

#[test]
fn token_signed_with_other_secret_is_401_unauthorized() {
    let cfg = jwt_setting();
    let mut other = jwt_setting();
    other.secret_key = "SECRET-REDACTED-2".to_string();
    let token = fresh_token(&other);
    let r = authenticate_request(&cfg, Some(token), None);
    let s = r.err().unwrap();
    assert_eq!(s.status, 401);
    assert_eq!(s.code, "UNAUTHORIZED");
}

#[test]
fn token_for_other_audience_is_401_unauthorized() {
    let cfg = jwt_setting();
    let mut other = jwt_setting();
    other.audience = "elsewhere".to_string();
    let token = fresh_token(&other);
    let r = authenticate_request(&cfg, Some(token), None);
    assert_eq!(r.err().unwrap().code, "UNAUTHORIZED");
}

#[test]
fn expired_token_is_401_unauthorized() {
    let cfg = jwt_setting();
    let token = JwtUtil::new(&cfg).create_token_at(&sample_dto(), 0).unwrap();
    let r = authenticate_request(&cfg, Some(token), None);
    assert_eq!(r.err().unwrap().code, "UNAUTHORIZED");
}

#[test]
fn cookie_wins_over_header() {
    let t = extract_token(Some("cookie-token".to_string()), Some("Bearer header-token".to_string()));
    assert_eq!(t, Some("cookie-token".to_string()));
}

#[test]
fn bearer_prefix_is_stripped() {
    let t = extract_token(None, Some("Bearer abc.def".to_string()));
    assert_eq!(t, Some("abc.def".to_string()));
}

#[test]
fn disallowed_role_is_403_forbidden() {
    let gate = AuthMiddleware { allow_roles: vec![UserRole::Admin] };
    let r = gate.resolve_identity(Ok(Some(sample_user(UserRole::User))));
    let s = r.err().unwrap();
    assert_eq!(s.status, 403);
    assert_eq!(s.code, "FORBIDDEN");
    assert_eq!(s.message, "Permission denied");
}

#[test]
fn unknown_subject_is_404() {
    let gate = AuthMiddleware { allow_roles: vec![UserRole::Admin] };
    let r = gate.resolve_identity(Ok(None));
    let s = r.err().unwrap();
    assert_eq!(s.status, 404);
    assert_eq!(s.code, "NOT_FOUND");
    assert_eq!(s.message, "User");
}

#[test]
fn store_failure_is_500() {
    let gate = AuthMiddleware { allow_roles: vec![UserRole::Admin] };
    let r = gate.resolve_identity(Err("db down".to_string()));
    let s = r.err().unwrap();
    assert_eq!(s.status, 500);
    assert_eq!(s.code, "SERVER_ERROR");
    assert_eq!(s.message, "db down");
}

#[test]
fn allowed_role_forwards_with_identity() {
    let gate = AuthMiddleware { allow_roles: vec![UserRole::Admin, UserRole::User] };
    let a = gate.resolve_identity(Ok(Some(sample_user(UserRole::User)))).unwrap();
    assert_eq!(a.user().id, 7);
    assert_eq!(a.user().user_name, "nith");
}

#[test]
fn role_allow_list_is_checked_by_value() {
    let roles = RequireAuth::allow_roles(vec![UserRole::Admin, UserRole::Moderator]).allow_roles;
    assert!(role_allowed(&roles, &UserRole::Admin));
    assert!(role_allowed(&roles, &UserRole::Moderator));
    assert!(!role_allowed(&roles, &UserRole::User));
}

#[test]
fn cookie_only_gate_rejects_missing_cookie() {
    let gate = JwtAuthMiddleware { jwt_config: jwt_setting() };
    assert!(gate.authorize(None).is_err());
    assert!(gate.authorize(Some("junk".to_string())).is_err());
}

#[test]
fn cookie_only_gate_accepts_valid_cookie() {
    let cfg = jwt_setting();
    let token = fresh_token(&cfg);
    let gate = JwtAuthMiddleware { jwt_config: cfg };
    assert_eq!(gate.authorize(Some(token)).unwrap(), 7);
}

#[test]
fn registration_with_empty_field_is_refused() {
    let req = UserRegisterReqDto {
        user_name: "u".to_string(),
        password: "".to_string(),
        email: "e@x".to_string(),
        name: "n".to_string(),
        role: "user".to_string(),
    };
    let s = validate_registration(&req).err().unwrap();
    assert_eq!(s.status, 409);
    assert_eq!(s.code, "UQIQUE_CONSTRAINT");
    assert_eq!(s.message, "Invalid input");
}

#[test]
fn registration_with_long_user_name_is_refused() {
    let req = UserRegisterReqDto {
        user_name: "u".repeat(151),
        password: "p".to_string(),
        email: "e@x".to_string(),
        name: "n".to_string(),
        role: "user".to_string(),
    };
    let s = validate_registration(&req).err().unwrap();
    assert_eq!(s.message, "Username cannot exceed 150 characters");
}

#[test]
fn ordinary_registration_passes_validation() {
    let req = UserRegisterReqDto {
        user_name: "nith".to_string(),
        password: "pw".to_string(),
        email: "e@x".to_string(),
        name: "n".to_string(),
        role: "admin".to_string(),
    };
    assert!(validate_registration(&req).is_ok());
}

#[test]
fn taken_user_name_is_a_conflict() {
    assert!(register_conflict(false).is_none());
    let s = register_conflict(true).unwrap();
    assert_eq!(s.status, 409);
    assert_eq!(s.message, "Username already existed");
}

#[test]
fn login_with_empty_credentials_is_refused() {
    let req = LoginReqDto { user_name: "".to_string(), password: "x".to_string() };
    let s = validate_login(&req).err().unwrap();
    assert_eq!(s.status, 401);
    assert_eq!(s.message, "Invalid credentials");
    let ok = LoginReqDto { user_name: "a".to_string(), password: "b".to_string() };
    assert!(validate_login(&ok).is_ok());
}

#[test]
fn login_verifies_against_stored_hash() {
    let hash = PasswordHashing::hash_password("open sesame").unwrap();
    let mut user = sample_user(UserRole::User);
    user.password = hash;
    let found = Some(user);
    assert!(verify_login("open sesame", &found));
    assert!(!verify_login("wrong", &found));
    assert!(!verify_login("open sesame", &None));
}
