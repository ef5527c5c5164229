//! The per-request authorization interceptor and the login/registration decisions.
//! The interceptor is a strictly linear pipeline: extract a credential, validate
//! it, resolve the caller through the user store, check the role; the first
//! failing step rejects with a classified status. Everything that needs the
//! network — serving the request, looking the user up — happens outside;
//! the lookup's outcome is handed in as a plain value.
use vstd::prelude::*;

use crate::jwt::{Claims, JwtUtil};
use crate::password::{password_matches, PasswordHashing};
use crate::settings::JwtSetting;
use crate::status::{message_text, Status, StatusCodeConst, StatusMessage};
use crate::users::{user_dto_of, User, UserDto, UserRegisterReqDto, UserRole};

verus! {

/// A successful login's payload: the signed token.
#[derive(Debug, Clone)]
pub struct LoginResDto {
    pub token: String,
}

impl Default for LoginResDto {
    fn default() -> (r: Self)
        ensures
            r.token@ == Seq::<char>::empty(),
    {
        LoginResDto { token: String::new() }
    }
}

/// A login request.
#[derive(Debug, Clone)]
pub struct LoginReqDto {
    pub user_name: String,
    pub password: String,
}

/// The identity the interceptor attaches to a request it forwards.
#[derive(Debug, Clone)]
pub struct Authenticated(pub UserDto);

impl Authenticated {
    /// The resolved caller.
    pub fn user(&self) -> (r: &UserDto)
        ensures
            *r == self.0,
    {
        &self.0
    }
}

/// Configures the interceptor with the roles a route admits.
pub struct RequireAuth {
    pub allow_roles: Vec<UserRole>,
}

impl RequireAuth {
    /// An interceptor configuration admitting exactly these roles.
    pub fn allow_roles(allow_roles: Vec<UserRole>) -> (r: Self)
        ensures
            r.allow_roles == allow_roles,
    {
        RequireAuth { allow_roles }
    }
}

/// The per-request interceptor, configured with the admitted roles. The wrapped
/// service it forwards to lives outside this crate.
pub struct AuthMiddleware {
    pub allow_roles: Vec<UserRole>,
}

/// Whether the role list admits the role.
pub fn role_allowed(roles: &Vec<UserRole>, role: &UserRole) -> (r: bool)
    ensures
        r == roles@.contains(*role),
{
    let mut i: usize = 0;
    while i < roles.len()
        invariant
            i <= roles@.len(),
            forall|j: int| 0 <= j < i ==> roles@[j] != *role,
        decreases roles@.len() - i,
    {
        if roles[i] == *role {
            return true;
        }
        i = i + 1;
    }
    false
}

/// The token a bearer header carries: the text after the `Bearer ` prefix,
/// or nothing when the prefix is absent.
pub open spec fn strip_bearer(h: Seq<char>) -> Option<Seq<char>> {
    if h.len() >= 7 && h.subrange(0, 7) == "Bearer "@ {
        Some(h.skip(7))
    } else {
        None
    }
}

/// The credential a request carries: the named cookie's value when the
/// cookie is present, otherwise the bearer token of the authorization
/// header.
pub open spec fn extracted_token(cookie: Option<String>, auth_header: Option<String>) -> Option<
    Seq<char>,
> {
    match cookie {
        Some(c) => Some(c@),
        None => match auth_header {
            Some(h) => strip_bearer(h@),
            None => None,
        },
    }
}

fn strip_bearer_prefix(h: &str) -> (r: Option<String>)
    ensures
        r is Some <==> strip_bearer(h@) is Some,
        r matches Some(s) ==> Some(s@) == strip_bearer(h@),
{
    proof {
        reveal_strlit("Bearer ");
    }
    let n = h.unicode_len();
    if n < 7 {
        return None;
    }
    if h.get_char(0) == 'B' && h.get_char(1) == 'e' && h.get_char(2) == 'a' && h.get_char(3) == 'r'
        && h.get_char(4) == 'e' && h.get_char(5) == 'r' && h.get_char(6) == ' ' {
        proof {
            assert(h@.subrange(0, 7) =~= "Bearer "@);
        }
        let rest = h.substring_char(7, n);
        proof {
            assert(rest@ =~= h@.skip(7));
        }
        Some(rest.to_owned())
    } else {
        proof {
            if h@.subrange(0, 7) == "Bearer "@ {
                assert(h@[0] == "Bearer "@[0]);
                assert(h@[1] == "Bearer "@[1]);
                assert(h@[2] == "Bearer "@[2]);
                assert(h@[3] == "Bearer "@[3]);
                assert(h@[4] == "Bearer "@[4]);
                assert(h@[5] == "Bearer "@[5]);
                assert(h@[6] == "Bearer "@[6]);
            }
        }
        None
    }
}

/// Extracts the request's credential: the named cookie's value first, else
/// the authorization header stripped of its bearer prefix.
pub fn extract_token(cookie: Option<String>, auth_header: Option<String>) -> (r: Option<String>)
    ensures
        r is Some <==> extracted_token(cookie, auth_header) is Some,
        r matches Some(s) ==> Some(s@) == extracted_token(cookie, auth_header),
{
    match cookie {
        Some(c) => Some(c),
        None => match auth_header {
            Some(h) => strip_bearer_prefix(h.as_str()),
            None => None,
        },
    }
}

/// Extracts and validates the request's credential. A request with no
/// credential is rejected 401 with the token-missing code — and only such
/// a request. A credential the decoder refuses is rejected 401 with the
/// unauthorized code and the decode detail. Accepted claims carry exactly
/// the configured issuer and audience.
pub fn authenticate_request(
    jwt_config: &JwtSetting,
    cookie: Option<String>,
    auth_header: Option<String>,
) -> (r: Result<Claims, Status>)
    ensures
        extracted_token(cookie, auth_header) is None <==> (r matches Err(s) && s.code@
            == StatusCodeConst::TOKEN_MISSING@),
        extracted_token(cookie, auth_header) is None ==> (r matches Err(s) && s.status == 401
            && s.message@ == "Unauthorized, token missing"@),
        r matches Ok(c) ==> extracted_token(cookie, auth_header) is Some && c.iss@
            == jwt_config.issuer@ && c.aud@ == jwt_config.audience@,
        extracted_token(cookie, auth_header) is Some && r is Err ==> (r matches Err(s) && s.status
            == 401 && s.code@ == StatusCodeConst::UNAUTHORIZED@ && (exists|d: Seq<char>|
        s.message@ == message_text(StatusMessage::DecodeTokenErr) + ", "@ + d)),
{
    proof {
        reveal_strlit("TOKEN_MISSING");
        reveal_strlit("UNAUTHORIZED");
        assert(StatusCodeConst::TOKEN_MISSING@ =~= "TOKEN_MISSING"@);
        assert(StatusCodeConst::UNAUTHORIZED@ =~= "UNAUTHORIZED"@);
        assert(StatusCodeConst::UNAUTHORIZED@.len() != StatusCodeConst::TOKEN_MISSING@.len());
    }
    let token = match extract_token(cookie, auth_header) {
        Some(t) => t,
        None => {
            return Err(Status::token_missing());
        },
    };
    let jwt_util = JwtUtil::new(jwt_config);
    match jwt_util.decode_token(token.as_str()) {
        Ok(claims) => Ok(claims),
        Err(e) => {
            let mut msg = StatusMessage::DecodeTokenErr.to_str();
            msg.append(", ");
            msg.append(e.as_str());
            proof {
                assert(msg@ =~= message_text(StatusMessage::DecodeTokenErr) + ", "@ + e@);
            }
            Err(Status::unauthorized(msg.as_str()))
        },
    }
}

impl AuthMiddleware {
    /// Decides the request's fate from the user store's answer for the
    /// validated subject: a store failure is a 500, an unknown subject a
    /// 404, a caller whose role the route does not admit a 403; otherwise
    /// the caller's identity is attached and the request forwarded.
    pub fn resolve_identity(&self, lookup: Result<Option<User>, String>) -> (r: Result<
        Authenticated,
        Status,
    >)
        ensures
            lookup matches Err(e) ==> (r matches Err(s) && s.status == 500 && s.code@
                == StatusCodeConst::SERVER_ERROR@ && s.message@ == e@),
            lookup matches Ok(u) && u is None ==> (r matches Err(s) && s.status == 404 && s.code@
                == StatusCodeConst::NOT_FOUND@ && s.message@ == "User"@),
            lookup matches Ok(Some(u)) ==> ((self.allow_roles@.contains(u.role) ==> r == Ok::<
                Authenticated,
                Status,
            >(Authenticated(user_dto_of(u)))) && (!self.allow_roles@.contains(u.role) ==> (
            r matches Err(s) && s.status == 403 && s.code@ == StatusCodeConst::FORBIDDEN@
                && s.message@ == message_text(StatusMessage::PermissionDenied)))),
    {
        match lookup {
            Err(e) => Err(Status::server_error(e.as_str())),
            Ok(None) => Err(Status::not_found("User")),
            Ok(Some(user)) => {
                if role_allowed(&self.allow_roles, &user.role) {
                    Ok(Authenticated(UserDto::from(user)))
                } else {
                    Err(Status::forbidden())
                }
            },
        }
    }
}

/// The older cookie-only interceptor's configuration.
pub struct JwtAuth {
    pub jwt_config: JwtSetting,
}

/// The older cookie-only interceptor: it accepts a request exactly when the named
/// cookie carries a token the decoder accepts, and hands back the subject.
pub struct JwtAuthMiddleware {
    pub jwt_config: JwtSetting,
}

impl JwtAuthMiddleware {
    /// Decides a request from its cookie alone: no cookie or a refused
    /// token means an empty 401; an accepted token yields the subject.
    pub fn authorize(&self, cookie: Option<String>) -> (r: Result<i32, ()>)
        ensures
            cookie is None ==> r is Err,
            r is Ok ==> cookie is Some,
    {
        match cookie {
            Some(token) => {
                let jwt_util = JwtUtil::new(&self.jwt_config);
                match jwt_util.decode_token(token.as_str()) {
                    Ok(claims) => Ok(claims.sub),
                    Err(_) => Err(()),
                }
            },
            None => Err(()),
        }
    }
}

/// A registration request is refused when any field is empty or the user
/// name is longer than 150 characters; each refusal carries the matching
/// message.
pub fn validate_registration(user: &UserRegisterReqDto) -> (r: Result<(), Status>)
    ensures
        (user.password@.len() == 0 || user.user_name@.len() == 0 || user.name@.len() == 0
            || user.email@.len() == 0) ==> (r matches Err(s) && s.status == 409 && s.code@
            == StatusCodeConst::UQIQUE_CONSTRAINT@ && s.message@ == message_text(
            StatusMessage::WrongParams,
        )),
        !(user.password@.len() == 0 || user.user_name@.len() == 0 || user.name@.len() == 0
            || user.email@.len() == 0) && user.user_name@.len() > 150 ==> (r matches Err(s)
            && s.status == 409 && s.code@ == StatusCodeConst::UQIQUE_CONSTRAINT@ && s.message@
            == message_text(StatusMessage::UserNameExeedMaxLength(150))),
        !(user.password@.len() == 0 || user.user_name@.len() == 0 || user.name@.len() == 0
            || user.email@.len() == 0) && user.user_name@.len() <= 150 ==> r is Ok,
{
    if user.password.as_str().is_empty() || user.user_name.as_str().is_empty()
        || user.name.as_str().is_empty() || user.email.as_str().is_empty() {
        let msg = StatusMessage::WrongParams.to_str();
        return Err(Status::uqique_constraint_voilation(msg.as_str()));
    }
    if user.user_name.as_str().unicode_len() > 150 {
        let msg = StatusMessage::UserNameExeedMaxLength(150).to_str();
        return Err(Status::uqique_constraint_voilation(msg.as_str()));
    }
    Ok(())
}

/// Registering a taken user name is refused with a conflict.
pub fn register_conflict(user_name_taken: bool) -> (r: Option<Status>)
    ensures
        r is Some <==> user_name_taken,
        r matches Some(s) ==> s.status == 409 && s.code@ == StatusCodeConst::UQIQUE_CONSTRAINT@
            && s.message@ == message_text(StatusMessage::UserNameExisted),
{
    if user_name_taken {
        let msg = StatusMessage::UserNameExisted.to_str();
        Some(Status::uqique_constraint_voilation(msg.as_str()))
    } else {
        None
    }
}

/// A login request with an empty user name or password is refused 401
/// before any lookup.
pub fn validate_login(req: &LoginReqDto) -> (r: Result<(), Status>)
    ensures
        (req.user_name@.len() == 0 || req.password@.len() == 0) <==> r is Err,
        r matches Err(s) ==> s.status == 401 && s.code@ == StatusCodeConst::UNAUTHORIZED@
            && s.message@ == message_text(StatusMessage::Unauthorized),
{
    if req.user_name.as_str().is_empty() || req.password.as_str().is_empty() {
        let msg = StatusMessage::Unauthorized.to_str();
        Err(Status::unauthorized(msg.as_str()))
    } else {
        Ok(())
    }
}

/// Whether the login may proceed: a user was found and the password
/// verifies against the stored hash.
pub fn verify_login(password: &str, db_user: &Option<User>) -> (r: bool)
    ensures
        r == (db_user matches Some(u) && password_matches(password@, u.password@)),
{
    match db_user {
        Some(u) => PasswordHashing::verify_password(password, u.password.as_str()),
        None => false,
    }
}

} // verus!
