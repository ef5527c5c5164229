//! Status objects returned to callers: a numeric HTTP-equivalent status, a
//! short machine-readable code, and a human message.
use vstd::prelude::*;

use crate::textfmt::{dec_digits, u64_to_string};

verus! {

/// The stable machine-readable codes that accompany every status object.
pub struct StatusCodeConst;

impl StatusCodeConst {
    pub const SUCCESS: &'static str = "SUCCESS";

    pub const ERROR: &'static str = "ERROR";

    pub const SERVER_ERROR: &'static str = "SERVER_ERROR";

    pub const NOT_FOUND: &'static str = "NOT_FOUND";

    pub const UNAUTHORIZED: &'static str = "UNAUTHORIZED";

    pub const UQIQUE_CONSTRAINT: &'static str = "UQIQUE_CONSTRAINT";

    pub const TOKEN_MISSING: &'static str = "TOKEN_MISSING";

    pub const FORBIDDEN: &'static str = "FORBIDDEN";
}

/// Default machine-readable code for a fresh status object.
pub fn default_code() -> (r: String)
    ensures
        r@ == StatusCodeConst::SUCCESS@,
{
    StatusCodeConst::SUCCESS.to_owned()
}

/// The situations a status message can describe.
pub enum StatusMessage {
    Success,
    ServerError,
    NotFound(String),
    Unauthorized,
    PermissionDenied,
    UserNameExisted,
    Existed(String),
    UserNameExeedMaxLength(usize),
    WrongParams,
    DecodeTokenErr,
}

/// The human-readable text of each status message.
pub open spec fn message_text(m: StatusMessage) -> Seq<char> {
    match m {
        StatusMessage::Success => "Success"@,
        StatusMessage::ServerError => "Server error, Please try again later"@,
        StatusMessage::NotFound(item) => item@ + " not found"@,
        StatusMessage::Unauthorized => "Invalid credentials"@,
        StatusMessage::PermissionDenied => "Permission denied"@,
        StatusMessage::UserNameExisted => "Username already existed"@,
        StatusMessage::Existed(ex) => ex@ + " already existed"@,
        StatusMessage::UserNameExeedMaxLength(max) => "Username cannot exceed "@ + dec_digits(
            max as nat,
        ) + " characters"@,
        StatusMessage::WrongParams => "Invalid input"@,
        StatusMessage::DecodeTokenErr => "Decoded token failed"@,
    }
}

impl StatusMessage {
    /// Renders the message as text.
    pub fn to_str(&self) -> (r: String)
        ensures
            r@ == message_text(*self),
    {
        match self {
            StatusMessage::Success => "Success".to_owned(),
            StatusMessage::ServerError => "Server error, Please try again later".to_owned(),
            StatusMessage::NotFound(item) => {
                let mut r = (*item).clone();
                r.append(" not found");
                r
            },
            StatusMessage::Unauthorized => "Invalid credentials".to_owned(),
            StatusMessage::PermissionDenied => "Permission denied".to_owned(),
            StatusMessage::UserNameExisted => "Username already existed".to_owned(),
            StatusMessage::Existed(ex) => {
                let mut r = (*ex).clone();
                r.append(" already existed");
                r
            },
            StatusMessage::UserNameExeedMaxLength(max) => {
                let mut r = "Username cannot exceed ".to_owned();
                let digits = u64_to_string(*max as u64);
                r.append(digits.as_str());
                r.append(" characters");
                r
            },
            StatusMessage::WrongParams => "Invalid input".to_owned(),
            StatusMessage::DecodeTokenErr => "Decoded token failed".to_owned(),
        }
    }
}

/// A structured status: numeric HTTP-equivalent status, short code, message.
#[derive(Debug)]
pub struct Status {
    pub message: String,
    pub code: String,
    pub status: u16,
}

impl Default for Status {
    fn default() -> (r: Self)
        ensures
            r.status == 200,
            r.message@ == Seq::<char>::empty(),
            r.code@ == StatusCodeConst::SUCCESS@,
    {
        Status { message: String::new(), code: default_code(), status: 200 }
    }
}

impl Clone for Status {
    fn clone(&self) -> (r: Self)
        ensures
            r.status == self.status,
            r.message@ == self.message@,
            r.code@ == self.code@,
    {
        Status {
            message: self.message.clone(),
            code: self.code.clone(),
            status: self.status,
        }
    }
}

/// Response envelope: optional payload plus the status that describes it.
pub struct BaseResDto<T> {
    pub data: Option<T>,
    pub status: Status,
}

impl<T> Default for BaseResDto<T> {
    fn default() -> (r: Self)
        ensures
            r.data is None,
            r.status.status == 200,
            r.status.message@ == Seq::<char>::empty(),
            r.status.code@ == StatusCodeConst::SUCCESS@,
    {
        BaseResDto { data: None, status: Status::default() }
    }
}

impl Status {
    /// 200 with the success code and message.
    pub fn success() -> (r: Self)
        ensures
            r.status == 200,
            r.message@ == message_text(StatusMessage::Success),
            r.code@ == StatusCodeConst::SUCCESS@,
    {
        Status {
            status: 200,
            message: StatusMessage::Success.to_str(),
            code: StatusCodeConst::SUCCESS.to_owned(),
        }
    }

    /// Wraps a payload in an envelope whose status reports success.
    pub fn success_with_data<T>(data: T) -> (r: BaseResDto<T>)
        ensures
            r.data == Some(data),
            r.status.status == 200,
            r.status.message@ == message_text(StatusMessage::Success),
            r.status.code@ == StatusCodeConst::SUCCESS@,
    {
        BaseResDto {
            data: Some(data),
            status: Status {
                status: 200,
                message: StatusMessage::Success.to_str(),
                code: StatusCodeConst::SUCCESS.to_owned(),
            },
        }
    }

    /// 500 with the server-error code and the given message.
    pub fn server_error(message: &str) -> (r: Self)
        ensures
            r.status == 500,
            r.message@ == message@,
            r.code@ == StatusCodeConst::SERVER_ERROR@,
    {
        Status {
            status: 500,
            message: message.to_owned(),
            code: StatusCodeConst::SERVER_ERROR.to_owned(),
        }
    }

    /// 400 with the generic error code and the given message.
    pub fn bad_request(message: &str) -> (r: Self)
        ensures
            r.status == 400,
            r.message@ == message@,
            r.code@ == StatusCodeConst::ERROR@,
    {
        Status {
            status: 400,
            message: message.to_owned(),
            code: StatusCodeConst::ERROR.to_owned(),
        }
    }

    /// 401 with the unauthorized code and the given message.
    pub fn unauthorized(message: &str) -> (r: Self)
        ensures
            r.status == 401,
            r.message@ == message@,
            r.code@ == StatusCodeConst::UNAUTHORIZED@,
    {
        Status {
            status: 401,
            message: message.to_owned(),
            code: StatusCodeConst::UNAUTHORIZED.to_owned(),
        }
    }

    /// 401 with the token-missing code.
    pub fn token_missing() -> (r: Self)
        ensures
            r.status == 401,
            r.message@ == "Unauthorized, token missing"@,
            r.code@ == StatusCodeConst::TOKEN_MISSING@,
    {
        Status {
            status: 401,
            message: "Unauthorized, token missing".to_owned(),
            code: StatusCodeConst::TOKEN_MISSING.to_owned(),
        }
    }

    /// 409 with the unique-constraint code and the given message.
    pub fn uqique_constraint_voilation(message: &str) -> (r: Self)
        ensures
            r.status == 409,
            r.message@ == message@,
            r.code@ == StatusCodeConst::UQIQUE_CONSTRAINT@,
    {
        Status {
            status: 409,
            message: message.to_owned(),
            code: StatusCodeConst::UQIQUE_CONSTRAINT.to_owned(),
        }
    }

    /// 404 with the not-found code and the given message.
    pub fn not_found(message: &str) -> (r: Self)
        ensures
            r.status == 404,
            r.message@ == message@,
            r.code@ == StatusCodeConst::NOT_FOUND@,
    {
        Status {
            status: 404,
            message: message.to_owned(),
            code: StatusCodeConst::NOT_FOUND.to_owned(),
        }
    }

    /// 403 with the forbidden code and the permission-denied message.
    pub fn forbidden() -> (r: Self)
        ensures
            r.status == 403,
            r.message@ == message_text(StatusMessage::PermissionDenied),
            r.code@ == StatusCodeConst::FORBIDDEN@,
    {
        Status {
            status: 403,
            message: StatusMessage::PermissionDenied.to_str(),
            code: StatusCodeConst::FORBIDDEN.to_owned(),
        }
    }

    /// Whether the numeric status is one the response layer renders directly.
    pub open spec fn renderable(status: u16) -> bool {
        status == 500 || status == 403 || status == 400 || status == 404 || status == 401
            || status == 409
    }

    /// The status actually rendered: an unknown numeric status is replaced by
    /// a generic 500 so that no unclassified status leaks to a caller.
    pub fn normalize_for_response(self) -> (r: Self)
        ensures
            Self::renderable(self.status) ==> r == self,
            !Self::renderable(self.status) ==> r.status == 500 && r.message@ == message_text(
                StatusMessage::ServerError,
            ) && r.code@ == StatusCodeConst::SERVER_ERROR@,
    {
        match self.status {
            500 | 403 | 400 | 404 | 401 | 409 => self,
            _ => Status {
                message: StatusMessage::ServerError.to_str(),
                code: StatusCodeConst::SERVER_ERROR.to_owned(),
                status: 500,
            },
        }
    }
}

} // verus!
