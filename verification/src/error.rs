//! The errors of the services, and what the API answers for each.
use vstd::prelude::*;
use vstd::std_specs::convert::FromSpecImpl;

verus! {

#[verifier::external_type_specification]
#[verifier::external_body]
pub struct ExSqlxError(sqlx::Error);

#[verifier::external_type_specification]
#[verifier::external_body]
pub struct ExRedisError(redis::RedisError);

/// What can go wrong in a service.
pub enum AppError {
    DatabaseError(sqlx::Error),
    RedisError(redis::RedisError),
    InternalError(Option<&'static str>),
    RoomDoesNotExist,
    MissingInviteCode,
    InvalidInviteCode,
    PlayerDoesNotExist,
    IllegalMove(&'static str),
}

pub type AppResult<T> = Result<T, AppError>;

impl From<sqlx::Error> for AppError {
    fn from(value: sqlx::Error) -> (r: Self) {
        AppError::DatabaseError(value)
    }
}

impl FromSpecImpl<sqlx::Error> for AppError {
    open spec fn obeys_from_spec() -> bool {
        true
    }

    open spec fn from_spec(v: sqlx::Error) -> Self {
        AppError::DatabaseError(v)
    }
}

impl From<redis::RedisError> for AppError {
    fn from(value: redis::RedisError) -> (r: Self) {
        AppError::RedisError(value)
    }
}

impl FromSpecImpl<redis::RedisError> for AppError {
    open spec fn obeys_from_spec() -> bool {
        true
    }

    open spec fn from_spec(v: redis::RedisError) -> Self {
        AppError::RedisError(v)
    }
}

/// The message of an error that gives none of its own.
pub const DEFAULT_ERROR_MESSAGE: &'static str = "An unknown error has occured.";

/// What the API answers for an error: an HTTP status, a code and a
/// message.
pub struct ApiError {
    status_code: u16,
    code: String,
    message: String,
}

pub type ApiResult<T> = Result<T, ApiError>;

impl View for ApiError {
    /// The status, the code and the message.
    type V = (u16, Seq<char>, Seq<char>);

    closed spec fn view(&self) -> (u16, Seq<char>, Seq<char>) {
        (self.status_code, self.code@, self.message@)
    }
}

/// The status, code and message that the API answers for `e`.
pub open spec fn api_error_of(e: AppError) -> (u16, Seq<char>, Seq<char>) {
    match e {
        AppError::DatabaseError(_) => (500, "999.999"@, DEFAULT_ERROR_MESSAGE@),
        AppError::RedisError(_) => (500, "999.998"@, DEFAULT_ERROR_MESSAGE@),
        AppError::InternalError(m) => (
            500,
            "999.001"@,
            match m {
                Some(s) => s@,
                None => DEFAULT_ERROR_MESSAGE@,
            },
        ),
        AppError::RoomDoesNotExist => (404, "100.001"@, "Room does not exist."@),
        AppError::MissingInviteCode => (400, "100.002"@, "Missing invite code."@),
        AppError::InvalidInviteCode => (400, "100.003"@, "Invalid invite code."@),
        AppError::PlayerDoesNotExist => (404, "101.001"@, "Player does not exist."@),
        AppError::IllegalMove(m) => (400, "102.001"@, m@),
    }
}

impl ApiError {
    /// The answer to an error of the services.
    pub fn from(value: AppError) -> (r: ApiError)
        ensures
            r@ == api_error_of(value),
    {
        let (status_code, code, message): (u16, &str, &str) = match value {
            AppError::DatabaseError(_) => (500, "999.999", DEFAULT_ERROR_MESSAGE),
            AppError::RedisError(_) => (500, "999.998", DEFAULT_ERROR_MESSAGE),
            AppError::InternalError(error) => (
                500,
                "999.001",
                match error {
                    Some(m) => m,
                    None => DEFAULT_ERROR_MESSAGE,
                },
            ),
            AppError::RoomDoesNotExist => (404, "100.001", "Room does not exist."),
            AppError::MissingInviteCode => (400, "100.002", "Missing invite code."),
            AppError::InvalidInviteCode => (400, "100.003", "Invalid invite code."),
            AppError::PlayerDoesNotExist => (404, "101.001", "Player does not exist."),
            AppError::IllegalMove(err) => (400, "102.001", err),
        };
        ApiError { status_code, code: code.to_owned(), message: message.to_owned() }
    }

    /// The HTTP status of the answer.
    pub fn status_code(&self) -> (r: u16)
        ensures
            r == self@.0,
    {
        self.status_code
    }

    /// The error code of the answer.
    pub fn code(&self) -> (r: &str)
        ensures
            r@ == self@.1,
    {
        self.code.as_str()
    }

    /// The message of the answer.
    pub fn message(&self) -> (r: &str)
        ensures
            r@ == self@.2,
    {
        self.message.as_str()
    }
}

} // verus!
