use connect4::error::{ApiError, AppError};

fn answer(e: AppError) -> (u16, String, String) {
    let a = ApiError::from(e);
    (a.status_code(), a.code().to_string(), a.message().to_string())
}

fn triple(status: u16, code: &str, message: &str) -> (u16, String, String) {
    (status, code.to_string(), message.to_string())
}

#[test]
fn each_error_has_its_answer() {
    let unknown = "An unknown error has occured.";
    assert_eq!(answer(AppError::DatabaseError(sqlx::Error::RowNotFound)), triple(500, "999.999", unknown));
    assert_eq!(answer(AppError::InternalError(None)), triple(500, "999.001", unknown));
    assert_eq!(
        answer(AppError::InternalError(Some("Room does not exist"))),
        triple(500, "999.001", "Room does not exist")
    );
    assert_eq!(answer(AppError::RoomDoesNotExist), triple(404, "100.001", "Room does not exist."));
    assert_eq!(answer(AppError::MissingInviteCode), triple(400, "100.002", "Missing invite code."));
    assert_eq!(answer(AppError::InvalidInviteCode), triple(400, "100.003", "Invalid invite code."));
    assert_eq!(answer(AppError::PlayerDoesNotExist), triple(404, "101.001", "Player does not exist."));
    assert_eq!(
        answer(AppError::IllegalMove("Exceeded board height")),
        triple(400, "102.001", "Exceeded board height")
    );
}

#[test]
fn redis_errors_answer_with_their_own_code() {
    let e = redis::RedisError::from((redis::ErrorKind::Io, "down"));
    assert_eq!(answer(AppError::from(e)), triple(500, "999.998", "An unknown error has occured."));
}

#[test]
fn database_errors_convert() {
    assert!(matches!(AppError::from(sqlx::Error::PoolTimedOut), AppError::DatabaseError(_)));
}
