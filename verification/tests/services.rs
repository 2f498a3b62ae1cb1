use connect4::error::AppError;
use connect4::models::{BoardState, CurrentPlayer, MakeMoveRequest, RoomDetails};
use connect4::services::game_service::{
    end_game, make_move, EndGameAction, EndGameEvent, GameAction, GameEvent, GameStep, LoadedBoard,
};
use connect4::services::player_service::{
    create_or_return_existing_player, PlayerAction, PlayerEvent, PlayerStep,
};
use connect4::services::room_service::{
    create_room, join_room, CreateRoomAction, CreateRoomEvent, CreateRoomStep, JoinRoomAction,
    JoinRoomEvent, JoinRoomStep,
};
use connect4::services::session_service::{
    begin_token_pair, continue_after_signing, create_token_pair, TokenPairAction, TokenPairEvent,
    TokenPairStep, TokenSettings,
};
use connect4::services::SessionDetails;
use connect4::utils::{sha256_hash, Claims, Timestamp};

fn player(id: i64) -> CurrentPlayer {
    CurrentPlayer { id, ref_no: 10 + id, display_name: Some(format!("p{id}")) }
}

fn session(token: &str) -> SessionDetails {
    SessionDetails {
        claims: Claims { sub: "2".to_string(), rid: "1".to_string(), exp: 100 },
        access_token: "access".to_string(),
        access_token_expiry: Timestamp { secs: 100, nanos: 5 },
        refresh_token: token.to_string(),
        refresh_token_expiry: Timestamp { secs: 200, nanos: 6 },
    }
}

// ---- player service ----

#[test]
fn a_known_session_returns_its_player() {
    let (step, action) = create_or_return_existing_player(4, "sess");
    match action {
        PlayerAction::FindPlayerId { session_hash, room_id } => {
            assert_eq!(session_hash, sha256_hash("sess"));
            assert_eq!(room_id, 4);
        }
        _ => panic!("the session is looked up first"),
    }
    let (step, action) = step.step(PlayerEvent::PlayerIdFound(Ok(Some(9))));
    assert!(matches!(action, PlayerAction::FindPlayerById { player_id: 9 }));
    let (step, action) = step.step(PlayerEvent::PlayerFound(Ok(Some(player(9)))));
    assert!(matches!(step, PlayerStep::Done));
    match action {
        PlayerAction::Finish(Ok(p)) => assert_eq!(p.id, 9),
        _ => panic!("the known player is returned"),
    }
}

#[test]
fn an_unknown_session_creates_a_player() {
    let (step, _) = create_or_return_existing_player(4, "sess");
    let (step, action) = step.step(PlayerEvent::PlayerIdFound(Ok(None)));
    assert!(matches!(action, PlayerAction::BeginTransaction));
    let (step, action) = step.step(PlayerEvent::TransactionBegun(Ok(())));
    assert!(matches!(action, PlayerAction::NextRefNo));
    let (step, action) = step.step(PlayerEvent::RefNoReserved(Ok(77)));
    assert!(matches!(action, PlayerAction::CreatePlayer { room_id: 4, ref_no: 77 }));
    let (step, action) = step.step(PlayerEvent::PlayerCreated(Ok(player(12))));
    assert!(matches!(action, PlayerAction::Commit));
    let (_, action) = step.step(PlayerEvent::Committed(Ok(())));
    assert!(matches!(action, PlayerAction::Finish(Ok(CurrentPlayer { id: 12, .. }))));
}

#[test]
fn a_session_naming_a_lost_player_creates_a_player() {
    let (step, _) = create_or_return_existing_player(4, "sess");
    let (step, _) = step.step(PlayerEvent::PlayerIdFound(Ok(Some(9))));
    let (step, action) = step.step(PlayerEvent::PlayerFound(Ok(None)));
    assert!(matches!(action, PlayerAction::BeginTransaction));
    assert!(step.accepts(&PlayerEvent::TransactionBegun(Ok(()))));
    assert!(!step.accepts(&PlayerEvent::Committed(Ok(()))));
}

#[test]
fn a_database_error_ends_the_player_service() {
    let (step, _) = create_or_return_existing_player(4, "sess");
    let (_, action) = step.step(PlayerEvent::PlayerIdFound(Err(sqlx::Error::RowNotFound)));
    assert!(matches!(action, PlayerAction::Finish(Err(AppError::DatabaseError(_)))));
}

// ---- session service ----

fn settings(secret: Option<&str>, access: Option<&str>, refresh: Option<&str>) -> TokenSettings {
    TokenSettings {
        jwt_secret: secret.map(str::to_string),
        access_token_expiry: access.map(str::to_string),
        refresh_token_expiry: refresh.map(str::to_string),
    }
}

#[test]
fn missing_or_bad_settings_are_an_internal_error() {
    for s in [
        settings(None, Some("60"), Some("60")),
        settings(Some("k"), None, Some("60")),
        settings(Some("k"), Some("6o"), Some("60")),
        settings(Some("k"), Some("60"), None),
        settings(Some("k"), Some("60"), Some("")),
    ] {
        let (step, action) = create_token_pair(&s, 1, 2, "sess");
        assert!(matches!(step, TokenPairStep::Done));
        assert!(matches!(action, TokenPairAction::Finish(Err(AppError::InternalError(None)))));
    }
}

#[test]
fn the_access_token_claims_name_player_room_and_expiry() {
    let now = Timestamp { secs: 1_000, nanos: 7 };
    let (step, action) = begin_token_pair(-3, 42, "sess", "key".to_string(), 900, 3600, now);
    match action {
        TokenPairAction::SignAccessToken { claims, secret } => {
            assert_eq!(claims.sub, "42");
            assert_eq!(claims.rid, "-3");
            assert_eq!(claims.exp, 1_900);
            assert_eq!(secret, "key");
        }
        _ => panic!("the claims go to be signed"),
    }
    match step {
        TokenPairStep::Signing { access_token_expiry, refresh_seconds, .. } => {
            assert_eq!(access_token_expiry, Timestamp { secs: 1_900, nanos: 7 });
            assert_eq!(refresh_seconds, 3600);
        }
        _ => panic!("waiting for the signature"),
    }
}

#[test]
fn an_expiry_out_of_range_stops_as_chrono_does() {
    let now = Timestamp { secs: 1_000, nanos: 0 };
    let (_, action) = begin_token_pair(1, 2, "s", "k".to_string(), i64::MAX, 1, now);
    assert!(matches!(action, TokenPairAction::Abort(m) if m == "TimeDelta::seconds out of bounds"));
    let (_, action) = begin_token_pair(1, 2, "s", "k".to_string(), 9_000_000_000_000_000, 1, now);
    assert!(matches!(action, TokenPairAction::Abort(m) if m == "`DateTime + TimeDelta` overflowed"));
}

#[test]
fn a_failed_signature_is_an_internal_error() {
    let (step, _) = create_token_pair(&settings(Some("k"), Some("60"), Some("120")), 1, 2, "s");
    let (_, action) = step.step(TokenPairEvent::AccessTokenSigned(None));
    assert!(matches!(action, TokenPairAction::Finish(Err(AppError::InternalError(None)))));
}

#[test]
fn earlier_tokens_are_revoked_before_the_new_one_is_stored() {
    let (step, action) = create_token_pair(&settings(Some("k"), Some("60"), Some("120")), 1, 2, "sess");
    assert!(matches!(action, TokenPairAction::SignAccessToken { .. }));
    let (step, action) = step.step(TokenPairEvent::AccessTokenSigned(Some("jwt".to_string())));
    assert!(matches!(action, TokenPairAction::BeginTransaction));
    let (step, action) = step.step(TokenPairEvent::TransactionBegun(Ok(())));
    match action {
        TokenPairAction::RevokeAllBySessionHash { session_hash } => {
            assert_eq!(session_hash, sha256_hash("sess"))
        }
        _ => panic!("revoking comes first"),
    }
    let (step, action) = step.step(TokenPairEvent::Revoked(Ok(())));
    let stored_hash = match action {
        TokenPairAction::CreateRefreshToken { token_hash, session_hash, room_id, player_id, .. } => {
            assert_eq!((room_id, player_id), (1, 2));
            assert_eq!(session_hash, sha256_hash("sess"));
            token_hash
        }
        _ => panic!("then the new token is stored"),
    };
    let (step, action) = step.step(TokenPairEvent::RefreshTokenCreated(Ok(())));
    assert!(matches!(action, TokenPairAction::Commit));
    let (_, action) = step.step(TokenPairEvent::Committed(Ok(())));
    match action {
        TokenPairAction::Finish(Ok(details)) => {
            assert_eq!(details.access_token, "jwt");
            assert_eq!(details.refresh_token.len(), 36);
            assert_eq!(sha256_hash(&details.refresh_token), stored_hash);
            assert_eq!(details.claims.sub, "2");
            assert_eq!(
                details.refresh_token_expiry.secs - details.access_token_expiry.secs >= 60,
                true
            );
        }
        _ => panic!("the session is handed out"),
    }
}

#[test]
fn after_signing_the_refresh_token_is_hashed_and_timed() {
    let claims = Claims { sub: "2".to_string(), rid: "1".to_string(), exp: 5 };
    let (step, action) = continue_after_signing(
        1,
        2,
        "sess".to_string(),
        claims,
        "jwt".to_string(),
        Timestamp { secs: 5, nanos: 0 },
        100,
        Timestamp { secs: 10, nanos: 3 },
        "refresh".to_string(),
    );
    assert!(matches!(action, TokenPairAction::BeginTransaction));
    match step {
        TokenPairStep::Beginning { pending } => {
            assert_eq!(pending.session_hash, sha256_hash("sess"));
            assert_eq!(pending.refresh_token_hash, sha256_hash("refresh"));
            assert_eq!(pending.details.refresh_token_expiry, Timestamp { secs: 110, nanos: 3 });
        }
        _ => panic!("a transaction opens"),
    }
}

// ---- room service ----

#[test]
fn a_new_room_is_stored_by_the_hash_of_its_code() {
    let (step, action) = create_room();
    assert!(matches!(action, CreateRoomAction::AcquireConnection));
    let code = match &step {
        CreateRoomStep::Connecting { invite_code, invite_code_hash } => {
            assert_eq!(invite_code.len(), 6);
            assert_eq!(*invite_code_hash, sha256_hash(invite_code));
            invite_code.clone()
        }
        _ => panic!("connecting"),
    };
    let (step, action) = step.step(CreateRoomEvent::ConnectionAcquired(Ok(())));
    match action {
        CreateRoomAction::CreateRoom(room) => assert_eq!(room.invite_code_hash, sha256_hash(&code)),
        _ => panic!("the room is stored"),
    }
    let stored = RoomDetails { id: 31, invite_code_hash: sha256_hash(&code), player_count: 0 };
    let (_, action) = step.step(CreateRoomEvent::RoomCreated(Ok(stored)));
    match action {
        CreateRoomAction::Finish(Ok(resp)) => {
            assert_eq!(resp.id, 31);
            assert_eq!(resp.invite_code, code);
        }
        _ => panic!("the room is answered"),
    }
}

fn joined_until_room(code: &str, found: Option<RoomDetails>) -> (JoinRoomStep, JoinRoomAction) {
    let (step, action) = join_room("sess", "TOKEN", code);
    assert!(matches!(action, JoinRoomAction::AcquireConnection));
    let (step, action) = step.step(JoinRoomEvent::ConnectionAcquired(Ok(())));
    match &action {
        JoinRoomAction::FindActiveRoom { invite_code_hash } => {
            assert_eq!(*invite_code_hash, sha256_hash(code))
        }
        _ => panic!("the room is looked up by the code's hash"),
    }
    step.step(JoinRoomEvent::RoomFound(Ok(found)))
}

#[test]
fn joining_an_unknown_room_fails() {
    let (_, action) = joined_until_room("ABC123", None);
    assert!(matches!(action, JoinRoomAction::Finish(Err(AppError::RoomDoesNotExist))));
}

#[test]
fn joining_with_a_wrong_code_fails() {
    let room = RoomDetails { id: 1, invite_code_hash: sha256_hash("OTHER"), player_count: 0 };
    let (_, action) = joined_until_room("ABC123", Some(room));
    assert!(matches!(action, JoinRoomAction::Finish(Err(AppError::InvalidInviteCode))));
}

#[test]
fn joining_counts_the_new_player() {
    let room = RoomDetails { id: 8, invite_code_hash: sha256_hash("ABC123"), player_count: 2 };
    let (step, action) = joined_until_room("ABC123", Some(room));
    assert!(matches!(action, JoinRoomAction::BeginTransaction));
    let (step, action) = step.step(JoinRoomEvent::TransactionBegun(Ok(())));
    match &action {
        JoinRoomAction::FindOrCreatePlayer { room_id, session_token } => {
            assert_eq!((*room_id, session_token.as_str()), (8, "sess"))
        }
        _ => panic!("the player service runs"),
    }
    let (step, action) = step.step(JoinRoomEvent::PlayerReady(Ok(player(5))));
    assert!(matches!(action, JoinRoomAction::CreateTokenPair { room_id: 8, player_id: 5, .. }));
    let (step, action) = step.step(JoinRoomEvent::SessionReady(Ok(session("refresh"))));
    assert!(matches!(action, JoinRoomAction::Commit));
    let (_, action) = step.step(JoinRoomEvent::Committed(Ok(())));
    match action {
        JoinRoomAction::Finish(Ok(resp)) => {
            assert_eq!(resp.id, 8);
            assert_eq!(resp.player_count, 3);
            assert_eq!(resp.current_player.id, 5);
            assert_eq!(resp.current_player.display_name.as_deref(), Some("p5"));
            assert_eq!(resp.current_player.access_token, "access");
            assert_eq!(resp.current_player.refresh_token, "refresh");
            assert_eq!(resp.current_player.refresh_token_expires_at, Timestamp { secs: 200, nanos: 6 });
        }
        _ => panic!("the join is answered"),
    }
}

#[test]
fn a_failing_player_service_fails_the_join() {
    let room = RoomDetails { id: 8, invite_code_hash: sha256_hash("C"), player_count: 0 };
    let (step, _) = joined_until_room("C", Some(room));
    let (step, _) = step.step(JoinRoomEvent::TransactionBegun(Ok(())));
    let (_, action) = step.step(JoinRoomEvent::PlayerReady(Err(AppError::PlayerDoesNotExist)));
    assert!(matches!(action, JoinRoomAction::Finish(Err(AppError::PlayerDoesNotExist))));
}

#[test]
fn a_full_player_count_stops_the_join() {
    let room = RoomDetails { id: 8, invite_code_hash: sha256_hash("C"), player_count: i64::MAX };
    let (step, _) = joined_until_room("C", Some(room));
    let (step, _) = step.step(JoinRoomEvent::TransactionBegun(Ok(())));
    let (step, _) = step.step(JoinRoomEvent::PlayerReady(Ok(player(1))));
    let (step, _) = step.step(JoinRoomEvent::SessionReady(Ok(session("r"))));
    let (_, action) = step.step(JoinRoomEvent::Committed(Ok(())));
    assert!(matches!(action, JoinRoomAction::Abort("attempt to add with overflow")));
}

// ---- game service ----

fn loaded(board: LoadedBoard) -> (GameStep, GameAction) {
    let (step, action) = make_move(3, 9, &MakeMoveRequest { column: 2 });
    assert!(matches!(action, GameAction::AcquireConnection));
    let (step, action) = step.step(GameEvent::ConnectionAcquired(Ok(())));
    assert!(matches!(action, GameAction::LoadBoardState { room_id: 3 }));
    step.step(GameEvent::BoardLoaded(Ok(board)))
}

#[test]
fn a_move_in_a_missing_room_fails() {
    let (_, action) = loaded(LoadedBoard::Missing);
    assert!(matches!(action, GameAction::Finish(Err(AppError::RoomDoesNotExist))));
}

#[test]
fn an_unreadable_board_is_an_internal_error() {
    let (_, action) = loaded(LoadedBoard::Unreadable);
    assert!(matches!(
        action,
        GameAction::Finish(Err(AppError::InternalError(Some("Failed to deserialize board state."))))
    ));
}

#[test]
fn a_legal_move_stops_where_the_board_would_be_saved() {
    let (step, action) = loaded(LoadedBoard::Board(BoardState::new()));
    assert!(matches!(action, GameAction::Abort("not yet implemented")));
    assert!(matches!(step, GameStep::Done));
    let mut board = BoardState::new();
    board.set_height(2, 5);
    let (_, action) = loaded(LoadedBoard::Board(board));
    assert!(matches!(action, GameAction::Abort("not yet implemented")));
}

#[test]
fn a_move_into_a_full_column_is_illegal() {
    let mut board = BoardState::new();
    board.set_height(2, 6);
    let (_, action) = loaded(LoadedBoard::Board(board));
    assert!(matches!(action, GameAction::Finish(Err(AppError::IllegalMove("Exceeded board height")))));
}

#[test]
fn a_column_at_the_byte_limit_stops_the_move() {
    let mut board = BoardState::new();
    board.set_height(2, 255);
    let (_, action) = loaded(LoadedBoard::Board(board));
    assert!(matches!(action, GameAction::Abort("attempt to add with overflow")));
}

#[test]
fn ending_a_game_marks_room_and_winner_then_stops_before_pushing() {
    let (step, action) = end_game(3, 9, BoardState::new());
    assert!(matches!(action, EndGameAction::BeginTransaction));
    let (step, action) = step.step(EndGameEvent::TransactionBegun(Ok(())));
    assert!(matches!(action, EndGameAction::EndRoom { room_id: 3 }));
    let (step, action) = step.step(EndGameEvent::RoomEnded(Ok(1)));
    assert!(matches!(action, EndGameAction::SetWinningPlayer { player_id: 9 }));
    let (step, action) = step.step(EndGameEvent::WinnerSet(Ok(1)));
    assert!(matches!(action, EndGameAction::Commit));
    let (step, action) = step.step(EndGameEvent::Committed(Ok(())));
    assert!(matches!(action, EndGameAction::AcquireConnection));
    let (step, action) = step.step(EndGameEvent::ConnectionAcquired(Ok(())));
    assert!(matches!(action, EndGameAction::FindPlayerById { player_id: 9 }));
    let (_, action) = step.step(EndGameEvent::PlayerFound(Ok(Some(player(9)))));
    assert!(matches!(action, EndGameAction::Abort("not yet implemented")));
}

#[test]
fn ending_a_game_of_a_missing_room_or_player_fails() {
    let (step, _) = end_game(3, 9, BoardState::new());
    let (step, _) = step.step(EndGameEvent::TransactionBegun(Ok(())));
    let (_, action) = step.step(EndGameEvent::RoomEnded(Ok(0)));
    assert!(matches!(
        action,
        EndGameAction::Finish(Err(AppError::InternalError(Some("Room does not exist"))))
    ));
    let (step, _) = end_game(3, 9, BoardState::new());
    let (step, _) = step.step(EndGameEvent::TransactionBegun(Ok(())));
    let (step, _) = step.step(EndGameEvent::RoomEnded(Ok(1)));
    let (_, action) = step.step(EndGameEvent::WinnerSet(Ok(2)));
    assert!(matches!(
        action,
        EndGameAction::Finish(Err(AppError::InternalError(Some("Player does not exist"))))
    ));
}

#[test]
fn a_stored_token_is_found_again_by_its_session() {
    let (step, _) = create_token_pair(&settings(Some("k"), Some("60"), Some("120")), 1, 2, "sess");
    let (step, _) = step.step(TokenPairEvent::AccessTokenSigned(Some("jwt".to_string())));
    let (step, _) = step.step(TokenPairEvent::TransactionBegun(Ok(())));
    let (_, action) = step.step(TokenPairEvent::Revoked(Ok(())));
    let stored_session_hash = match action {
        TokenPairAction::CreateRefreshToken { session_hash, .. } => session_hash,
        _ => panic!("the new token is stored"),
    };
    let (_, action) = create_or_return_existing_player(1, "sess");
    match action {
        PlayerAction::FindPlayerId { session_hash, room_id } => {
            assert_eq!(room_id, 1);
            assert_eq!(session_hash, stored_session_hash);
        }
        _ => panic!("the session is looked up first"),
    }
}
