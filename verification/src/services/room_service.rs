//! Creating rooms and joining them by invite code.
//!
//! Both services stand as state machines: a start function gives the
//! first state and action, `step` takes the outcome of each action.
use crate::error::{AppError, AppResult};
use crate::models::{
    CreateRoom, CreateRoomResponse, CurrentPlayer, CurrentPlayerResponse, CurrentRoomResponse,
    RoomDetails,
};
use crate::services::SessionDetails;
use crate::utils::{
    generate_invite_code, is_ascii_alphanumeric, is_panic_text, sha256_hash, sha256_hex, RNG_SEED_FAILURE,
};
use vstd::prelude::*;

verus! {

/// The length of an invite code.
pub const INVITE_CODE_LENGTH: u8 = 6;

// ---------------------------------------------------------------------
// Creating a room
// ---------------------------------------------------------------------
/// Where the creation of a room stands.
pub enum CreateRoomStep {
    Connecting { invite_code: String, invite_code_hash: String },
    Storing { invite_code: String },
    Done,
}

/// What the database is to do next, or the result.
pub enum CreateRoomAction {
    AcquireConnection,
    /// Insert the room and hand back its details.
    CreateRoom(CreateRoom),
    Finish(AppResult<CreateRoomResponse>),
    /// Stop as the service stops: with this panic message.
    Abort(String),
}

/// The outcome of a database action.
pub enum CreateRoomEvent {
    ConnectionAcquired(Result<(), sqlx::Error>),
    RoomCreated(Result<RoomDetails, sqlx::Error>),
}

/// Starts creating a room: draws a random invite code of
/// `INVITE_CODE_LENGTH` letters and digits, to be stored by its hash.
/// Where the system's random source fails, the service stops as the
/// thread's generator does.
pub fn create_room() -> (r: (CreateRoomStep, CreateRoomAction))
    ensures
        r.1 is Abort ==> {
            &&& r.0 is Done
            &&& r.1 matches CreateRoomAction::Abort(m) && is_panic_text(m@, RNG_SEED_FAILURE@)
        },
        !(r.1 is Abort) ==> {
            &&& r.1 is AcquireConnection
            &&& r.0 matches CreateRoomStep::Connecting { invite_code, invite_code_hash }
                && invite_code@.len() == INVITE_CODE_LENGTH && (forall|i: int|
                0 <= i < invite_code@.len() ==> is_ascii_alphanumeric(#[trigger] invite_code@[i]))
                && invite_code_hash@ == sha256_hex(invite_code@)
        },
{
    let invite_code = match generate_invite_code(INVITE_CODE_LENGTH) {
        Ok(code) => code,
        Err(m) => {
            return (CreateRoomStep::Done, CreateRoomAction::Abort(m));
        },
    };
    let invite_code_hash = sha256_hash(invite_code.as_str());
    (CreateRoomStep::Connecting { invite_code, invite_code_hash }, CreateRoomAction::AcquireConnection)
}

impl CreateRoomStep {
    /// Whether `event` answers the action that led to this state.
    pub open spec fn expects(&self, event: &CreateRoomEvent) -> bool {
        match (*self, *event) {
            (CreateRoomStep::Connecting { .. }, CreateRoomEvent::ConnectionAcquired(_)) => true,
            (CreateRoomStep::Storing { .. }, CreateRoomEvent::RoomCreated(_)) => true,
            _ => false,
        }
    }

    /// `expects`, for the code that runs the machine.
    pub fn accepts(&self, event: &CreateRoomEvent) -> (r: bool)
        ensures
            r == self.expects(event),
    {
        match (self, event) {
            (CreateRoomStep::Connecting { .. }, CreateRoomEvent::ConnectionAcquired(_)) => true,
            (CreateRoomStep::Storing { .. }, CreateRoomEvent::RoomCreated(_)) => true,
            _ => false,
        }
    }

    /// The next state and action: the room is stored by the hash of its
    /// code, and the answer holds its id and the code itself.
    pub fn step(self, event: CreateRoomEvent) -> (r: (CreateRoomStep, CreateRoomAction))
        requires
            self.expects(&event),
        ensures
            match (self, event) {
                (
                    CreateRoomStep::Connecting { invite_code, invite_code_hash },
                    CreateRoomEvent::ConnectionAcquired(res),
                ) => match res {
                    Err(e) => r == (
                        CreateRoomStep::Done,
                        CreateRoomAction::Finish(Err(AppError::DatabaseError(e))),
                    ),
                    Ok(()) => r == (
                        CreateRoomStep::Storing { invite_code },
                        CreateRoomAction::CreateRoom(CreateRoom { invite_code_hash }),
                    ),
                },
                (CreateRoomStep::Storing { invite_code }, CreateRoomEvent::RoomCreated(res)) => match res {
                    Err(e) => r == (
                        CreateRoomStep::Done,
                        CreateRoomAction::Finish(Err(AppError::DatabaseError(e))),
                    ),
                    Ok(room) => r == (
                        CreateRoomStep::Done,
                        CreateRoomAction::Finish(Ok(CreateRoomResponse { id: room.id, invite_code })),
                    ),
                },
                _ => false,
            },
    {
        match (self, event) {
            (
                CreateRoomStep::Connecting { invite_code, invite_code_hash },
                CreateRoomEvent::ConnectionAcquired(res),
            ) => match res {
                Err(e) => (CreateRoomStep::Done, CreateRoomAction::Finish(Err(AppError::DatabaseError(e)))),
                Ok(()) => (
                    CreateRoomStep::Storing { invite_code },
                    CreateRoomAction::CreateRoom(CreateRoom { invite_code_hash }),
                ),
            },
            (CreateRoomStep::Storing { invite_code }, CreateRoomEvent::RoomCreated(res)) => match res {
                Err(e) => (CreateRoomStep::Done, CreateRoomAction::Finish(Err(AppError::DatabaseError(e)))),
                Ok(room) => (
                    CreateRoomStep::Done,
                    CreateRoomAction::Finish(Ok(CreateRoomResponse { id: room.id, invite_code })),
                ),
            },
            _ => (CreateRoomStep::Done, CreateRoomAction::Finish(Err(AppError::InternalError(None)))),
        }
    }
}

// ---------------------------------------------------------------------
// Joining a room
// ---------------------------------------------------------------------
/// Where joining a room stands.
pub enum JoinRoomStep {
    Connecting { session_token: String, invite_code_hash: String },
    FindingRoom { session_token: String, invite_code_hash: String },
    Beginning { session_token: String, room: RoomDetails },
    FindingPlayer { session_token: String, room: RoomDetails },
    OpeningSession { room: RoomDetails, player: CurrentPlayer },
    Committing { room: RoomDetails, player: CurrentPlayer, session: SessionDetails },
    Done,
}

/// What is to be done next, or the result.
pub enum JoinRoomAction {
    AcquireConnection,
    /// Look up the active room with this invite code hash.
    FindActiveRoom { invite_code_hash: String },
    BeginTransaction,
    /// Run the player service in the transaction.
    FindOrCreatePlayer { room_id: i64, session_token: String },
    /// Run the session service in the transaction.
    CreateTokenPair { room_id: i64, player_id: i64, session_token: String },
    Commit,
    Finish(AppResult<CurrentRoomResponse>),
    /// Stop as the service stops: with this panic message.
    Abort(&'static str),
}

/// The outcome of an action.
pub enum JoinRoomEvent {
    ConnectionAcquired(Result<(), sqlx::Error>),
    RoomFound(Result<Option<RoomDetails>, sqlx::Error>),
    TransactionBegun(Result<(), sqlx::Error>),
    PlayerReady(AppResult<CurrentPlayer>),
    SessionReady(AppResult<SessionDetails>),
    Committed(Result<(), sqlx::Error>),
}

/// The answer to joining `room` as `player` with `session`: the room
/// counts the new player.
pub open spec fn joined_room_response(
    r: CurrentRoomResponse,
    room: RoomDetails,
    player: CurrentPlayer,
    session: SessionDetails,
) -> bool {
    &&& r.id == room.id
    &&& r.player_count == room.player_count + 1
    &&& r.current_player == CurrentPlayerResponse {
        id: player.id,
        display_name: player.display_name,
        access_token: session.access_token,
        access_token_expires_at: session.access_token_expiry,
        refresh_token: session.refresh_token,
        refresh_token_expires_at: session.refresh_token_expiry,
    }
}

/// Starts joining the room of `invite_code` with the session
/// `session_token`. The attestation token is not checked.
pub fn join_room(session_token: &str, attestation_token: &str, invite_code: &str) -> (r: (
    JoinRoomStep,
    JoinRoomAction,
))
    ensures
        r.1 is AcquireConnection,
        r.0 matches JoinRoomStep::Connecting { session_token: st, invite_code_hash }
            && st@ == session_token@ && invite_code_hash@ == sha256_hex(invite_code@),
{
    let invite_code_hash = sha256_hash(invite_code);
    (
        JoinRoomStep::Connecting { session_token: session_token.to_owned(), invite_code_hash },
        JoinRoomAction::AcquireConnection,
    )
}

impl JoinRoomStep {
    /// Whether `event` answers the action that led to this state.
    pub open spec fn expects(&self, event: &JoinRoomEvent) -> bool {
        match (*self, *event) {
            (JoinRoomStep::Connecting { .. }, JoinRoomEvent::ConnectionAcquired(_)) => true,
            (JoinRoomStep::FindingRoom { .. }, JoinRoomEvent::RoomFound(_)) => true,
            (JoinRoomStep::Beginning { .. }, JoinRoomEvent::TransactionBegun(_)) => true,
            (JoinRoomStep::FindingPlayer { .. }, JoinRoomEvent::PlayerReady(_)) => true,
            (JoinRoomStep::OpeningSession { .. }, JoinRoomEvent::SessionReady(_)) => true,
            (JoinRoomStep::Committing { .. }, JoinRoomEvent::Committed(_)) => true,
            _ => false,
        }
    }

    /// `expects`, for the code that runs the machine.
    pub fn accepts(&self, event: &JoinRoomEvent) -> (r: bool)
        ensures
            r == self.expects(event),
    {
        match (self, event) {
            (JoinRoomStep::Connecting { .. }, JoinRoomEvent::ConnectionAcquired(_)) => true,
            (JoinRoomStep::FindingRoom { .. }, JoinRoomEvent::RoomFound(_)) => true,
            (JoinRoomStep::Beginning { .. }, JoinRoomEvent::TransactionBegun(_)) => true,
            (JoinRoomStep::FindingPlayer { .. }, JoinRoomEvent::PlayerReady(_)) => true,
            (JoinRoomStep::OpeningSession { .. }, JoinRoomEvent::SessionReady(_)) => true,
            (JoinRoomStep::Committing { .. }, JoinRoomEvent::Committed(_)) => true,
            _ => false,
        }
    }

    /// The next state and action. No active room for the code gives
    /// `RoomDoesNotExist`, a room whose stored hash differs from the
    /// code's gives `InvalidInviteCode`; errors of the player and session
    /// services end the join with that error, database errors with
    /// `DatabaseError`. A committed join answers with the room, counting
    /// the new player, and the player's session.
    pub fn step(self, event: JoinRoomEvent) -> (r: (JoinRoomStep, JoinRoomAction))
        requires
            self.expects(&event),
        ensures
            match (self, event) {
                (
                    JoinRoomStep::Connecting { session_token, invite_code_hash },
                    JoinRoomEvent::ConnectionAcquired(res),
                ) => match res {
                    Err(e) => r == (JoinRoomStep::Done, JoinRoomAction::Finish(Err(AppError::DatabaseError(e)))),
                    Ok(()) => r.0 == (JoinRoomStep::FindingRoom { session_token, invite_code_hash })
                        && r.1 == (JoinRoomAction::FindActiveRoom { invite_code_hash }),
                },
                (
                    JoinRoomStep::FindingRoom { session_token, invite_code_hash },
                    JoinRoomEvent::RoomFound(res),
                ) => match res {
                    Err(e) => r == (JoinRoomStep::Done, JoinRoomAction::Finish(Err(AppError::DatabaseError(e)))),
                    Ok(None) => r == (JoinRoomStep::Done, JoinRoomAction::Finish(Err(AppError::RoomDoesNotExist))),
                    Ok(Some(room)) => if invite_code_hash@ != room.invite_code_hash@ {
                        r == (JoinRoomStep::Done, JoinRoomAction::Finish(Err(AppError::InvalidInviteCode)))
                    } else {
                        r == (JoinRoomStep::Beginning { session_token, room }, JoinRoomAction::BeginTransaction)
                    },
                },
                (JoinRoomStep::Beginning { session_token, room }, JoinRoomEvent::TransactionBegun(res)) => match res {
                    Err(e) => r == (JoinRoomStep::Done, JoinRoomAction::Finish(Err(AppError::DatabaseError(e)))),
                    Ok(()) => r == (
                        JoinRoomStep::FindingPlayer { session_token, room },
                        JoinRoomAction::FindOrCreatePlayer { room_id: room.id, session_token },
                    ),
                },
                (JoinRoomStep::FindingPlayer { session_token, room }, JoinRoomEvent::PlayerReady(res)) => match res {
                    Err(e) => r == (JoinRoomStep::Done, JoinRoomAction::Finish(Err(e))),
                    Ok(player) => r == (
                        JoinRoomStep::OpeningSession { room, player },
                        JoinRoomAction::CreateTokenPair {
                            room_id: room.id,
                            player_id: player.id,
                            session_token,
                        },
                    ),
                },
                (JoinRoomStep::OpeningSession { room, player }, JoinRoomEvent::SessionReady(res)) => match res {
                    Err(e) => r == (JoinRoomStep::Done, JoinRoomAction::Finish(Err(e))),
                    Ok(session) => r == (
                        JoinRoomStep::Committing { room, player, session },
                        JoinRoomAction::Commit,
                    ),
                },
                (JoinRoomStep::Committing { room, player, session }, JoinRoomEvent::Committed(res)) => match res {
                    Err(e) => r == (JoinRoomStep::Done, JoinRoomAction::Finish(Err(AppError::DatabaseError(e)))),
                    Ok(()) => if room.player_count == i64::MAX {
                        &&& r.0 is Done
                        &&& r.1 matches JoinRoomAction::Abort(m) && m@ == "attempt to add with overflow"@
                    } else {
                        &&& r.0 is Done
                        &&& r.1 matches JoinRoomAction::Finish(Ok(resp)) && joined_room_response(
                            resp,
                            room,
                            player,
                            session,
                        )
                        &&& r.1 matches JoinRoomAction::Finish(Ok(resp))
                            && resp.current_player.access_token_expires_at == session.access_token_expiry
                            && resp.current_player.refresh_token_expires_at == session.refresh_token_expiry
                            && resp.current_player.access_token == session.access_token
                            && resp.current_player.refresh_token == session.refresh_token
                            && resp.current_player.id == player.id && resp.id == room.id
                            && resp.player_count == room.player_count + 1
                    },
                },
                _ => false,
            },
    {
        match (self, event) {
            (
                JoinRoomStep::Connecting { session_token, invite_code_hash },
                JoinRoomEvent::ConnectionAcquired(res),
            ) => match res {
                Err(e) => (JoinRoomStep::Done, JoinRoomAction::Finish(Err(AppError::DatabaseError(e)))),
                Ok(()) => {
                    let action = JoinRoomAction::FindActiveRoom {
                        invite_code_hash: invite_code_hash.clone(),
                    };
                    (JoinRoomStep::FindingRoom { session_token, invite_code_hash }, action)
                },
            },
            (
                JoinRoomStep::FindingRoom { session_token, invite_code_hash },
                JoinRoomEvent::RoomFound(res),
            ) => match res {
                Err(e) => (JoinRoomStep::Done, JoinRoomAction::Finish(Err(AppError::DatabaseError(e)))),
                Ok(None) => (JoinRoomStep::Done, JoinRoomAction::Finish(Err(AppError::RoomDoesNotExist))),
                Ok(Some(room)) => {
                    if invite_code_hash != room.invite_code_hash {
                        (JoinRoomStep::Done, JoinRoomAction::Finish(Err(AppError::InvalidInviteCode)))
                    } else {
                        (JoinRoomStep::Beginning { session_token, room }, JoinRoomAction::BeginTransaction)
                    }
                },
            },
            (JoinRoomStep::Beginning { session_token, room }, JoinRoomEvent::TransactionBegun(res)) => match res {
                Err(e) => (JoinRoomStep::Done, JoinRoomAction::Finish(Err(AppError::DatabaseError(e)))),
                Ok(()) => {
                    let action = JoinRoomAction::FindOrCreatePlayer {
                        room_id: room.id,
                        session_token: session_token.clone(),
                    };
                    (JoinRoomStep::FindingPlayer { session_token, room }, action)
                },
            },
            (JoinRoomStep::FindingPlayer { session_token, room }, JoinRoomEvent::PlayerReady(res)) => match res {
                Err(e) => (JoinRoomStep::Done, JoinRoomAction::Finish(Err(e))),
                Ok(player) => {
                    let action = JoinRoomAction::CreateTokenPair {
                        room_id: room.id,
                        player_id: player.id,
                        session_token,
                    };
                    (JoinRoomStep::OpeningSession { room, player }, action)
                },
            },
            (JoinRoomStep::OpeningSession { room, player }, JoinRoomEvent::SessionReady(res)) => match res {
                Err(e) => (JoinRoomStep::Done, JoinRoomAction::Finish(Err(e))),
                Ok(session) => (JoinRoomStep::Committing { room, player, session }, JoinRoomAction::Commit),
            },
            (JoinRoomStep::Committing { room, player, session }, JoinRoomEvent::Committed(res)) => match res {
                Err(e) => (JoinRoomStep::Done, JoinRoomAction::Finish(Err(AppError::DatabaseError(e)))),
                Ok(()) => {
                    if room.player_count == i64::MAX {
                        return (JoinRoomStep::Done, JoinRoomAction::Abort("attempt to add with overflow"));
                    }
                    let response = CurrentRoomResponse {
                        id: room.id,
                        player_count: room.player_count + 1,
                        current_player: CurrentPlayerResponse {
                            id: player.id,
                            display_name: player.display_name,
                            access_token: session.access_token,
                            access_token_expires_at: session.access_token_expiry,
                            refresh_token: session.refresh_token,
                            refresh_token_expires_at: session.refresh_token_expiry,
                        },
                    };
                    (JoinRoomStep::Done, JoinRoomAction::Finish(Ok(response)))
                },
            },
            _ => (JoinRoomStep::Done, JoinRoomAction::Finish(Err(AppError::InternalError(None)))),
        }
    }
}

/// Joining with the invite code that a room was created with looks the
/// room up by the very hash under which the room was stored: both are
/// the SHA-256 of the code, so the lookup meets the stored room.
pub proof fn joining_looks_up_the_stored_hash(
    created: CreateRoomStep,
    joining: JoinRoomStep,
    code: Seq<char>,
)
    requires
        created matches CreateRoomStep::Connecting { invite_code, invite_code_hash }
            && invite_code@ == code && invite_code_hash@ == sha256_hex(invite_code@),
        joining matches JoinRoomStep::Connecting { invite_code_hash, .. } && invite_code_hash@
            == sha256_hex(code),
    ensures
        created->Connecting_invite_code_hash@ == joining->Connecting_invite_code_hash@,
{
}

/// The answer to a committed join hands out the session it opened as it
/// is: the access token with the access token's expiry, the refresh
/// token with the refresh token's expiry, for the joining player, in the
/// joined room, which counts one player more.
pub proof fn joined_answer_hands_out_the_session(
    resp: CurrentRoomResponse,
    room: RoomDetails,
    player: CurrentPlayer,
    session: SessionDetails,
)
    requires
        joined_room_response(resp, room, player, session),
    ensures
        resp.current_player.access_token == session.access_token,
        resp.current_player.access_token_expires_at == session.access_token_expiry,
        resp.current_player.refresh_token == session.refresh_token,
        resp.current_player.refresh_token_expires_at == session.refresh_token_expiry,
        resp.current_player.id == player.id,
        resp.current_player.display_name == player.display_name,
        resp.id == room.id,
        resp.player_count == room.player_count + 1,
{
}

} // verus!
