//! Finding the player of a session in a room, or creating one.
//!
//! The service talks to the database between its decisions. Its decisions
//! stand here as a state machine: `create_or_return_existing_player`
//! starts it, each `step` takes the outcome of the last database action
//! and gives the next state and action, until the action is `Finish`.
use crate::error::{AppError, AppResult};
use crate::models::CurrentPlayer;
use crate::utils::{sha256_hash, sha256_hex};
use vstd::prelude::*;

verus! {

/// Where the search for the session's player stands.
pub enum PlayerStep {
    /// Looking up the player that the session's refresh tokens name.
    FindingSession { room_id: i64 },
    /// Looking up that player.
    FindingPlayer { room_id: i64, player_id: i64 },
    /// Opening a transaction to create a player.
    Beginning { room_id: i64 },
    /// Drawing the next player reference number.
    ReservingRefNo { room_id: i64 },
    /// Inserting the new player.
    CreatingPlayer { room_id: i64 },
    /// Committing the new player.
    Committing { player: CurrentPlayer },
    /// Finished.
    Done,
}

/// What the database is to do next, or the result.
pub enum PlayerAction {
    /// The player of the newest live refresh token for this session hash
    /// in this room.
    FindPlayerId { session_hash: String, room_id: i64 },
    FindPlayerById { player_id: i64 },
    BeginTransaction,
    NextRefNo,
    CreatePlayer { room_id: i64, ref_no: i64 },
    Commit,
    Finish(AppResult<CurrentPlayer>),
}

/// The outcome of a database action.
pub enum PlayerEvent {
    PlayerIdFound(Result<Option<i64>, sqlx::Error>),
    PlayerFound(Result<Option<CurrentPlayer>, sqlx::Error>),
    TransactionBegun(Result<(), sqlx::Error>),
    RefNoReserved(Result<i64, sqlx::Error>),
    PlayerCreated(Result<CurrentPlayer, sqlx::Error>),
    Committed(Result<(), sqlx::Error>),
}

/// Starts looking for the player of `session_token` in room `room_id`:
/// the session is looked up by the hash of its token.
pub fn create_or_return_existing_player(room_id: i64, session_token: &str) -> (r: (
    PlayerStep,
    PlayerAction,
))
    ensures
        r.0 == (PlayerStep::FindingSession { room_id }),
        r.1 matches PlayerAction::FindPlayerId { session_hash, room_id: rid } && rid == room_id
            && session_hash@ == sha256_hex(session_token@),
{
    let session_hash = sha256_hash(session_token);
    (PlayerStep::FindingSession { room_id }, PlayerAction::FindPlayerId { session_hash, room_id })
}

impl PlayerStep {
    /// Whether `event` answers the action that led to this state.
    pub open spec fn expects(&self, event: &PlayerEvent) -> bool {
        match (*self, *event) {
            (PlayerStep::FindingSession { .. }, PlayerEvent::PlayerIdFound(_)) => true,
            (PlayerStep::FindingPlayer { .. }, PlayerEvent::PlayerFound(_)) => true,
            (PlayerStep::Beginning { .. }, PlayerEvent::TransactionBegun(_)) => true,
            (PlayerStep::ReservingRefNo { .. }, PlayerEvent::RefNoReserved(_)) => true,
            (PlayerStep::CreatingPlayer { .. }, PlayerEvent::PlayerCreated(_)) => true,
            (PlayerStep::Committing { .. }, PlayerEvent::Committed(_)) => true,
            _ => false,
        }
    }

    /// `expects`, for the code that runs the machine.
    pub fn accepts(&self, event: &PlayerEvent) -> (r: bool)
        ensures
            r == self.expects(event),
    {
        match (self, event) {
            (PlayerStep::FindingSession { .. }, PlayerEvent::PlayerIdFound(_)) => true,
            (PlayerStep::FindingPlayer { .. }, PlayerEvent::PlayerFound(_)) => true,
            (PlayerStep::Beginning { .. }, PlayerEvent::TransactionBegun(_)) => true,
            (PlayerStep::ReservingRefNo { .. }, PlayerEvent::RefNoReserved(_)) => true,
            (PlayerStep::CreatingPlayer { .. }, PlayerEvent::PlayerCreated(_)) => true,
            (PlayerStep::Committing { .. }, PlayerEvent::Committed(_)) => true,
            _ => false,
        }
    }

    /// The next state and action. A database error ends the search with
    /// `DatabaseError`. A session that names a player who exists ends it
    /// with that player; otherwise a player is created in the room, with
    /// the next reference number, and committed.
    pub fn step(self, event: PlayerEvent) -> (r: (PlayerStep, PlayerAction))
        requires
            self.expects(&event),
        ensures
            match (self, event) {
                (PlayerStep::FindingSession { room_id }, PlayerEvent::PlayerIdFound(found)) => match found {
                    Err(e) => r == (PlayerStep::Done, PlayerAction::Finish(Err(AppError::DatabaseError(e)))),
                    Ok(Some(player_id)) => r == (
                        PlayerStep::FindingPlayer { room_id, player_id },
                        PlayerAction::FindPlayerById { player_id },
                    ),
                    Ok(None) => r == (PlayerStep::Beginning { room_id }, PlayerAction::BeginTransaction),
                },
                (PlayerStep::FindingPlayer { room_id, .. }, PlayerEvent::PlayerFound(found)) => match found {
                    Err(e) => r == (PlayerStep::Done, PlayerAction::Finish(Err(AppError::DatabaseError(e)))),
                    Ok(Some(player)) => r == (PlayerStep::Done, PlayerAction::Finish(Ok(player))),
                    Ok(None) => r == (PlayerStep::Beginning { room_id }, PlayerAction::BeginTransaction),
                },
                (PlayerStep::Beginning { room_id }, PlayerEvent::TransactionBegun(begun)) => match begun {
                    Err(e) => r == (PlayerStep::Done, PlayerAction::Finish(Err(AppError::DatabaseError(e)))),
                    Ok(()) => r == (PlayerStep::ReservingRefNo { room_id }, PlayerAction::NextRefNo),
                },
                (PlayerStep::ReservingRefNo { room_id }, PlayerEvent::RefNoReserved(reserved)) => match reserved {
                    Err(e) => r == (PlayerStep::Done, PlayerAction::Finish(Err(AppError::DatabaseError(e)))),
                    Ok(ref_no) => r == (
                        PlayerStep::CreatingPlayer { room_id },
                        PlayerAction::CreatePlayer { room_id, ref_no },
                    ),
                },
                (PlayerStep::CreatingPlayer { .. }, PlayerEvent::PlayerCreated(created)) => match created {
                    Err(e) => r == (PlayerStep::Done, PlayerAction::Finish(Err(AppError::DatabaseError(e)))),
                    Ok(player) => r == (PlayerStep::Committing { player }, PlayerAction::Commit),
                },
                (PlayerStep::Committing { player }, PlayerEvent::Committed(committed)) => match committed {
                    Err(e) => r == (PlayerStep::Done, PlayerAction::Finish(Err(AppError::DatabaseError(e)))),
                    Ok(()) => r == (PlayerStep::Done, PlayerAction::Finish(Ok(player))),
                },
                _ => false,
            },
    {
        match (self, event) {
            (PlayerStep::FindingSession { room_id }, PlayerEvent::PlayerIdFound(found)) => match found {
                Err(e) => (PlayerStep::Done, PlayerAction::Finish(Err(AppError::DatabaseError(e)))),
                Ok(Some(player_id)) => (
                    PlayerStep::FindingPlayer { room_id, player_id },
                    PlayerAction::FindPlayerById { player_id },
                ),
                Ok(None) => (PlayerStep::Beginning { room_id }, PlayerAction::BeginTransaction),
            },
            (PlayerStep::FindingPlayer { room_id, .. }, PlayerEvent::PlayerFound(found)) => match found {
                Err(e) => (PlayerStep::Done, PlayerAction::Finish(Err(AppError::DatabaseError(e)))),
                Ok(Some(player)) => (PlayerStep::Done, PlayerAction::Finish(Ok(player))),
                Ok(None) => (PlayerStep::Beginning { room_id }, PlayerAction::BeginTransaction),
            },
            (PlayerStep::Beginning { room_id }, PlayerEvent::TransactionBegun(begun)) => match begun {
                Err(e) => (PlayerStep::Done, PlayerAction::Finish(Err(AppError::DatabaseError(e)))),
                Ok(()) => (PlayerStep::ReservingRefNo { room_id }, PlayerAction::NextRefNo),
            },
            (PlayerStep::ReservingRefNo { room_id }, PlayerEvent::RefNoReserved(reserved)) => match reserved {
                Err(e) => (PlayerStep::Done, PlayerAction::Finish(Err(AppError::DatabaseError(e)))),
                Ok(ref_no) => (
                    PlayerStep::CreatingPlayer { room_id },
                    PlayerAction::CreatePlayer { room_id, ref_no },
                ),
            },
            (PlayerStep::CreatingPlayer { .. }, PlayerEvent::PlayerCreated(created)) => match created {
                Err(e) => (PlayerStep::Done, PlayerAction::Finish(Err(AppError::DatabaseError(e)))),
                Ok(player) => (PlayerStep::Committing { player }, PlayerAction::Commit),
            },
            (PlayerStep::Committing { player }, PlayerEvent::Committed(committed)) => match committed {
                Err(e) => (PlayerStep::Done, PlayerAction::Finish(Err(AppError::DatabaseError(e)))),
                Ok(()) => (PlayerStep::Done, PlayerAction::Finish(Ok(player))),
            },
            _ => (PlayerStep::Done, PlayerAction::Finish(Err(AppError::InternalError(None)))),
        }
    }
}

} // verus!
