//! Playing a move in a room, and ending the game of a winning move.
//!
//! Both services stand as state machines: a start function gives the
//! first state and action, `step` takes the outcome of each action.
use crate::error::{AppError, AppResult};
use crate::models::{column_height, BoardState, CurrentPlayer, MakeMove, MakeMoveRequest};
use crate::services::connect4_engine::{self, column_has_room, Connect4Result, PlayerMove};
use vstd::prelude::*;

verus! {

// ---------------------------------------------------------------------
// Playing a move
// ---------------------------------------------------------------------
/// A room's board as read from the database.
pub enum LoadedBoard {
    /// No room has the id.
    Missing,
    /// The stored board could not be read.
    Unreadable,
    Board(BoardState),
}

/// Where the move stands.
pub enum GameStep {
    Connecting { current_move: MakeMove },
    LoadingBoard { current_move: MakeMove },
    Done,
}

/// What is to be done next, or the result.
pub enum GameAction {
    AcquireConnection,
    LoadBoardState { room_id: i64 },
    Finish(AppResult<()>),
    /// Stop as the service stops: with this panic message.
    Abort(&'static str),
}

/// The outcome of an action.
pub enum GameEvent {
    ConnectionAcquired(Result<(), sqlx::Error>),
    BoardLoaded(Result<LoadedBoard, sqlx::Error>),
}

/// The message with which the service stops where it comes to a step
/// that is not written yet: saving the board after a legal move, and
/// pushing the final board once a game has ended.
pub const NOT_YET_IMPLEMENTED: &'static str = "not yet implemented";

/// Starts player `player_id`'s move in room `room_id`.
pub fn make_move(room_id: i64, player_id: i64, current_move: &MakeMoveRequest) -> (r: (
    GameStep,
    GameAction,
))
    ensures
        r.0 == (GameStep::Connecting {
            current_move: MakeMove { room_id, player_id, column: current_move.column },
        }),
        r.1 is AcquireConnection,
{
    let current_move = MakeMove { room_id, player_id, column: current_move.column };
    (GameStep::Connecting { current_move }, GameAction::AcquireConnection)
}

/// What the move does with a board it loaded, `board`: a column at the
/// byte limit overflows, a full column refuses the move, and a legal move
/// comes to saving the board, which is not written yet.
pub open spec fn after_loading(
    mv: MakeMove,
    board: crate::models::BoardView,
    r: (GameStep, GameAction),
) -> bool {
    let h = column_height(board, mv.column);
    if h == u8::MAX {
        &&& r.0 is Done
        &&& r.1 matches GameAction::Abort(m) && m@ == "attempt to add with overflow"@
    } else if !column_has_room(h) {
        &&& r.0 is Done
        &&& r.1 matches GameAction::Finish(Err(AppError::IllegalMove(m))) && m@ == "Exceeded board height"@
    } else {
        &&& r.0 is Done
        &&& r.1 matches GameAction::Abort(m) && m@ == NOT_YET_IMPLEMENTED@
    }
}

impl GameStep {
    /// Whether `event` answers the action that led to this state.
    pub open spec fn expects(&self, event: &GameEvent) -> bool {
        match (*self, *event) {
            (GameStep::Connecting { .. }, GameEvent::ConnectionAcquired(_)) => true,
            (GameStep::LoadingBoard { .. }, GameEvent::BoardLoaded(_)) => true,
            _ => false,
        }
    }

    /// `expects`, for the code that runs the machine.
    pub fn accepts(&self, event: &GameEvent) -> (r: bool)
        ensures
            r == self.expects(event),
    {
        match (self, event) {
            (GameStep::Connecting { .. }, GameEvent::ConnectionAcquired(_)) => true,
            (GameStep::LoadingBoard { .. }, GameEvent::BoardLoaded(_)) => true,
            _ => false,
        }
    }

    /// The next state and action. A missing room gives `RoomDoesNotExist`,
    /// an unreadable board `InternalError` with its message; the loaded
    /// board takes the move as the engine plays it: a refused move gives
    /// `IllegalMove`, and a legal one stops where the board would be saved.
    pub fn step(self, event: GameEvent) -> (r: (GameStep, GameAction))
        requires
            self.expects(&event),
        ensures
            match (self, event) {
                (GameStep::Connecting { current_move }, GameEvent::ConnectionAcquired(res)) => match res {
                    Err(e) => r == (GameStep::Done, GameAction::Finish(Err(AppError::DatabaseError(e)))),
                    Ok(()) => r == (
                        GameStep::LoadingBoard { current_move },
                        GameAction::LoadBoardState { room_id: current_move.room_id },
                    ),
                },
                (GameStep::LoadingBoard { current_move }, GameEvent::BoardLoaded(res)) => match res {
                    Err(e) => r == (GameStep::Done, GameAction::Finish(Err(AppError::DatabaseError(e)))),
                    Ok(LoadedBoard::Missing) => r == (
                        GameStep::Done,
                        GameAction::Finish(Err(AppError::RoomDoesNotExist)),
                    ),
                    Ok(LoadedBoard::Unreadable) => {
                        &&& r.0 is Done
                        &&& r.1 matches GameAction::Finish(Err(AppError::InternalError(Some(m))))
                            && m@ == "Failed to deserialize board state."@
                    },
                    Ok(LoadedBoard::Board(board)) => after_loading(current_move, board@, r),
                },
                _ => false,
            },
    {
        match (self, event) {
            (GameStep::Connecting { current_move }, GameEvent::ConnectionAcquired(res)) => match res {
                Err(e) => (GameStep::Done, GameAction::Finish(Err(AppError::DatabaseError(e)))),
                Ok(()) => (
                    GameStep::LoadingBoard { current_move },
                    GameAction::LoadBoardState { room_id: current_move.room_id },
                ),
            },
            (GameStep::LoadingBoard { current_move }, GameEvent::BoardLoaded(res)) => match res {
                Err(e) => (GameStep::Done, GameAction::Finish(Err(AppError::DatabaseError(e)))),
                Ok(LoadedBoard::Missing) => (
                    GameStep::Done,
                    GameAction::Finish(Err(AppError::RoomDoesNotExist)),
                ),
                Ok(LoadedBoard::Unreadable) => (
                    GameStep::Done,
                    GameAction::Finish(
                        Err(AppError::InternalError(Some("Failed to deserialize board state."))),
                    ),
                ),
                Ok(LoadedBoard::Board(board)) => play_loaded(current_move, board),
            },
            _ => (GameStep::Done, GameAction::Finish(Err(AppError::InternalError(None)))),
        }
    }
}

fn play_loaded(current_move: MakeMove, board: BoardState) -> (r: (GameStep, GameAction))
    ensures
        after_loading(current_move, board@, r),
{
    if board.height(current_move.column) == u8::MAX {
        return (GameStep::Done, GameAction::Abort("attempt to add with overflow"));
    }
    let player_move = PlayerMove { player_id: current_move.player_id, x: current_move.column };
    let (result, _board) = connect4_engine::make_move(board, player_move);
    match result {
        Connect4Result::IllegalMove(err) => (
            GameStep::Done,
            GameAction::Finish(Err(AppError::IllegalMove(err))),
        ),
        Connect4Result::AllowedMove => (GameStep::Done, GameAction::Abort(NOT_YET_IMPLEMENTED)),
        Connect4Result::WinningMove => (GameStep::Done, GameAction::Abort(NOT_YET_IMPLEMENTED)),
    }
}

// ---------------------------------------------------------------------
// Ending a game
// ---------------------------------------------------------------------
/// Where the ending of a game stands.
pub enum EndGameStep {
    Beginning { room_id: i64, winning_player_id: i64, board: BoardState },
    EndingRoom { winning_player_id: i64, board: BoardState },
    SettingWinner { winning_player_id: i64, board: BoardState },
    Committing { winning_player_id: i64, board: BoardState },
    Connecting { winning_player_id: i64, board: BoardState },
    FindingWinner { board: BoardState },
    Done,
}

/// What is to be done next, or the result.
pub enum EndGameAction {
    BeginTransaction,
    /// Mark the room as no longer active; answers the rows it touched.
    EndRoom { room_id: i64 },
    /// Mark the player as winner; answers the rows it touched.
    SetWinningPlayer { player_id: i64 },
    Commit,
    AcquireConnection,
    FindPlayerById { player_id: i64 },
    Finish(AppResult<()>),
    /// Stop as the service stops: with this panic message.
    Abort(&'static str),
}

/// The outcome of an action.
pub enum EndGameEvent {
    TransactionBegun(Result<(), sqlx::Error>),
    RoomEnded(Result<u64, sqlx::Error>),
    WinnerSet(Result<u64, sqlx::Error>),
    Committed(Result<(), sqlx::Error>),
    ConnectionAcquired(Result<(), sqlx::Error>),
    PlayerFound(Result<Option<CurrentPlayer>, sqlx::Error>),
}

/// Starts ending the game of room `room_id`, won by `winning_player_id`
/// on `board`.
pub fn end_game(room_id: i64, winning_player_id: i64, board: BoardState) -> (r: (
    EndGameStep,
    EndGameAction,
))
    ensures
        r == (EndGameStep::Beginning { room_id, winning_player_id, board }, EndGameAction::BeginTransaction),
{
    (EndGameStep::Beginning { room_id, winning_player_id, board }, EndGameAction::BeginTransaction)
}

impl EndGameStep {
    /// Whether `event` answers the action that led to this state.
    pub open spec fn expects(&self, event: &EndGameEvent) -> bool {
        match (*self, *event) {
            (EndGameStep::Beginning { .. }, EndGameEvent::TransactionBegun(_)) => true,
            (EndGameStep::EndingRoom { .. }, EndGameEvent::RoomEnded(_)) => true,
            (EndGameStep::SettingWinner { .. }, EndGameEvent::WinnerSet(_)) => true,
            (EndGameStep::Committing { .. }, EndGameEvent::Committed(_)) => true,
            (EndGameStep::Connecting { .. }, EndGameEvent::ConnectionAcquired(_)) => true,
            (EndGameStep::FindingWinner { .. }, EndGameEvent::PlayerFound(_)) => true,
            _ => false,
        }
    }

    /// `expects`, for the code that runs the machine.
    pub fn accepts(&self, event: &EndGameEvent) -> (r: bool)
        ensures
            r == self.expects(event),
    {
        match (self, event) {
            (EndGameStep::Beginning { .. }, EndGameEvent::TransactionBegun(_)) => true,
            (EndGameStep::EndingRoom { .. }, EndGameEvent::RoomEnded(_)) => true,
            (EndGameStep::SettingWinner { .. }, EndGameEvent::WinnerSet(_)) => true,
            (EndGameStep::Committing { .. }, EndGameEvent::Committed(_)) => true,
            (EndGameStep::Connecting { .. }, EndGameEvent::ConnectionAcquired(_)) => true,
            (EndGameStep::FindingWinner { .. }, EndGameEvent::PlayerFound(_)) => true,
            _ => false,
        }
    }

    /// The next state and action. Ending the room and marking the winner
    /// must each touch exactly one row, or the game ends with
    /// `InternalError` naming what does not exist; after the commit the
    /// winner is looked up, and the service stops where the final board
    /// would be pushed to the room's players.
    pub fn step(self, event: EndGameEvent) -> (r: (EndGameStep, EndGameAction))
        requires
            self.expects(&event),
        ensures
            match (self, event) {
                (
                    EndGameStep::Beginning { room_id, winning_player_id, board },
                    EndGameEvent::TransactionBegun(res),
                ) => match res {
                    Err(e) => r == (EndGameStep::Done, EndGameAction::Finish(Err(AppError::DatabaseError(e)))),
                    Ok(()) => r == (
                        EndGameStep::EndingRoom { winning_player_id, board },
                        EndGameAction::EndRoom { room_id },
                    ),
                },
                (EndGameStep::EndingRoom { winning_player_id, board }, EndGameEvent::RoomEnded(res)) => match res {
                    Err(e) => r == (EndGameStep::Done, EndGameAction::Finish(Err(AppError::DatabaseError(e)))),
                    Ok(rows) => if rows != 1 {
                        &&& r.0 is Done
                        &&& r.1 matches EndGameAction::Finish(Err(AppError::InternalError(Some(m))))
                            && m@ == "Room does not exist"@
                    } else {
                        r == (
                            EndGameStep::SettingWinner { winning_player_id, board },
                            EndGameAction::SetWinningPlayer { player_id: winning_player_id },
                        )
                    },
                },
                (EndGameStep::SettingWinner { winning_player_id, board }, EndGameEvent::WinnerSet(res)) => match res {
                    Err(e) => r == (EndGameStep::Done, EndGameAction::Finish(Err(AppError::DatabaseError(e)))),
                    Ok(rows) => if rows != 1 {
                        &&& r.0 is Done
                        &&& r.1 matches EndGameAction::Finish(Err(AppError::InternalError(Some(m))))
                            && m@ == "Player does not exist"@
                    } else {
                        r == (EndGameStep::Committing { winning_player_id, board }, EndGameAction::Commit)
                    },
                },
                (EndGameStep::Committing { winning_player_id, board }, EndGameEvent::Committed(res)) => match res {
                    Err(e) => r == (EndGameStep::Done, EndGameAction::Finish(Err(AppError::DatabaseError(e)))),
                    Ok(()) => r == (
                        EndGameStep::Connecting { winning_player_id, board },
                        EndGameAction::AcquireConnection,
                    ),
                },
                (EndGameStep::Connecting { winning_player_id, board }, EndGameEvent::ConnectionAcquired(res)) => match res {
                    Err(e) => r == (EndGameStep::Done, EndGameAction::Finish(Err(AppError::DatabaseError(e)))),
                    Ok(()) => r == (
                        EndGameStep::FindingWinner { board },
                        EndGameAction::FindPlayerById { player_id: winning_player_id },
                    ),
                },
                (EndGameStep::FindingWinner { board }, EndGameEvent::PlayerFound(res)) => match res {
                    Err(e) => r == (EndGameStep::Done, EndGameAction::Finish(Err(AppError::DatabaseError(e)))),
                    Ok(_) => {
                        &&& r.0 is Done
                        &&& r.1 matches EndGameAction::Abort(m) && m@ == NOT_YET_IMPLEMENTED@
                    },
                },
                _ => false,
            },
    {
        match (self, event) {
            (
                EndGameStep::Beginning { room_id, winning_player_id, board },
                EndGameEvent::TransactionBegun(res),
            ) => match res {
                Err(e) => (EndGameStep::Done, EndGameAction::Finish(Err(AppError::DatabaseError(e)))),
                Ok(()) => (
                    EndGameStep::EndingRoom { winning_player_id, board },
                    EndGameAction::EndRoom { room_id },
                ),
            },
            (EndGameStep::EndingRoom { winning_player_id, board }, EndGameEvent::RoomEnded(res)) => match res {
                Err(e) => (EndGameStep::Done, EndGameAction::Finish(Err(AppError::DatabaseError(e)))),
                Ok(rows) => {
                    if rows != 1 {
                        (
                            EndGameStep::Done,
                            EndGameAction::Finish(Err(AppError::InternalError(Some("Room does not exist")))),
                        )
                    } else {
                        (
                            EndGameStep::SettingWinner { winning_player_id, board },
                            EndGameAction::SetWinningPlayer { player_id: winning_player_id },
                        )
                    }
                },
            },
            (EndGameStep::SettingWinner { winning_player_id, board }, EndGameEvent::WinnerSet(res)) => match res {
                Err(e) => (EndGameStep::Done, EndGameAction::Finish(Err(AppError::DatabaseError(e)))),
                Ok(rows) => {
                    if rows != 1 {
                        (
                            EndGameStep::Done,
                            EndGameAction::Finish(
                                Err(AppError::InternalError(Some("Player does not exist"))),
                            ),
                        )
                    } else {
                        (EndGameStep::Committing { winning_player_id, board }, EndGameAction::Commit)
                    }
                },
            },
            (EndGameStep::Committing { winning_player_id, board }, EndGameEvent::Committed(res)) => match res {
                Err(e) => (EndGameStep::Done, EndGameAction::Finish(Err(AppError::DatabaseError(e)))),
                Ok(()) => (
                    EndGameStep::Connecting { winning_player_id, board },
                    EndGameAction::AcquireConnection,
                ),
            },
            (EndGameStep::Connecting { winning_player_id, board }, EndGameEvent::ConnectionAcquired(res)) => match res {
                Err(e) => (EndGameStep::Done, EndGameAction::Finish(Err(AppError::DatabaseError(e)))),
                Ok(()) => (
                    EndGameStep::FindingWinner { board },
                    EndGameAction::FindPlayerById { player_id: winning_player_id },
                ),
            },
            (EndGameStep::FindingWinner { board }, EndGameEvent::PlayerFound(res)) => match res {
                Err(e) => (EndGameStep::Done, EndGameAction::Finish(Err(AppError::DatabaseError(e)))),
                Ok(_) => (EndGameStep::Done, EndGameAction::Abort(NOT_YET_IMPLEMENTED)),
            },
            _ => (EndGameStep::Done, EndGameAction::Finish(Err(AppError::InternalError(None)))),
        }
    }
}

} // verus!
