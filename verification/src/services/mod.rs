pub mod connect4_engine;
pub mod game_service;
pub mod player_service;
pub mod room_service;
pub mod session_service;

use crate::utils::{Claims, Timestamp};
use vstd::prelude::*;

verus! {

/// How many games a page lists when the request names no limit.
pub const DEFAULT_LIMIT: i32 = 20;

/// A session handed to a player: the claims of its access token, the
/// token pair, and when each token expires.
pub struct SessionDetails {
    pub claims: Claims,
    pub access_token: String,
    pub access_token_expiry: Timestamp,
    pub refresh_token: String,
    pub refresh_token_expiry: Timestamp,
}

} // verus!
