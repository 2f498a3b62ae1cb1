//! Handing a player a new token pair, revoking the session's earlier
//! refresh tokens.
//!
//! As in the player service, the decisions stand as a state machine:
//! `create_token_pair` starts it and `step` moves it on with the outcome
//! of each action, until the action is `Finish` or `Abort`.
use crate::error::{AppError, AppResult};
use crate::services::player_service::PlayerAction;
use crate::services::SessionDetails;
use crate::utils::decimal::{i64_to_string, parse_i64, parse_i64_text, signed_decimal};
use crate::utils::{
    add_seconds, can_add_seconds, hyphenated, is_random_uuid, new_random_token, sha256_hash,
    sha256_hex, utc_now, is_clock_failure, is_panic_text, Claims, Timestamp, MAX_DELTA_SECONDS, MAX_TIMESTAMP,
    MIN_TIMESTAMP, UUID_RANDOM_FAILURE,
};
use vstd::prelude::*;

verus! {

/// The settings that the service reads from the environment:
/// `JWT_SECRET`, `ACCESS_TOKEN_EXPIRY` and `REFRESH_TOKEN_EXPIRY`, each
/// `None` where the variable is missing.
pub struct TokenSettings {
    pub jwt_secret: Option<String>,
    pub access_token_expiry: Option<String>,
    pub refresh_token_expiry: Option<String>,
}

/// The secret and the two lifetimes in seconds, when every setting is
/// present and both lifetimes are `i64`s in base ten.
pub open spec fn read_settings(s: TokenSettings) -> Option<(Seq<char>, i64, i64)> {
    match (s.jwt_secret, s.access_token_expiry, s.refresh_token_expiry) {
        (Some(secret), Some(access), Some(refresh)) => match (
            parse_i64(access@),
            parse_i64(refresh@),
        ) {
            (Some(a), Some(r)) => Some((secret@, a as i64, r as i64)),
            _ => None,
        },
        _ => None,
    }
}

/// The message with which chrono stops when `t + seconds` is undefined.
pub open spec fn time_overflow_message(t: Timestamp, seconds: i64) -> Seq<char> {
    if !(-MAX_DELTA_SECONDS <= seconds <= MAX_DELTA_SECONDS) {
        "TimeDelta::seconds out of bounds"@
    } else {
        "`DateTime + TimeDelta` overflowed"@
    }
}

/// Whether `later` is `t` moved by `seconds`.
pub open spec fn is_later_by(later: Timestamp, t: Timestamp, seconds: i64) -> bool {
    later.secs == t.secs + seconds && later.nanos == t.nanos
}

/// Claims for `player_id` in `room_id` that expire at `expiry`.
pub open spec fn claims_for(c: Claims, room_id: i64, player_id: i64, expiry: Timestamp) -> bool {
    &&& c.sub@ == signed_decimal(player_id as int)
    &&& c.rid@ == signed_decimal(room_id as int)
    &&& c.exp == expiry.secs
}

/// Whether `r` stops the service with the panic message `message`.
pub open spec fn aborts_with(r: (TokenPairStep, TokenPairAction), message: Seq<char>) -> bool {
    &&& r.0 is Done
    &&& r.1 matches TokenPairAction::Abort(m) && m@ == message
}

/// Whether `r` stops the service with one of the messages with which
/// reading the clock stops.
pub open spec fn aborts_on_clock(r: (TokenPairStep, TokenPairAction)) -> bool {
    &&& r.0 is Done
    &&& r.1 matches TokenPairAction::Abort(m) && is_clock_failure(m@)
}

/// Whether `r` stops the service with the message with which
/// `Uuid::new_v4` stops when the system's random source fails.
pub open spec fn aborts_on_random_source(r: (TokenPairStep, TokenPairAction)) -> bool {
    &&& r.0 is Done
    &&& r.1 matches TokenPairAction::Abort(m) && is_panic_text(m@, UUID_RANDOM_FAILURE@)
}

/// A session whose refresh token is stored, waiting for the transaction
/// to go through.
pub struct PendingSession {
    pub details: SessionDetails,
    pub session_token: String,
    pub session_hash: String,
    pub refresh_token_hash: String,
    pub room_id: i64,
    pub player_id: i64,
}

/// Where the handing out of a token pair stands.
pub enum TokenPairStep {
    /// Waiting for the access token to be signed.
    Signing {
        room_id: i64,
        player_id: i64,
        session_token: String,
        claims: Claims,
        access_token_expiry: Timestamp,
        refresh_seconds: i64,
    },
    Beginning { pending: PendingSession },
    Revoking { pending: PendingSession },
    Storing { pending: PendingSession },
    Committing { pending: PendingSession },
    Done,
}

/// What is to be done next, or the result.
pub enum TokenPairAction {
    /// Sign `claims` with `secret` into a JWT with the default header.
    SignAccessToken { claims: Claims, secret: String },
    BeginTransaction,
    /// Revoke every live refresh token of the session hash.
    RevokeAllBySessionHash { session_hash: String },
    /// Store the refresh token by its hash, under the session's hash.
    CreateRefreshToken {
        token_hash: String,
        session_hash: String,
        room_id: i64,
        player_id: i64,
        expires_at: Timestamp,
    },
    Commit,
    Finish(AppResult<SessionDetails>),
    /// Stop as the service stops: with this panic message.
    Abort(String),
}

/// The outcome of an action.
pub enum TokenPairEvent {
    /// The signed token, or `None` where signing failed.
    AccessTokenSigned(Option<String>),
    TransactionBegun(Result<(), sqlx::Error>),
    Revoked(Result<(), sqlx::Error>),
    RefreshTokenCreated(Result<(), sqlx::Error>),
    Committed(Result<(), sqlx::Error>),
}

impl Claims {
    /// A copy of the claims.
    pub fn duplicate(&self) -> (r: Claims)
        ensures
            r == *self,
    {
        Claims { sub: self.sub.clone(), rid: self.rid.clone(), exp: self.exp }
    }
}

/// Reads the settings, in the order in which the service checks them.
pub fn read_token_settings(settings: &TokenSettings) -> (r: Option<(String, i64, i64)>)
    ensures
        match read_settings(*settings) {
            None => r is None,
            Some((secret, a, b)) => r matches Some((s, x, y)) && s@ == secret && x == a && y == b,
        },
        r matches Some((s, a, b)) ==> (settings.jwt_secret matches Some(j) && s@ == j@),
        r matches Some((s, a, b)) ==> (settings.access_token_expiry matches Some(t) && parse_i64(t@)
            == Some(a as int)),
        r matches Some((s, a, b)) ==> (settings.refresh_token_expiry matches Some(t) && parse_i64(
            t@,
        ) == Some(b as int)),
        r is None <==> (settings.jwt_secret is None || settings.access_token_expiry is None
            || settings.refresh_token_expiry is None || parse_i64(
            settings.access_token_expiry.unwrap()@,
        ) is None || parse_i64(settings.refresh_token_expiry.unwrap()@) is None),
{
    let secret = match &settings.jwt_secret {
        Some(s) => s.clone(),
        None => {
            return None;
        },
    };
    let access = match &settings.access_token_expiry {
        Some(s) => s,
        None => {
            return None;
        },
    };
    let access_seconds = match parse_i64_text(access.as_str()) {
        Some(v) => v,
        None => {
            return None;
        },
    };
    let refresh = match &settings.refresh_token_expiry {
        Some(s) => s,
        None => {
            return None;
        },
    };
    let refresh_seconds = match parse_i64_text(refresh.as_str()) {
        Some(v) => v,
        None => {
            return None;
        },
    };
    Some((secret, access_seconds, refresh_seconds))
}

fn check_add_seconds(t: Timestamp, seconds: i64) -> (r: Option<&'static str>)
    requires
        t.wf(),
    ensures
        r is None <==> can_add_seconds(t, seconds),
        r matches Some(m) ==> m@ == time_overflow_message(t, seconds),
{
    if seconds < -MAX_DELTA_SECONDS || seconds > MAX_DELTA_SECONDS {
        return Some("TimeDelta::seconds out of bounds");
    }
    let sum = t.secs as i128 + seconds as i128;
    if sum < MIN_TIMESTAMP as i128 || sum > MAX_TIMESTAMP as i128 {
        return Some("`DateTime + TimeDelta` overflowed");
    }
    None
}

/// What the service does at instant `now`, with the settings read: the
/// access token expires `access_seconds` after `now`, and its claims
/// name the player and the room.
pub fn begin_token_pair(
    room_id: i64,
    player_id: i64,
    session_token: &str,
    secret: String,
    access_seconds: i64,
    refresh_seconds: i64,
    now: Timestamp,
) -> (r: (TokenPairStep, TokenPairAction))
    requires
        now.wf(),
    ensures
        !can_add_seconds(now, access_seconds) ==> aborts_with(r, time_overflow_message(now, access_seconds)),
        can_add_seconds(now, access_seconds) ==> {
            &&& r.0 matches TokenPairStep::Signing {
                room_id: rid,
                player_id: pid,
                session_token: st,
                claims,
                access_token_expiry,
                refresh_seconds: rs,
            }
            &&& rid == room_id && pid == player_id && st@ == session_token@ && rs == refresh_seconds
            &&& is_later_by(access_token_expiry, now, access_seconds)
            &&& claims_for(claims, room_id, player_id, access_token_expiry)
            &&& r.1 == (TokenPairAction::SignAccessToken { claims, secret })
        },
{
    if let Some(m) = check_add_seconds(now, access_seconds) {
        return (TokenPairStep::Done, TokenPairAction::Abort(String::from_str(m)));
    }
    let access_token_expiry = add_seconds(now, access_seconds);
    let claims = Claims {
        sub: i64_to_string(player_id),
        rid: i64_to_string(room_id),
        exp: access_token_expiry.secs,
    };
    let signing = claims.duplicate();
    (
        TokenPairStep::Signing {
            room_id,
            player_id,
            session_token: session_token.to_owned(),
            claims,
            access_token_expiry,
            refresh_seconds,
        },
        TokenPairAction::SignAccessToken { claims: signing, secret },
    )
}

/// Starts handing player `player_id` of room `room_id` a token pair for
/// the session `session_token`. Missing or unreadable settings end it
/// with `InternalError(None)`; otherwise the clock is read and the access
/// token's claims go to be signed, as `begin_token_pair` says for the
/// instant read.
pub fn create_token_pair(
    settings: &TokenSettings,
    room_id: i64,
    player_id: i64,
    session_token: &str,
) -> (r: (TokenPairStep, TokenPairAction))
    ensures
        r.0.stores_its_token(),
        r.1 matches TokenPairAction::SignAccessToken { secret, .. } ==> (settings.jwt_secret matches Some(
            j,
        ) && secret@ == j@),
        r.0 matches TokenPairStep::Signing { refresh_seconds, .. } ==> (
        settings.refresh_token_expiry matches Some(t) && parse_i64(t@) == Some(refresh_seconds as int)),
        read_settings(*settings) is None ==> r == (
            TokenPairStep::Done,
            TokenPairAction::Finish(Err(AppError::InternalError(None))),
        ),
        read_settings(*settings) matches Some((secret, a, b)) ==> aborts_on_clock(r) || exists|
            now: Timestamp,
        |
            now.wf() && {
                &&& !can_add_seconds(now, a) ==> aborts_with(r, time_overflow_message(now, a))
                &&& can_add_seconds(now, a) ==> {
                    &&& r.0 matches TokenPairStep::Signing {
                        room_id: rid,
                        player_id: pid,
                        session_token: st,
                        claims,
                        access_token_expiry,
                        refresh_seconds: rs,
                    }
                    &&& rid == room_id && pid == player_id && st@ == session_token@ && rs == b
                    &&& is_later_by(access_token_expiry, now, a)
                    &&& claims_for(claims, room_id, player_id, access_token_expiry)
                    &&& r.1 matches TokenPairAction::SignAccessToken { claims: c, secret: s }
                    &&& c == claims && s@ == secret
                }
            },
{
    match read_token_settings(settings) {
        None => (TokenPairStep::Done, TokenPairAction::Finish(Err(AppError::InternalError(None)))),
        Some((secret, access_seconds, refresh_seconds)) => {
            let now = match utc_now() {
                Ok(now) => now,
                Err(m) => {
                    return (TokenPairStep::Done, TokenPairAction::Abort(m));
                },
            };
            begin_token_pair(
                room_id,
                player_id,
                session_token,
                secret,
                access_seconds,
                refresh_seconds,
                now,
            )
        },
    }
}

/// What the service does once the access token is signed, at instant
/// `now` and with the fresh refresh token `refresh_token`: the session
/// and the refresh token are hashed, the refresh token expires
/// `refresh_seconds` after `now`, and a transaction is opened.
pub fn continue_after_signing(
    room_id: i64,
    player_id: i64,
    session_token: String,
    claims: Claims,
    access_token: String,
    access_token_expiry: Timestamp,
    refresh_seconds: i64,
    now: Timestamp,
    refresh_token: String,
) -> (r: (TokenPairStep, TokenPairAction))
    requires
        now.wf(),
    ensures
        !can_add_seconds(now, refresh_seconds) ==> aborts_with(r, time_overflow_message(now, refresh_seconds)),
        can_add_seconds(now, refresh_seconds) ==> {
            &&& r.0 matches TokenPairStep::Beginning { pending }
            &&& pending.session_hash@ == sha256_hex(session_token@)
            &&& pending.session_token == session_token
            &&& pending.refresh_token_hash@ == sha256_hex(refresh_token@)
            &&& pending.room_id == room_id && pending.player_id == player_id
            &&& pending.details.claims == claims
            &&& pending.details.access_token == access_token
            &&& pending.details.access_token_expiry == access_token_expiry
            &&& pending.details.refresh_token == refresh_token
            &&& is_later_by(pending.details.refresh_token_expiry, now, refresh_seconds)
            &&& r.1 is BeginTransaction
        },
{
    let session_hash = sha256_hash(session_token.as_str());
    let refresh_token_hash = sha256_hash(refresh_token.as_str());
    if let Some(m) = check_add_seconds(now, refresh_seconds) {
        return (TokenPairStep::Done, TokenPairAction::Abort(String::from_str(m)));
    }
    let refresh_token_expiry = add_seconds(now, refresh_seconds);
    let details = SessionDetails {
        claims,
        access_token,
        access_token_expiry,
        refresh_token,
        refresh_token_expiry,
    };
    (
        TokenPairStep::Beginning {
            pending: PendingSession {
                details,
                session_token,
                session_hash,
                refresh_token_hash,
                room_id,
                player_id,
            },
        },
        TokenPairAction::BeginTransaction,
    )
}

impl PendingSession {
    /// The stored hash is the hash of the refresh token handed out, and
    /// the session hash is the hash of the session's token.
    pub open spec fn stores_its_token(&self) -> bool {
        &&& self.refresh_token_hash@ == sha256_hex(self.details.refresh_token@)
        &&& self.session_hash@ == sha256_hex(self.session_token@)
    }
}

impl TokenPairStep {
    /// In every state of the service, the refresh token that will be
    /// stored is the hash of the refresh token that will be handed out, and
    /// the session is named by the hash of its token.
    pub open spec fn stores_its_token(&self) -> bool {
        match *self {
            TokenPairStep::Beginning { pending } => pending.stores_its_token(),
            TokenPairStep::Revoking { pending } => pending.stores_its_token(),
            TokenPairStep::Storing { pending } => pending.stores_its_token(),
            TokenPairStep::Committing { pending } => pending.stores_its_token(),
            _ => true,
        }
    }

    /// Whether `event` answers the action that led to this state.
    pub open spec fn expects(&self, event: &TokenPairEvent) -> bool {
        match (*self, *event) {
            (TokenPairStep::Signing { .. }, TokenPairEvent::AccessTokenSigned(_)) => true,
            (TokenPairStep::Beginning { .. }, TokenPairEvent::TransactionBegun(_)) => true,
            (TokenPairStep::Revoking { .. }, TokenPairEvent::Revoked(_)) => true,
            (TokenPairStep::Storing { .. }, TokenPairEvent::RefreshTokenCreated(_)) => true,
            (TokenPairStep::Committing { .. }, TokenPairEvent::Committed(_)) => true,
            _ => false,
        }
    }

    /// `expects`, for the code that runs the machine.
    pub fn accepts(&self, event: &TokenPairEvent) -> (r: bool)
        ensures
            r == self.expects(event),
    {
        match (self, event) {
            (TokenPairStep::Signing { .. }, TokenPairEvent::AccessTokenSigned(_)) => true,
            (TokenPairStep::Beginning { .. }, TokenPairEvent::TransactionBegun(_)) => true,
            (TokenPairStep::Revoking { .. }, TokenPairEvent::Revoked(_)) => true,
            (TokenPairStep::Storing { .. }, TokenPairEvent::RefreshTokenCreated(_)) => true,
            (TokenPairStep::Committing { .. }, TokenPairEvent::Committed(_)) => true,
            _ => false,
        }
    }

    /// The next state and action. A failed signing ends the service with
    /// `InternalError(None)`, a database error with `DatabaseError`. Once
    /// signed, the clock is read again and a random refresh token drawn,
    /// as `continue_after_signing` says for the instant and the token;
    /// then the session's earlier refresh tokens are revoked before the
    /// new one is stored, and the transaction is committed.
    pub fn step(self, event: TokenPairEvent) -> (r: (TokenPairStep, TokenPairAction))
        requires
            self.expects(&event),
        ensures
            self.stores_its_token() ==> r.0.stores_its_token(),
            self.stores_its_token() ==> (r.1 matches TokenPairAction::CreateRefreshToken {
                token_hash,
                session_hash,
                ..
            } ==> r.0 matches TokenPairStep::Storing { pending } && token_hash@ == sha256_hex(
                pending.details.refresh_token@,
            ) && session_hash@ == sha256_hex(pending.session_token@)),
            self.stores_its_token() ==> (r.1 matches TokenPairAction::RevokeAllBySessionHash {
                session_hash,
            } ==> r.0 matches TokenPairStep::Revoking { pending } && session_hash@ == sha256_hex(
                pending.session_token@,
            )),
            match (self, event) {
                (
                    TokenPairStep::Signing {
                        room_id,
                        player_id,
                        session_token,
                        claims,
                        access_token_expiry,
                        refresh_seconds,
                    },
                    TokenPairEvent::AccessTokenSigned(signed),
                ) => match signed {
                    None => r == (
                        TokenPairStep::Done,
                        TokenPairAction::Finish(Err(AppError::InternalError(None))),
                    ),
                    Some(access_token) => aborts_on_random_source(r) || aborts_on_clock(r)
                        || exists|now: Timestamp, b: Seq<u8>|
                        #![trigger now.wf(), is_random_uuid(b)]
                        now.wf() && is_random_uuid(b) && {
                            &&& !can_add_seconds(now, refresh_seconds) ==> aborts_with(
                                r,
                                time_overflow_message(now, refresh_seconds),
                            )
                            &&& can_add_seconds(now, refresh_seconds) ==> {
                                &&& r.0 matches TokenPairStep::Beginning { pending }
                                &&& pending.session_hash@ == sha256_hex(session_token@)
                                &&& pending.session_token == session_token
                                &&& pending.refresh_token_hash@ == sha256_hex(hyphenated(b))
                                &&& pending.room_id == room_id && pending.player_id == player_id
                                &&& pending.details.claims == claims
                                &&& pending.details.access_token == access_token
                                &&& pending.details.access_token_expiry == access_token_expiry
                                &&& pending.details.refresh_token@ == hyphenated(b)
                                &&& is_later_by(
                                    pending.details.refresh_token_expiry,
                                    now,
                                    refresh_seconds,
                                )
                                &&& r.1 is BeginTransaction
                            }
                        },
                },
                (TokenPairStep::Beginning { pending }, TokenPairEvent::TransactionBegun(res)) => match res {
                    Err(e) => r == (TokenPairStep::Done, TokenPairAction::Finish(Err(AppError::DatabaseError(e)))),
                    Ok(()) => r == (
                        TokenPairStep::Revoking { pending },
                        TokenPairAction::RevokeAllBySessionHash { session_hash: pending.session_hash },
                    ),
                },
                (TokenPairStep::Revoking { pending }, TokenPairEvent::Revoked(res)) => match res {
                    Err(e) => r == (TokenPairStep::Done, TokenPairAction::Finish(Err(AppError::DatabaseError(e)))),
                    Ok(()) => r == (
                        TokenPairStep::Storing { pending },
                        TokenPairAction::CreateRefreshToken {
                            token_hash: pending.refresh_token_hash,
                            session_hash: pending.session_hash,
                            room_id: pending.room_id,
                            player_id: pending.player_id,
                            expires_at: pending.details.refresh_token_expiry,
                        },
                    ),
                },
                (TokenPairStep::Storing { pending }, TokenPairEvent::RefreshTokenCreated(res)) => match res {
                    Err(e) => r == (TokenPairStep::Done, TokenPairAction::Finish(Err(AppError::DatabaseError(e)))),
                    Ok(()) => r == (TokenPairStep::Committing { pending }, TokenPairAction::Commit),
                },
                (TokenPairStep::Committing { pending }, TokenPairEvent::Committed(res)) => match res {
                    Err(e) => r == (TokenPairStep::Done, TokenPairAction::Finish(Err(AppError::DatabaseError(e)))),
                    Ok(()) => r == (TokenPairStep::Done, TokenPairAction::Finish(Ok(pending.details))),
                },
                _ => false,
            },
    {
        match (self, event) {
            (
                TokenPairStep::Signing {
                    room_id,
                    player_id,
                    session_token,
                    claims,
                    access_token_expiry,
                    refresh_seconds,
                },
                TokenPairEvent::AccessTokenSigned(signed),
            ) => match signed {
                None => (
                    TokenPairStep::Done,
                    TokenPairAction::Finish(Err(AppError::InternalError(None))),
                ),
                Some(access_token) => {
                    let refresh_token = match new_random_token() {
                        Ok(token) => token,
                        Err(m) => {
                            return (TokenPairStep::Done, TokenPairAction::Abort(m));
                        },
                    };
                    let now = match utc_now() {
                        Ok(now) => now,
                        Err(m) => {
                            return (TokenPairStep::Done, TokenPairAction::Abort(m));
                        },
                    };
                    continue_after_signing(
                        room_id,
                        player_id,
                        session_token,
                        claims,
                        access_token,
                        access_token_expiry,
                        refresh_seconds,
                        now,
                        refresh_token,
                    )
                },
            },
            (TokenPairStep::Beginning { pending }, TokenPairEvent::TransactionBegun(res)) => match res {
                Err(e) => (TokenPairStep::Done, TokenPairAction::Finish(Err(AppError::DatabaseError(e)))),
                Ok(()) => {
                    let session_hash = pending.session_hash.clone();
                    (
                        TokenPairStep::Revoking { pending },
                        TokenPairAction::RevokeAllBySessionHash { session_hash },
                    )
                },
            },
            (TokenPairStep::Revoking { pending }, TokenPairEvent::Revoked(res)) => match res {
                Err(e) => (TokenPairStep::Done, TokenPairAction::Finish(Err(AppError::DatabaseError(e)))),
                Ok(()) => {
                    let action = TokenPairAction::CreateRefreshToken {
                        token_hash: pending.refresh_token_hash.clone(),
                        session_hash: pending.session_hash.clone(),
                        room_id: pending.room_id,
                        player_id: pending.player_id,
                        expires_at: pending.details.refresh_token_expiry,
                    };
                    (TokenPairStep::Storing { pending }, action)
                },
            },
            (TokenPairStep::Storing { pending }, TokenPairEvent::RefreshTokenCreated(res)) => match res {
                Err(e) => (TokenPairStep::Done, TokenPairAction::Finish(Err(AppError::DatabaseError(e)))),
                Ok(()) => (TokenPairStep::Committing { pending }, TokenPairAction::Commit),
            },
            (TokenPairStep::Committing { pending }, TokenPairEvent::Committed(res)) => match res {
                Err(e) => (TokenPairStep::Done, TokenPairAction::Finish(Err(AppError::DatabaseError(e)))),
                Ok(()) => (TokenPairStep::Done, TokenPairAction::Finish(Ok(pending.details))),
            },
            _ => (TokenPairStep::Done, TokenPairAction::Finish(Err(AppError::InternalError(None)))),
        }
    }
}

/// A refresh token stored for a session is reached by the revocation that
/// any later token pair for the same session token makes: both name the
/// session by the same hash.
pub proof fn later_pair_revokes_stored_token(
    stored: TokenPairAction,
    revoking: TokenPairAction,
    session_token: Seq<char>,
)
    requires
        stored matches TokenPairAction::CreateRefreshToken { session_hash, .. } && session_hash@
            == sha256_hex(session_token),
        revoking matches TokenPairAction::RevokeAllBySessionHash { session_hash } && session_hash@
            == sha256_hex(session_token),
    ensures
        stored->CreateRefreshToken_session_hash@ == revoking->RevokeAllBySessionHash_session_hash@,
{
}

/// A later lookup of the same session in the same room, as the player
/// service starts it, asks for the session hash and the room under which
/// the refresh token was stored, so it meets the stored row and its player.
pub proof fn later_lookup_meets_stored_token(
    stored: TokenPairAction,
    lookup: PlayerAction,
    session_token: Seq<char>,
)
    requires
        stored matches TokenPairAction::CreateRefreshToken { session_hash, .. } && session_hash@
            == sha256_hex(session_token),
        lookup matches PlayerAction::FindPlayerId { session_hash, room_id } && session_hash@
            == sha256_hex(session_token) && room_id == stored->CreateRefreshToken_room_id,
    ensures
        stored->CreateRefreshToken_session_hash@ == lookup->FindPlayerId_session_hash@,
        stored->CreateRefreshToken_room_id == lookup->FindPlayerId_room_id,
{
}

/// The settings are read field by field: the secret is the `JWT_SECRET`
/// text as it stands, and the two lifetimes are the base-ten values of the
/// `ACCESS_TOKEN_EXPIRY` and `REFRESH_TOKEN_EXPIRY` texts; where a setting
/// is missing or a lifetime is not an `i64` in base ten, nothing is read.
pub proof fn settings_are_read_field_by_field(s: TokenSettings)
    ensures
        read_settings(s) matches Some((secret, a, b)) ==> {
            &&& s.jwt_secret matches Some(j) && j@ == secret
            &&& s.access_token_expiry matches Some(t) && parse_i64(t@) == Some(a as int)
            &&& s.refresh_token_expiry matches Some(t) && parse_i64(t@) == Some(b as int)
        },
        read_settings(s) is None <==> (s.jwt_secret is None || s.access_token_expiry is None
            || s.refresh_token_expiry is None || parse_i64(s.access_token_expiry.unwrap()@) is None
            || parse_i64(s.refresh_token_expiry.unwrap()@) is None),
{
}

} // verus!
