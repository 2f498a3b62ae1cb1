pub mod decimal;
pub mod session_header;

use crate::utils::decimal::push_char;
use chrono::{DateTime, TimeDelta, Utc};
use rand::distr::Alphanumeric;
use rand::rngs::{StdRng, SysRng};
use rand::{RngExt, SeedableRng, TryRng};
use sha2::{Digest, Sha256};
use std::time::{SystemTime, UNIX_EPOCH};
use uuid::{Builder, Uuid};
use vstd::prelude::*;
use vstd::utf8::encode_utf8;

verus! {

// ---------------------------------------------------------------------
// Hashing
// ---------------------------------------------------------------------
/// The SHA-256 digest of `data`.
pub uninterp spec fn sha256(data: Seq<u8>) -> Seq<u8>;

/// `<Sha256 as Digest>::digest` (sha2): the SHA-256 digest of `data`,
/// which is 32 bytes long. What the digest is, is not stated beyond its
/// name and its length.
#[verifier::external_body]
fn sha256_digest(data: &[u8]) -> (r: Vec<u8>)
    ensures
        r@ == sha256(data@),
        r@.len() == 32,
{
    Sha256::digest(data).to_vec()
}

/// The lowercase hexadecimal digit for `d < 16`.
pub open spec fn hex_digit(d: int) -> char {
    if d < 10 {
        ('0' as int + d) as char
    } else {
        ('a' as int + d - 10) as char
    }
}

/// Two lowercase hexadecimal digits per byte, high half first.
pub open spec fn lower_hex(data: Seq<u8>) -> Seq<char>
    decreases data.len(),
{
    if data.len() == 0 {
        Seq::empty()
    } else {
        lower_hex(data.drop_last()) + seq![
            hex_digit(data.last() as int / 16),
            hex_digit(data.last() as int % 16),
        ]
    }
}

pub proof fn lemma_lower_hex_len(data: Seq<u8>)
    ensures
        lower_hex(data).len() == 2 * data.len(),
    decreases data.len(),
{
    if data.len() > 0 {
        lemma_lower_hex_len(data.drop_last());
    }
}

/// `hex::encode` (hex): each byte as two lowercase hexadecimal digits,
/// high half first.
#[verifier::external_body]
fn hex_encode(data: &[u8]) -> (r: String)
    ensures
        r@ == lower_hex(data@),
{
    hex::encode(data)
}

/// The SHA-256 digest of the UTF-8 bytes of `s`, in lowercase
/// hexadecimal: 64 characters.
pub open spec fn sha256_hex(s: Seq<char>) -> Seq<char> {
    lower_hex(sha256(encode_utf8(s)))
}

/// Hashes `s` as the stored form of a secret: SHA-256 over its UTF-8
/// bytes, written in lowercase hexadecimal.
pub fn sha256_hash(s: &str) -> (r: String)
    ensures
        r@ == sha256_hex(s@),
        r@.len() == 64,
{
    let hash = sha256_digest(s.as_bytes());
    proof {
        lemma_lower_hex_len(hash@);
    }
    hex_encode(hash.as_slice())
}

// ---------------------------------------------------------------------
// Invite codes
// ---------------------------------------------------------------------
#[verifier::external_type_specification]
#[verifier::external_body]
pub struct ExStdRng(StdRng);

pub open spec fn is_ascii_alphanumeric(c: char) -> bool {
    ('0' <= c && c <= '9') || ('A' <= c && c <= 'Z') || ('a' <= c && c <= 'z')
}

/// `StdRng::try_from_rng(&mut SysRng)` (rand): a generator seeded from
/// the system's random source, or, where that source fails, the text that
/// its error displays.
#[verifier::external_body]
fn seeded_rng() -> Result<StdRng, String> {
    match StdRng::try_from_rng(&mut SysRng) {
        Ok(rng) => Ok(rng),
        Err(e) => Err(e.to_string()),
    }
}

/// `RngExt::sample(Alphanumeric)` (rand) on a seeded `StdRng`, which
/// never reseeds: one random byte among the ASCII letters and digits.
#[verifier::external_body]
fn sample_alphanumeric(rng: &mut StdRng) -> (r: u8)
    ensures
        is_ascii_alphanumeric(r as char),
{
    rng.sample(Alphanumeric)
}

/// The text of a panic that names what failed, then, after a colon, the
/// error it failed with.
pub open spec fn panic_text(what: Seq<char>, detail: Seq<char>) -> Seq<char> {
    what + seq![':', ' '] + detail
}

/// Whether `m` is a panic text that names `what` as what failed.
pub open spec fn is_panic_text(m: Seq<char>, what: Seq<char>) -> bool {
    exists|detail: Seq<char>| m == panic_text(what, detail)
}

/// The text of a panic that names `what` as what failed, with `detail`.
pub fn with_detail(what: &str, detail: String) -> (r: String)
    ensures
        r@ == panic_text(what@, detail@),
{
    let r = String::from_str(what).concat(": ").concat(detail.as_str());
    proof {
        reveal_strlit(": ");
        assert(r@ == panic_text(what@, detail@));
    }
    r
}

/// What the thread's generator says, before its error, when the system's
/// random source cannot seed it.
pub const RNG_SEED_FAILURE: &'static str = "could not initialize ThreadRng";

/// A random code of `length` ASCII letters and digits, or, where the
/// system's random source fails, the message with which the thread's
/// generator stops.
pub fn generate_invite_code(length: u8) -> (r: Result<String, String>)
    ensures
        r matches Ok(code) ==> code@.len() == length && forall|i: int|
            0 <= i < code@.len() ==> is_ascii_alphanumeric(#[trigger] code@[i]),
        r matches Err(m) ==> is_panic_text(m@, RNG_SEED_FAILURE@),
{
    let mut rng = match seeded_rng() {
        Ok(rng) => rng,
        Err(e) => {
            return Err(with_detail(RNG_SEED_FAILURE, e));
        },
    };
    let mut code = String::new();
    let mut i: u8 = 0;
    while i < length
        invariant
            i <= length,
            code@.len() == i,
            forall|j: int| 0 <= j < code@.len() ==> is_ascii_alphanumeric(#[trigger] code@[j]),
        decreases length - i,
    {
        let b = sample_alphanumeric(&mut rng);
        push_char(&mut code, b as char);
        i += 1;
    }
    Ok(code)
}

// ---------------------------------------------------------------------
// Time
// ---------------------------------------------------------------------
/// The earliest second that a `DateTime<Utc>` of chrono can hold
/// (January 1 of year -262143, that is 262144 BCE, 00:00:00).
pub const MIN_TIMESTAMP: i64 = -8334601228800;

/// The latest second that a `DateTime<Utc>` of chrono can hold
/// (December 31, 262142 CE, 23:59:59).
pub const MAX_TIMESTAMP: i64 = 8210266876799;

/// The largest number of seconds that chrono's `TimeDelta::seconds` takes.
pub const MAX_DELTA_SECONDS: i64 = 9223372036854775;

/// A UTC instant: whole seconds since the Unix epoch and the nanoseconds
/// past them.
#[derive(PartialEq, Eq, Structural, Clone, Copy, Debug)]
pub struct Timestamp {
    pub secs: i64,
    pub nanos: u32,
}

impl Timestamp {
    /// An instant that a `DateTime<Utc>` can hold, without a leap second.
    pub open spec fn wf(self) -> bool {
        &&& MIN_TIMESTAMP <= self.secs <= MAX_TIMESTAMP
        &&& self.nanos < 1_000_000_000
    }
}

/// Whether `t + seconds` is defined: chrono's `TimeDelta::seconds` takes
/// `seconds`, and the sum stays within the range of `DateTime<Utc>`.
pub open spec fn can_add_seconds(t: Timestamp, seconds: i64) -> bool {
    &&& -MAX_DELTA_SECONDS <= seconds <= MAX_DELTA_SECONDS
    &&& MIN_TIMESTAMP <= t.secs + seconds <= MAX_TIMESTAMP
}

#[verifier::external_type_specification]
#[verifier::external_body]
pub struct ExSystemTime(SystemTime);

/// `SystemTime::now` (std): what the system clock reads.
#[verifier::external_body]
fn system_now() -> SystemTime {
    SystemTime::now()
}

/// `SystemTime::duration_since(UNIX_EPOCH)` (std), as whole seconds and
/// the nanoseconds past them (`Duration::as_secs`, `subsec_nanos`); where
/// `t` lies before the epoch, the `Debug` text of the error.
#[verifier::external_body]
fn since_epoch(t: &SystemTime) -> (r: Result<(u64, u32), String>)
    ensures
        r matches Ok((_, nanos)) ==> nanos < 1_000_000_000,
{
    match t.duration_since(UNIX_EPOCH) {
        Ok(d) => Ok((d.as_secs(), d.subsec_nanos())),
        Err(e) => Err(format!("{:?}", e)),
    }
}

/// `DateTime::<Utc>::from_timestamp` (chrono), read back as seconds and
/// nanoseconds: the instant where chrono can hold it, else nothing.
#[verifier::external_body]
fn datetime_from_timestamp(secs: i64, nanos: u32) -> (r: Option<Timestamp>)
    requires
        nanos < 1_000_000_000,
    ensures
        r is Some <==> MIN_TIMESTAMP <= secs <= MAX_TIMESTAMP,
        r matches Some(t) ==> t == (Timestamp { secs, nanos }),
{
    DateTime::<Utc>::from_timestamp(secs, nanos).map(
        |dt| Timestamp { secs: dt.timestamp(), nanos: dt.timestamp_subsec_nanos() },
    )
}

/// What `Utc::now` says, before the clock's error, when the clock reads
/// before 1970.
pub const CLOCK_BEFORE_EPOCH: &'static str = "system time before Unix epoch";

/// The message with which `Utc::now` stops when chrono cannot hold the
/// instant that the clock reads.
pub const CLOCK_OUT_OF_RANGE: &'static str = "called `Option::unwrap()` on a `None` value";

/// Whether `m` is one of the messages with which reading the clock stops.
pub open spec fn is_clock_failure(m: Seq<char>) -> bool {
    is_panic_text(m, CLOCK_BEFORE_EPOCH@) || m == CLOCK_OUT_OF_RANGE@
}

/// The seconds of a clock reading as chrono takes them: cast to `i64`,
/// wrapping above `i64::MAX`.
pub open spec fn clock_seconds(secs: u64) -> int {
    if secs <= i64::MAX {
        secs as int
    } else {
        secs - 0x1_0000_0000_0000_0000
    }
}

/// The current instant, as chrono's `Utc::now` reads it, or the message
/// with which `Utc::now` stops where it cannot: a clock before 1970, or an
/// instant beyond chrono's range. Which instant comes back is not stated.
pub fn utc_now() -> (r: Result<Timestamp, String>)
    ensures
        r matches Ok(t) ==> t.wf(),
        r matches Err(m) ==> is_clock_failure(m@),
{
    let now = system_now();
    let (secs, nanos) = match since_epoch(&now) {
        Ok(d) => d,
        Err(e) => {
            return Err(with_detail(CLOCK_BEFORE_EPOCH, e));
        },
    };
    let wrapped: i64 = secs as i64;
    assert(secs as i64 == clock_seconds(secs)) by (bit_vector);
    match datetime_from_timestamp(wrapped, nanos) {
        Some(t) => Ok(t),
        None => Err(String::from_str(CLOCK_OUT_OF_RANGE)),
    }
}

/// `DateTime<Utc> + TimeDelta::seconds(seconds)` (chrono): the same
/// instant moved by whole seconds; the nanoseconds stay.
#[verifier::external_body]
fn datetime_add_seconds(t: Timestamp, seconds: i64) -> (r: Timestamp)
    requires
        t.wf(),
        can_add_seconds(t, seconds),
    ensures
        r.secs == t.secs + seconds,
        r.nanos == t.nanos,
{
    let dt = DateTime::<Utc>::from_timestamp(t.secs, t.nanos).unwrap() + TimeDelta::seconds(seconds);
    Timestamp { secs: dt.timestamp(), nanos: dt.timestamp_subsec_nanos() }
}

/// The instant `seconds` after `t`.
pub fn add_seconds(t: Timestamp, seconds: i64) -> (r: Timestamp)
    requires
        t.wf(),
        can_add_seconds(t, seconds),
    ensures
        r.wf(),
        r.secs == t.secs + seconds,
        r.nanos == t.nanos,
{
    datetime_add_seconds(t, seconds)
}

// ---------------------------------------------------------------------
// Random tokens
// ---------------------------------------------------------------------
#[verifier::external_type_specification]
#[verifier::external_body]
pub struct ExUuid(Uuid);

/// The sixteen bytes of a UUID.
pub uninterp spec fn uuid_bytes(u: Uuid) -> Seq<u8>;

/// The hyphenated form of sixteen bytes: groups of 4, 2, 2, 2 and 6
/// bytes in lowercase hexadecimal, joined by `-`.
pub open spec fn hyphenated(b: Seq<u8>) -> Seq<char> {
    lower_hex(b.subrange(0, 4)) + seq!['-'] + lower_hex(b.subrange(4, 6)) + seq!['-'] + lower_hex(
        b.subrange(6, 8),
    ) + seq!['-'] + lower_hex(b.subrange(8, 10)) + seq!['-'] + lower_hex(b.subrange(10, 16))
}

/// Whether sixteen bytes carry the marks of a random (version 4, RFC
/// 4122 variant) UUID.
pub open spec fn is_random_uuid(b: Seq<u8>) -> bool {
    &&& b.len() == 16
    &&& 0x40 <= b[6] < 0x50
    &&& 0x80 <= b[8] < 0xC0
}

/// Sixteen bytes with the version nibble set to 4 and the variant bits to
/// those of RFC 4122.
pub open spec fn marked_random(b: Seq<u8>) -> Seq<u8> {
    b.update(6, (b[6] & 0x0f) | 0x40).update(8, (b[8] & 0x3f) | 0x80)
}

/// `TryRng::try_fill_bytes` on `SysRng` (rand, from getrandom): sixteen
/// bytes from the system's random source, or, where it fails, the text
/// that its error displays. The bytes themselves are not stated.
#[verifier::external_body]
fn system_random_bytes() -> Result<[u8; 16], String> {
    let mut bytes = [0u8; 16];
    match SysRng.try_fill_bytes(&mut bytes) {
        Ok(()) => Ok(bytes),
        Err(e) => Err(e.to_string()),
    }
}

/// `Builder::from_random_bytes(bytes).into_uuid()` (uuid): a UUID of the
/// bytes, marked as random (version 4, RFC 4122 variant).
#[verifier::external_body]
fn uuid_from_random_bytes(bytes: [u8; 16]) -> (r: Uuid)
    ensures
        uuid_bytes(r) == marked_random(bytes@),
{
    Builder::from_random_bytes(bytes).into_uuid()
}

/// What `Uuid::new_v4` says, before the error, when the system's random
/// source fails.
pub const UUID_RANDOM_FAILURE: &'static str = "could not retrieve random bytes for uuid";

/// `Uuid::to_string` (uuid, through `Display`): the hyphenated lowercase
/// form of its bytes.
#[verifier::external_body]
fn uuid_to_string(u: &Uuid) -> (r: String)
    ensures
        r@ == hyphenated(uuid_bytes(*u)),
{
    u.to_string()
}

/// A fresh random token: a random UUID in its hyphenated form, or, where
/// the system's random source fails, the message with which
/// `Uuid::new_v4` stops.
pub fn new_random_token() -> (r: Result<String, String>)
    ensures
        r matches Ok(t) ==> (exists|b: Seq<u8>| is_random_uuid(b) && t@ == hyphenated(b))
            && t@.len() == 36,
        r matches Err(m) ==> is_panic_text(m@, UUID_RANDOM_FAILURE@),
{
    let bytes = match system_random_bytes() {
        Ok(b) => b,
        Err(e) => {
            return Err(with_detail(UUID_RANDOM_FAILURE, e));
        },
    };
    let u = uuid_from_random_bytes(bytes);
    let s = uuid_to_string(&u);
    proof {
        let b = uuid_bytes(u);
        let raw = bytes@;
        let x6 = raw[6];
        let x8 = raw[8];
        assert(0x40 <= ((x6 & 0x0f) | 0x40) < 0x50) by (bit_vector);
        assert(0x80 <= ((x8 & 0x3f) | 0x80) < 0xC0) by (bit_vector);
        assert(is_random_uuid(b));
        lemma_lower_hex_len(b.subrange(0, 4));
        lemma_lower_hex_len(b.subrange(4, 6));
        lemma_lower_hex_len(b.subrange(6, 8));
        lemma_lower_hex_len(b.subrange(8, 10));
        lemma_lower_hex_len(b.subrange(10, 16));
    }
    Ok(s)
}

// ---------------------------------------------------------------------
// Access token claims
// ---------------------------------------------------------------------
/// The claims of an access token: the player, the room and the expiry.
pub struct Claims {
    /// The player's id.
    pub sub: String,
    /// The room's id.
    pub rid: String,
    /// The expiry, in seconds since the epoch.
    pub exp: i64,
}

} // verus!
