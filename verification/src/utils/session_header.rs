//! The `x-session-token` request header.
use axum::http::HeaderValue;
use axum_extra::headers::Error as HeaderError;
use vstd::prelude::*;
use vstd::utf8::{encode_utf8, is_ascii_chars, is_ascii_chars_encode_utf8};

verus! {

#[verifier::external_type_specification]
#[verifier::external_body]
pub struct ExHeaderValue(HeaderValue);

#[verifier::external_type_specification]
#[verifier::external_body]
pub struct ExHeaderError(HeaderError);

/// The name of the header that carries the session token.
pub const SESSION_TOKEN_HEADER: &'static str = "x-session-token";

/// The bytes of a header value.
pub uninterp spec fn header_value_bytes(v: HeaderValue) -> Seq<u8>;

/// A byte that `HeaderValue::to_str` accepts: visible ASCII or a tab.
pub open spec fn is_visible_ascii(b: u8) -> bool {
    (32 <= b && b < 127) || b == 9
}

/// A byte that a header value may hold: anything but a control
/// character other than tab.
pub open spec fn is_header_value_byte(b: u8) -> bool {
    (32 <= b && b != 127) || b == 9
}

/// The characters that ASCII bytes stand for.
pub open spec fn ascii_chars(bytes: Seq<u8>) -> Seq<char> {
    bytes.map_values(|b: u8| b as char)
}

/// `HeaderValue::to_str` (http): the value as text when every byte is
/// visible ASCII or a tab, else nothing.
#[verifier::external_body]
fn header_value_to_str(v: &HeaderValue) -> (r: Option<&str>)
    ensures
        r is Some <==> (forall|i: int|
            0 <= i < header_value_bytes(*v).len() ==> is_visible_ascii(
                #[trigger] header_value_bytes(*v)[i],
            )),
        r matches Some(s) ==> s@ == ascii_chars(header_value_bytes(*v)),
{
    v.to_str().ok()
}

/// `HeaderValue::try_from(&String)` (http): a header value holding the
/// UTF-8 bytes of `s`, which all are header value bytes.
#[verifier::external_body]
fn header_value_from_string(s: &String) -> (r: HeaderValue)
    requires
        forall|i: int|
            0 <= i < encode_utf8(s@).len() ==> is_header_value_byte(
                #[trigger] encode_utf8(s@)[i],
            ),
    ensures
        header_value_bytes(r) == encode_utf8(s@),
{
    HeaderValue::try_from(s).unwrap()
}

/// `headers::Error::invalid` (headers-core, through axum-extra).
#[verifier::external_body]
fn invalid_header() -> HeaderError {
    HeaderError::invalid()
}

/// The session token that a client sends in the `x-session-token` header.
pub struct SessionToken(pub String);

impl SessionToken {
    /// Reads the token from the header's first value: there must be one,
    /// and it must be visible ASCII (or tabs).
    pub fn decode(first: Option<&HeaderValue>) -> (r: Result<SessionToken, HeaderError>)
        ensures
            first is None ==> r is Err,
            first matches Some(v) ==> (r is Ok <==> forall|i: int|
                0 <= i < header_value_bytes(*v).len() ==> is_visible_ascii(
                    #[trigger] header_value_bytes(*v)[i],
                )),
            first matches Some(v) ==> (r matches Ok(t) ==> t.0@ == ascii_chars(
                header_value_bytes(*v),
            )),
    {
        let value = match first {
            Some(v) => v,
            None => {
                return Err(invalid_header());
            },
        };
        let token = match header_value_to_str(value) {
            Some(t) => t,
            None => {
                return Err(invalid_header());
            },
        };
        Ok(SessionToken(token.to_owned()))
    }

    /// Whether the token can be sent as a header value: no control
    /// character other than tab among its bytes.
    pub fn is_encodable(&self) -> (r: bool)
        ensures
            r == forall|i: int|
                0 <= i < encode_utf8(self.0@).len() ==> is_header_value_byte(
                    #[trigger] encode_utf8(self.0@)[i],
                ),
    {
        let bytes = self.0.as_str().as_bytes();
        let mut i: usize = 0;
        while i < bytes.len()
            invariant
                i <= bytes@.len(),
                bytes@ == encode_utf8(self.0@),
                forall|j: int| 0 <= j < i ==> is_header_value_byte(#[trigger] bytes@[j]),
            decreases bytes@.len() - i,
        {
            let b = bytes[i];
            if !((32 <= b && b != 127) || b == 9) {
                return false;
            }
            i += 1;
        }
        true
    }

    /// The header value that carries the token.
    pub fn encode(&self) -> (r: HeaderValue)
        requires
            forall|i: int|
                0 <= i < encode_utf8(self.0@).len() ==> is_header_value_byte(
                    #[trigger] encode_utf8(self.0@)[i],
                ),
        ensures
            header_value_bytes(r) == encode_utf8(self.0@),
    {
        header_value_from_string(&self.0)
    }
}

/// A token of visible ASCII characters (or tabs) can be sent as a header
/// value, and the value sent reads back as the same token.
pub proof fn visible_token_survives_header(token: Seq<char>)
    requires
        forall|i: int|
            0 <= i < token.len() ==> (' ' <= #[trigger] token[i] <= '~' || token[i] == '\t'),
    ensures
        forall|i: int|
            0 <= i < encode_utf8(token).len() ==> is_header_value_byte(
                #[trigger] encode_utf8(token)[i],
            ),
        forall|i: int|
            0 <= i < encode_utf8(token).len() ==> is_visible_ascii(#[trigger] encode_utf8(token)[i]),
        ascii_chars(encode_utf8(token)) == token,
{
    assert(is_ascii_chars(token));
    is_ascii_chars_encode_utf8(token);
    assert(ascii_chars(encode_utf8(token)) =~= token);
}

} // verus!
