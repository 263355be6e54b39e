//! The calls into outside crates, each behind a trusted item whose contract
//! says what the crate's source shows of it.
use vstd::prelude::*;

verus! {

/// The hashing outcome of `bcrypt::verify`: `Some(true)` when `password` matches the
/// bcrypt hash `hash`, `Some(false)` when it does not, `None` when `hash` is malformed.
pub uninterp spec fn bcrypt_verify_outcome(password: Seq<char>, hash: Seq<char>) -> Option<bool>;

/// Calls `bcrypt::hash` with `bcrypt::DEFAULT_COST`. The salt is drawn from the operating
/// system, so only what holds of every outcome is stated: a hash is 60 characters long and
/// `bcrypt::verify` accepts the password against it (it recomputes the hash with the cost
/// and salt read back from the string). `None` when the operating system gave no randomness.
#[verifier::external_body]
pub(crate) fn bcrypt_hash(password: &str) -> (r: Option<String>)
    ensures
        r matches Some(h) ==> h@.len() == 60 && bcrypt_verify_outcome(password@, h@) == Some(true),
{
    bcrypt::hash(password, bcrypt::DEFAULT_COST).ok()
}

/// Calls `bcrypt::verify`; its outcome depends on the two arguments alone. An error
/// (a malformed hash) comes back as `None`.
#[verifier::external_body]
pub(crate) fn bcrypt_verify(password: &str, hash: &str) -> (r: Option<bool>)
    ensures
        r == bcrypt_verify_outcome(password@, hash@),
{
    bcrypt::verify(password, hash).ok()
}

#[verifier::external_type_specification]
#[verifier::external_body]
pub struct ExThreadRng(rand::rngs::ThreadRng);

/// Calls `rand::rng`, the generator of the current thread. Nothing is promised of it.
#[verifier::external_body]
pub(crate) fn thread_rng() -> rand::rngs::ThreadRng {
    rand::rng()
}

pub open spec fn is_ascii_alphanumeric(b: u8) -> bool {
    (0x30 <= b <= 0x39) || (0x41 <= b <= 0x5a) || (0x61 <= b <= 0x7a)
}

/// Calls `Rng::sample` with `rand::distr::Alphanumeric`, which returns one byte drawn
/// from `A-Z`, `a-z` and `0-9` (the source picks from that table alone). Which one is chance.
#[verifier::external_body]
pub(crate) fn sample_alphanumeric(rng: &mut rand::rngs::ThreadRng) -> (r: u8)
    ensures
        is_ascii_alphanumeric(r),
{
    rand::Rng::sample(rng, rand::distr::Alphanumeric)
}

pub open spec fn is_nanoid_safe_char(c: char) -> bool {
    c == '_' || c == '-' || ('0' <= c <= '9') || ('a' <= c <= 'z') || ('A' <= c <= 'Z')
}

/// Calls `nanoid::format` with the default generator and the `SAFE` alphabet, as the
/// `nanoid!` macro does. The source returns exactly when the id holds `size` characters,
/// each taken from `SAFE` (`_`, `-`, digits and ASCII letters); which ones is chance.
/// A size of 0 would never return, and the source computes `8 * size`, which overflows past
/// `usize::MAX / 8`; both are left out.
#[verifier::external_body]
pub(crate) fn nanoid_safe(size: usize) -> (r: String)
    requires
        1 <= size <= usize::MAX / 8,
    ensures
        r@.len() == size,
        forall|i: int| 0 <= i < r@.len() ==> is_nanoid_safe_char(#[trigger] r@[i]),
{
    nanoid::format(nanoid::rngs::default, &nanoid::alphabet::SAFE, size)
}

/// The token `jsonwebtoken::encode` builds with the default header (HS256) for the claims
/// `{"id": id, "exp": exp}`, signed with `secret`.
pub uninterp spec fn jwt_hs256_token(id: Seq<char>, exp: int, secret: Seq<char>) -> Seq<char>;

/// Calls `jsonwebtoken::encode` with the default header and an HMAC key made of `secret`.
/// The claims go in as a JSON object of the two fields, in that order (serde_json is built with
/// `preserve_order`, so the object keeps the order of insertion). With an HMAC key and these claims
/// the source has no failing path (the key family matches HS256, the claims always
/// serialize, HMAC signing cannot fail), so the result depends on the arguments alone. The
/// token joins the encoded header, claims and signature with dots, so it is never empty.
#[verifier::external_body]
pub(crate) fn jwt_encode(id: &str, exp: i64, secret: &str) -> (r: String)
    ensures
        r@ == jwt_hs256_token(id@, exp as int, secret@),
        r@.len() > 0,
{
    let mut claims = serde_json::Map::new();
    claims.insert("id".to_string(), serde_json::Value::from(id));
    claims.insert("exp".to_string(), serde_json::Value::from(exp));
    let key = jsonwebtoken::EncodingKey::from_secret(secret.as_bytes());
    jsonwebtoken::encode(&jsonwebtoken::Header::default(), &claims, &key).expect("HMAC signing")
}

/// Calls `jsonwebtoken::decode` with an HMAC key made of `secret` and the default validation
/// (HS256, and an `exp` claim the clock has not passed, with a minute of leeway), and reads
/// the claims `id` (a string) and `exp` (an integer). `None` when the token is refused or a
/// claim is missing or of another type. Whether a token has expired depends on the clock, so
/// only this is stated: a token that `jwt_encode` made with this secret gives back, whenever
/// it is accepted, the id and the expiry it was made with (its claims are the JSON object of
/// those two values, and decoding parses that object back).
#[verifier::external_body]
pub(crate) fn jwt_decode(token: &str, secret: &str) -> (r: Option<(String, i64)>)
    ensures
        forall|id: Seq<char>, exp: int| i64::MIN <= exp <= i64::MAX && #[trigger] jwt_hs256_token(id, exp, secret@) == token@
            ==> (r matches Some((i, e)) ==> i@ == id && e == exp),
{
    let key = jsonwebtoken::DecodingKey::from_secret(secret.as_bytes());
    let validation = jsonwebtoken::Validation::default();
    let data = jsonwebtoken::decode::<serde_json::Map<String, serde_json::Value>>(token, &key, &validation).ok()?;
    let id = data.claims.get("id")?.as_str()?.to_string();
    let exp = data.claims.get("exp")?.as_i64()?;
    Some((id, exp))
}

/// Calls `time::OffsetDateTime::now_utc` and reads its Unix timestamp in seconds. The clock
/// decides the value; it lies in the range of an `OffsetDateTime` (years -9999 to 9999, as
/// the crate is built without its `large-dates` feature), since building one outside that
/// range panics inside the crate rather than returning.
#[verifier::external_body]
pub(crate) fn now_unix_seconds() -> (r: i64)
    ensures
        crate::auth::TIME_MIN <= r <= crate::auth::TIME_MAX,
{
    time::OffsetDateTime::now_utc().unix_timestamp()
}

/// Calls `chrono::Utc::now` and reads it in microseconds since the Unix epoch.
/// The clock decides; nothing is promised of the value.
#[verifier::external_body]
pub(crate) fn now_micros() -> i64 {
    chrono::Utc::now().timestamp_micros()
}

/// What `validator::ValidateUrl::validate_url` answers for a string: whether `url::Url`
/// parses it.
pub uninterp spec fn is_valid_url(s: Seq<char>) -> bool;

/// Calls `validator::ValidateUrl::validate_url` on a string; the answer depends on it alone.
#[verifier::external_body]
pub(crate) fn validate_url(s: &str) -> (r: bool)
    ensures
        r == is_valid_url(s@),
{
    validator::ValidateUrl::validate_url(&s)
}

/// How `serde_json` writes one character inside a string literal: `"` and `\\` behind a
/// backslash, the five control characters that have a short escape by it, any other
/// character below U+0020 as `\u00` and two lowercase hex digits, and every other character
/// as it is.
pub open spec fn json_escape(c: char) -> Seq<char> {
    let hex = seq!['0', '1', '2', '3', '4', '5', '6', '7', '8', '9', 'a', 'b', 'c', 'd', 'e', 'f'];
    if c == '"' {
        seq!['\\', '"']
    } else if c == '\\' {
        seq!['\\', '\\']
    } else if c == '\x08' {
        seq!['\\', 'b']
    } else if c == '\t' {
        seq!['\\', 't']
    } else if c == '\n' {
        seq!['\\', 'n']
    } else if c == '\x0c' {
        seq!['\\', 'f']
    } else if c == '\r' {
        seq!['\\', 'r']
    } else if (c as u32) < 0x20 {
        seq!['\\', 'u', '0', '0', hex[(c as u32) as int / 16], hex[(c as u32) as int % 16]]
    } else {
        seq![c]
    }
}

/// The characters of a string, each written as `json_escape` says.
pub open spec fn json_escaped(s: Seq<char>) -> Seq<char>
    decreases s.len(),
{
    if s.len() == 0 {
        Seq::empty()
    } else {
        json_escaped(s.drop_last()) + json_escape(s.last())
    }
}

/// The JSON string literal `serde_json::to_string` writes for a string: the escaped text in
/// double quotes.
pub open spec fn json_string_of(s: Seq<char>) -> Seq<char> {
    seq!['"'] + json_escaped(s) + seq!['"']
}

/// Calls `serde_json::to_string` on a string, which writes it as `json_string_of` says
/// (`format_escaped_str_contents` and its escape table in the source). For a string the
/// source writes into a `Vec`, which cannot fail, so the `Err` arm is never taken.
#[verifier::external_body]
pub(crate) fn json_quote(s: &str) -> (r: String)
    ensures
        r@ == json_string_of(s@),
{
    match serde_json::to_string(s) {
        Ok(t) => t,
        Err(_) => String::new(),
    }
}

pub open spec fn is_lower_hex(c: char) -> bool {
    ('0' <= c <= '9') || ('a' <= c <= 'f')
}

/// The text of a UUID as `Display` writes it: 32 lowercase hex digits in groups of 8, 4, 4,
/// 4 and 12, joined by `-`.
pub open spec fn is_uuid_text(s: Seq<char>) -> bool {
    &&& s.len() == 36
    &&& s[8] == '-' && s[13] == '-' && s[18] == '-' && s[23] == '-'
    &&& forall|i: int| 0 <= i < 36 && i != 8 && i != 13 && i != 18 && i != 23 ==> is_lower_hex(#[trigger] s[i])
}

/// Calls `uuid::Uuid::new_v4` and writes the UUID with `ToString`, which formats it
/// hyphenated in lowercase. Which UUID is chance (the operating system's generator; the
/// crate panics when that generator fails, which nothing here can rule out).
#[verifier::external_body]
pub(crate) fn uuid_v4_text() -> (r: String)
    ensures
        is_uuid_text(r@),
{
    uuid::Uuid::new_v4().to_string()
}

} // verus!
