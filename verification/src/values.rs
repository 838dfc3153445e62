//! The scalar value types of the persistence layer: identifiers and
//! timestamps, held as plain values, with the outside calls that generate,
//! parse and format them.

use vstd::prelude::*;

verus! {

/// A 128-bit identifier. The nil identifier is all zeroes.
#[derive(Debug, Clone, Copy, PartialEq, Eq, Structural)]
pub struct Uuid(pub u128);

impl View for Uuid {
    type V = u128;

    open spec fn view(&self) -> u128 {
        self.0
    }
}

impl DeepView for Uuid {
    type V = u128;

    open spec fn deep_view(&self) -> u128 {
        self.0
    }
}

impl Uuid {
    /// The nil identifier.
    pub fn nil() -> (r: Uuid)
        ensures
            r@ == 0,
    {
        Uuid(0)
    }

    /// A freshly generated random identifier; never nil.
    pub fn new_v4() -> (r: Uuid)
        ensures
            r@ != 0,
    {
        Uuid(uuid_new_v4())
    }
}

/// A UTC instant, held as microseconds since the Unix epoch.
#[derive(Debug, Clone, Copy, PartialEq, Eq, Structural)]
pub struct DateTime(pub i64);

impl View for DateTime {
    type V = int;

    open spec fn view(&self) -> int {
        self.0 as int
    }
}

impl DeepView for DateTime {
    type V = int;

    open spec fn deep_view(&self) -> int {
        self.0 as int
    }
}

impl DateTime {
    /// The current instant.
    pub fn now() -> DateTime {
        DateTime(now_micros())
    }
}

/// The hyphenated text form of an identifier, as a function of its value.
pub uninterp spec fn uuid_text_of(u: u128) -> Seq<char>;

/// The identifier a piece of text parses to, if any.
pub uninterp spec fn uuid_from_text(s: Seq<char>) -> Option<u128>;

/// The text form of a timestamp, as a function of its value.
pub uninterp spec fn datetime_text_of(m: i64) -> Seq<char>;

/// The timestamp a piece of text in the form `%Y-%m-%d %H:%M:%S` parses to,
/// if any.
pub uninterp spec fn datetime_from_text(s: Seq<char>) -> Option<i64>;

/// Relies on uuid's `Uuid::new_v4`: a random identifier whose version field
/// is set to 4, so it is never the nil (all-zero) value.
#[verifier::external_body]
fn uuid_new_v4() -> (r: u128)
    ensures
        r != 0,
{
    uuid::Uuid::new_v4().as_u128()
}

/// Relies on uuid's `Display` implementation: the lowercase hyphenated form,
/// 36 characters, a function of the identifier alone. `Uuid::parse_str`
/// accepts exactly this hyphenated encoding of the same sixteen bytes, so
/// the text parses back to the identifier it was formatted from.
#[verifier::external_body]
pub fn uuid_format(u: u128) -> (r: String)
    ensures
        r@ == uuid_text_of(u),
        r@.len() == 36,
        uuid_from_text(r@) == Some(u),
{
    uuid::Uuid::from_u128(u).to_string()
}

/// Relies on uuid's `Uuid::parse_str`: which strings parse, and to what
/// value, depends on the characters alone.
#[verifier::external_body]
pub fn uuid_parse(s: &str) -> (r: Option<u128>)
    ensures
        r == uuid_from_text(s@),
{
    match uuid::Uuid::parse_str(s) {
        Ok(u) => Some(u.as_u128()),
        Err(_) => None,
    }
}

/// Relies on chrono's `Utc::now`: the current wall-clock time, about which
/// nothing can be promised.
#[verifier::external_body]
fn now_micros() -> i64 {
    chrono::Utc::now().timestamp_micros()
}

/// Relies on chrono's `NaiveDateTime::parse_from_str` with the fixed format
/// `%Y-%m-%d %H:%M:%S`, read as UTC: a function of the characters alone.
#[verifier::external_body]
pub fn datetime_parse(s: &str) -> (r: Option<i64>)
    ensures
        r == datetime_from_text(s@),
{
    match chrono::NaiveDateTime::parse_from_str(s, "%Y-%m-%d %H:%M:%S") {
        Ok(dt) => Some(dt.and_utc().timestamp_micros()),
        Err(_) => None,
    }
}

/// Relies on chrono's `DateTime::from_timestamp_micros` and `Display`: a
/// function of the timestamp alone (empty for values outside chrono's
/// representable range).
#[verifier::external_body]
pub fn datetime_format(m: i64) -> (r: String)
    ensures
        r@ == datetime_text_of(m),
{
    match chrono::DateTime::<chrono::Utc>::from_timestamp_micros(m) {
        Some(dt) => dt.to_string(),
        None => String::new(),
    }
}

} // verus!
