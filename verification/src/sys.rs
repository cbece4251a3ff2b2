//! Trusted bindings to outside crates: the MD5 digest that names lock
//! directories, the wall clock, timestamp rendering, and the user's home
//! directory.

use vstd::prelude::*;

verus! {

/// The 32 lowercase hex digits of the MD5 digest of a string's UTF-8 bytes.
/// The digest is a pure function of the input characters.
pub uninterp spec fn md5_hex(s: Seq<char>) -> Seq<char>;

/// RFC 3339 rendering of a Unix timestamp in UTC; a pure function of the
/// timestamp value.
pub uninterp spec fn rfc3339_of(t: int) -> Seq<char>;

/// Relies on md5::compute: the digest depends on the input bytes alone, and
/// its LowerHex rendering prints two hex digits for each of the 16 digest
/// bytes.
#[verifier::external_body]
pub(crate) fn md5_hex_digest(s: &str) -> (r: String)
    ensures
        r@ == md5_hex(s@),
        r@.len() == 32,
{
    format!("{:x}", md5::compute(s.as_bytes()))
}

/// Relies on chrono's Utc::now: seconds since the Unix epoch. The value
/// depends on the wall clock, so nothing is promised of it.
#[verifier::external_body]
pub(crate) fn now_unix() -> i64 {
    chrono::Utc::now().timestamp()
}

/// Relies on chrono's DateTime::from_timestamp and to_rfc3339: for an
/// in-range timestamp the rendering depends on the timestamp alone; an
/// out-of-range timestamp yields nothing.
#[verifier::external_body]
pub(crate) fn rfc3339_utc(t: i64) -> (r: Option<String>)
    ensures
        (r matches Option::Some(s) ==> s@ == rfc3339_of(t as int)),
{
    chrono::DateTime::<chrono::Utc>::from_timestamp(t, 0).map(|d| d.to_rfc3339())
}

/// Relies on dirs::home_dir: the current user's home directory, if the
/// operating system reports one. The value depends on the environment, so
/// nothing is promised of it.
#[verifier::external_body]
pub(crate) fn home_dir_string() -> Option<String> {
    dirs::home_dir().map(|p| p.to_string_lossy().into_owned())
}

} // verus!
