//! The calls into the hashing, encoding and clock crates, with what this
//! library takes as given about each.

use vstd::prelude::*;
use sha2::Digest;

verus! {

/// The SHA-256 digest of `data`.
pub uninterp spec fn sha256_digest(data: Seq<u8>) -> Seq<u8>;

/// The standard base64 encoding (with `=` padding) of `data`.
pub uninterp spec fn base64_standard(data: Seq<u8>) -> Seq<char>;

/// The number of `=` that pad the base64 encoding of `n` bytes.
pub open spec fn base64_pad_len(n: nat) -> nat {
    ((3 - n % 3) % 3) as nat
}

/// Whether `c` is one of the 64 characters of the standard base64 alphabet.
pub open spec fn is_base64_char(c: char) -> bool {
    ('A' <= c <= 'Z') || ('a' <= c <= 'z') || ('0' <= c <= '9') || c == '+' || c == '/'
}

/// Whether `e` has the shape of a padded base64 encoding of `n` bytes: four
/// characters for every three bytes or part of them, alphabet characters
/// first, then the padding.
pub open spec fn is_base64_of_len(e: Seq<char>, n: nat) -> bool {
    &&& e.len() == 4 * ((n + 2) / 3)
    &&& forall|i: int| 0 <= i < e.len() - base64_pad_len(n) ==> is_base64_char(#[trigger] e[i])
    &&& forall|i: int| e.len() - base64_pad_len(n) <= i < e.len() ==> #[trigger] e[i] == '='
}

/// Whether `c` is an ASCII decimal digit.
pub open spec fn is_digit_char(c: char) -> bool {
    '0' <= c <= '9'
}

/// The number two ASCII digits write.
pub open spec fn two_digits(a: char, b: char) -> int {
    (a as int - 48) * 10 + (b as int - 48)
}

/// Whether `y` is how `%F` writes a year: four digits for the years 0 to
/// 9999, a sign and at least four digits for the others.
pub open spec fn is_year_text(y: Seq<char>) -> bool {
    ||| y.len() == 4 && forall|i: int| 0 <= i < 4 ==> is_digit_char(#[trigger] y[i])
    ||| y.len() >= 5 && (y[0] == '+' || y[0] == '-')
        && forall|i: int| 1 <= i < y.len() ==> is_digit_char(#[trigger] y[i])
}

/// Whether `s` is a date as `%F` writes it: year, `-`, two-digit month from
/// 01 to 12, `-`, two-digit day from 01 to 31.
pub open spec fn is_date_text(s: Seq<char>) -> bool {
    let n = s.len();
    &&& n >= 10
    &&& is_year_text(s.subrange(0, n - 6))
    &&& s[n - 6] == '-'
    &&& is_digit_char(s[n - 5]) && is_digit_char(s[n - 4])
    &&& 1 <= two_digits(s[n - 5], s[n - 4]) <= 12
    &&& s[n - 3] == '-'
    &&& is_digit_char(s[n - 2]) && is_digit_char(s[n - 1])
    &&& 1 <= two_digits(s[n - 2], s[n - 1]) <= 31
}

/// Calls `sha2::Sha256::digest` on `data`. Claimed: the result is the
/// SHA-256 digest of `data`, a function of `data` alone, and it is 32 bytes
/// long (the `OutputSize` of `Sha256`). Feeding the same bytes through several
/// calls of `input` gives the same digest as one call on their concatenation,
/// as the `Digest` trait documents.
#[verifier::external_body]
pub(crate) fn sha256(data: &[u8]) -> (r: Vec<u8>)
    ensures
        r@ == sha256_digest(data@),
        r@.len() == 32,
{
    sha2::Sha256::digest(data).to_vec()
}

/// Calls `base64::encode` on `data`. Claimed: the result is the standard
/// base64 encoding of `data`, a function of `data` alone, and it has the
/// length `encoded_size` gives with padding, alphabet characters followed by
/// the `=` that `add_padding` writes. The crate panics
/// only when the length of the encoding overflows a `usize`, which the
/// bound on the input excludes.
#[verifier::external_body]
pub(crate) fn base64_encode(data: &[u8]) -> (r: String)
    requires
        data@.len() <= usize::MAX / 2,
    ensures
        r@ == base64_standard(data@),
        is_base64_of_len(r@, data@.len()),
{
    base64::encode(data)
}

/// Calls `chrono::Utc::now` and `timestamp`: the number of seconds since the
/// Unix epoch, read from the system clock. Nothing is claimed of the value.
#[verifier::external_body]
pub(crate) fn now_timestamp() -> i64 {
    chrono::Utc::now().timestamp()
}

/// Calls `chrono::Local::today` and formats it with `"%F"`: today's date in
/// the machine's time zone. Claimed: the text has the shape `%F` writes (the
/// year as `write_year` pads it, then two-digit month and day); which date it
/// is, is not claimed.
#[verifier::external_body]
#[allow(deprecated)]
pub(crate) fn today_text() -> (r: String)
    ensures
        is_date_text(r@),
{
    chrono::Local::today().format("%F").to_string()
}

} // verus!
