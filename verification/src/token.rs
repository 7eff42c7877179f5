//! How a login token is made: the SHA-256 digest of a secret, the login time
//! written in binary, the account and the password, encoded in base64.

use vstd::prelude::*;
use vstd::utf8::encode_utf8;
use crate::outside::{sha256, sha256_digest, base64_encode, base64_standard, is_base64_of_len};

verus! {

/// The secret that every token is salted with.
pub const AUTH_SECRET: &'static str = "some_secret_key";

/// The binary digits of `n`, most significant first, as ASCII bytes: "0" for
/// zero, and no leading zeros otherwise.
pub open spec fn binary_text(n: nat) -> Seq<u8>
    decreases n,
{
    if n < 2 {
        seq![(48 + n) as u8]
    } else {
        binary_text(n / 2).push((48 + n % 2) as u8)
    }
}

/// The 64-bit two's complement of `t`, read as an unsigned number: how `{:b}`
/// writes a signed integer.
pub open spec fn twos_complement(t: i64) -> nat {
    if t >= 0 {
        t as nat
    } else {
        (t + 0x1_0000_0000_0000_0000) as nat
    }
}

/// The bytes a token is the digest of.
pub open spec fn token_input(secret: Seq<char>, account: Seq<char>, password: Seq<char>, time: i64) -> Seq<u8> {
    encode_utf8(secret) + binary_text(twos_complement(time)) + encode_utf8(account) + encode_utf8(password)
}

/// The token for `account` and `password` at `time`.
pub open spec fn token_for(account: Seq<char>, password: Seq<char>, time: i64) -> Seq<char> {
    base64_standard(sha256_digest(token_input(AUTH_SECRET@, account, password, time)))
}

fn binary_of(n: u64) -> (r: Vec<u8>)
    ensures
        r@ == binary_text(n as nat),
    decreases n,
{
    if n < 2 {
        let d: u8 = if n == 0 { 48 } else { 49 };
        vec![d]
    } else {
        let mut r = binary_of(n / 2);
        let d: u8 = if n % 2 == 0 { 48 } else { 49 };
        r.push(d);
        r
    }
}

/// The binary digits of `time` as `format!("{:b}", time)` writes them.
pub fn binary_digits(time: i64) -> (r: Vec<u8>)
    ensures
        r@ == binary_text(twos_complement(time)),
{
    let n: u64 = if time >= 0 {
        time as u64
    } else {
        let m: i64 = -(time + 1);
        u64::MAX - (m as u64)
    };
    binary_of(n)
}

/// Appends the bytes of `s` to `v`.
fn push_all(v: &mut Vec<u8>, s: &[u8])
    ensures
        final(v)@ == old(v)@ + s@,
{
    let mut i: usize = 0;
    while i < s.len()
        invariant
            i <= s@.len(),
            v@ == old(v)@ + s@.subrange(0, i as int),
        decreases s@.len() - i,
    {
        v.push(s[i]);
        i += 1;
        assert(s@.subrange(0, i as int) == s@.subrange(0, i - 1 as int).push(s@[i - 1]));
    }
    assert(s@.subrange(0, s@.len() as int) == s@);
}

/// Whether `t` has the shape of every token: 44 base64 characters, the
/// last of them the one `=` that pads a 32-byte digest.
pub open spec fn is_token_shape(t: Seq<char>) -> bool {
    &&& t.len() == 44
    &&& t[43] == '='
    &&& forall|i: int| 0 <= i < 43 ==> #[trigger] t[i] != '='
}

/// The token for `account` and `password` at `time`.
pub fn make_token(account: &String, password: &String, time: i64) -> (r: String)
    ensures
        r@ == token_for(account@, password@, time),
        is_token_shape(r@),
{
    let mut data: Vec<u8> = Vec::new();
    push_all(&mut data, AUTH_SECRET.as_bytes());
    let digits = binary_digits(time);
    push_all(&mut data, digits.as_slice());
    push_all(&mut data, account.as_str().as_bytes());
    push_all(&mut data, password.as_str().as_bytes());
    assert(data@ == token_input(AUTH_SECRET@, account@, password@, time));
    let digest = sha256(data.as_slice());
    let r = base64_encode(digest.as_slice());
    proof {
        assert(is_base64_of_len(r@, 32));
        assert forall|i: int| 0 <= i < 43 implies #[trigger] r@[i] != '=' by {
            assert(crate::outside::is_base64_char(r@[i]));
        }
    }
    r
}

} // verus!
