//! Reading the index of a list item from a request path, as a decimal number.

use vstd::prelude::*;
use vstd::string::StringSliceAdditionalSpecFns;

verus! {

/// Why a text is not an index.
#[derive(Debug, PartialEq, Eq, Structural)]
pub enum ParseIndexError {
    /// The text is empty.
    Empty,
    /// The text holds something other than decimal digits, after an
    /// optional leading `+`.
    InvalidDigit,
    /// The number is too large for a `usize`.
    PosOverflow,
}

/// Whether byte `b` is an ASCII decimal digit.
pub open spec fn is_digit(b: u8) -> bool {
    48 <= b <= 57
}

/// Reads the digits of `s` from position `i` on, after the number `acc` read
/// so far: the first byte that is no digit is an error, and so is a number
/// that grows past `usize::MAX`, whichever comes first.
pub open spec fn scan_digits(s: Seq<u8>, i: int, acc: int) -> Result<usize, ParseIndexError>
    decreases s.len() - i,
{
    if i >= s.len() {
        Ok(acc as usize)
    } else if !is_digit(s[i]) {
        Err(ParseIndexError::InvalidDigit)
    } else if acc * 10 + (s[i] - 48) > usize::MAX {
        Err(ParseIndexError::PosOverflow)
    } else {
        scan_digits(s, i + 1, acc * 10 + (s[i] - 48))
    }
}

/// The index that the bytes `s` write: decimal digits after an optional
/// `+`, no larger than `usize::MAX`.
pub open spec fn index_of_text(s: Seq<u8>) -> Result<usize, ParseIndexError> {
    if s.len() == 0 {
        Err(ParseIndexError::Empty)
    } else if s.len() == 1 && (s[0] == 43 || s[0] == 45) {
        Err(ParseIndexError::InvalidDigit)
    } else if s[0] == 43 {
        scan_digits(s, 1, 0)
    } else {
        scan_digits(s, 0, 0)
    }
}

/// Reads `s` as an index, the way `str::parse::<usize>` does.
pub fn parse_index(s: &str) -> (r: Result<usize, ParseIndexError>)
    ensures
        r == index_of_text(s.spec_bytes()),
{
    let b = s.as_bytes();
    let n: usize = b.len();
    if n == 0 {
        return Err(ParseIndexError::Empty);
    }
    if n == 1 && (b[0] == 43 || b[0] == 45) {
        return Err(ParseIndexError::InvalidDigit);
    }
    let mut i: usize = if b[0] == 43 { 1 } else { 0 };
    let mut acc: usize = 0;
    while i < n
        invariant
            n == b@.len(),
            b@ == s.spec_bytes(),
            i <= n,
            index_of_text(b@) == scan_digits(b@, i as int, acc as int),
        decreases n - i,
    {
        let c: u8 = b[i];
        if c < 48 || c > 57 {
            return Err(ParseIndexError::InvalidDigit);
        }
        let d: usize = (c - 48) as usize;
        if acc > (usize::MAX - d) / 10 {
            assert(acc * 10 + d > usize::MAX) by (nonlinear_arith)
                requires
                    acc > (usize::MAX - d) / 10,
                    d <= 9,
            ;
            return Err(ParseIndexError::PosOverflow);
        }
        assert(acc * 10 + d <= usize::MAX) by (nonlinear_arith)
            requires
                acc <= (usize::MAX - d) / 10,
                d <= 9,
        ;
        acc = acc * 10 + d;
        i += 1;
    }
    Ok(acc)
}

} // verus!
