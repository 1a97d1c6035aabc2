//! The format of token addresses.
//!
//! Two formats are known: the hexadecimal one of Ethereum and the base-58 one
//! of Solana. The check is made by `regex` with one pattern for each.

use vstd::prelude::*;
use regex::Regex;

verus! {

/// The pattern of an Ethereum address.
pub const ETHEREUM_PATTERN: &'static str = "^0x[a-fA-F0-9]{40}$";

/// The pattern of a Solana address.
pub const SOLANA_PATTERN: &'static str = "^[1-9A-HJ-NP-Za-km-z]{32,44}$";

/// `regex::Error`, the error of a pattern that does not compile.
#[verifier::external_type_specification]
#[verifier::external_body]
pub struct ExRegexError(regex::Error);

/// True for the hexadecimal digits, in either case.
pub open spec fn is_hex(c: char) -> bool {
    ('0' <= c && c <= '9') || ('a' <= c && c <= 'f') || ('A' <= c && c <= 'F')
}

/// True for the characters of the base-58 alphabet: the digits and letters
/// without `0`, `O`, `I` and `l`.
pub open spec fn is_base58(c: char) -> bool {
    ('1' <= c && c <= '9') || ('A' <= c && c <= 'H') || ('J' <= c && c <= 'N') || ('P' <= c && c
        <= 'Z') || ('a' <= c && c <= 'k') || ('m' <= c && c <= 'z')
}

/// True for `0x` followed by exactly forty hexadecimal digits.
pub open spec fn is_ethereum_address(s: Seq<char>) -> bool {
    &&& s.len() == 42
    &&& s[0] == '0'
    &&& s[1] == 'x'
    &&& forall|i: int| 2 <= i < 42 ==> is_hex(#[trigger] s[i])
}

/// True for 32 to 44 characters of the base-58 alphabet.
pub open spec fn is_solana_address(s: Seq<char>) -> bool {
    &&& 32 <= s.len() <= 44
    &&& forall|i: int| 0 <= i < s.len() ==> is_base58(#[trigger] s[i])
}

/// True for a text in one of the two address formats.
pub open spec fn is_token_address(s: Seq<char>) -> bool {
    is_ethereum_address(s) || is_solana_address(s)
}

/// `Regex::new` followed by `Regex::is_match`. For the two address patterns
/// the contract says what the pattern language of `regex` says of them: both
/// compile, `^` and `$` tie the match to the whole text, a class matches one
/// character of its ranges, and a count in braces fixes how many. Of other
/// patterns nothing is claimed.
#[verifier::external_body]
fn pattern_matches(pattern: &str, text: &str) -> (r: Result<bool, regex::Error>)
    ensures
        match r {
            Ok(b) => (pattern@ == ETHEREUM_PATTERN@ ==> b == is_ethereum_address(text@)) && (
            pattern@ == SOLANA_PATTERN@ ==> b == is_solana_address(text@)),
            Err(_) => pattern@ != ETHEREUM_PATTERN@ && pattern@ != SOLANA_PATTERN@,
        },
{
    match Regex::new(pattern) {
        Ok(re) => Ok(re.is_match(text)),
        Err(e) => Err(e),
    }
}

/// Whether a text has the format of a token address: `0x` and forty
/// hexadecimal digits, or 32 to 44 characters of the base-58 alphabet. Any
/// other text is no address.
pub fn validate_token_address(address: &str) -> (r: bool)
    ensures
        r == is_token_address(address@),
{
    if let Ok(true) = pattern_matches(ETHEREUM_PATTERN, address) {
        return true;
    }
    if let Ok(true) = pattern_matches(SOLANA_PATTERN, address) {
        return true;
    }
    false
}

} // verus!
