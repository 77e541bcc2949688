//! How often an address was used to verify an account: the key under which
//! the counts are kept, and the text that holds them.
//!
//! The counts of one address are written as two numbers with a comma
//! between them: how often a verification succeeded, then how often one
//! was tried.

use crate::text::{
    decimal, is_digit, lemma_decimal_reads_back, parse_u64, parsed_u64, push_decimal,
    unsigned_part,
};
use vstd::prelude::*;
use vstd::string::StringSliceAdditionalSpecFns;

verus! {

/// The SHA-1 digest of `data`, as the `sha1` crate computes it.
pub uninterp spec fn sha1_digest(data: Seq<u8>) -> Seq<u8>;

/// The character of the hexadecimal digit `n`, in lower case.
pub open spec fn hex_digit(n: int) -> char {
    if n <= 0 {
        '0'
    } else if n == 1 {
        '1'
    } else if n == 2 {
        '2'
    } else if n == 3 {
        '3'
    } else if n == 4 {
        '4'
    } else if n == 5 {
        '5'
    } else if n == 6 {
        '6'
    } else if n == 7 {
        '7'
    } else if n == 8 {
        '8'
    } else if n == 9 {
        '9'
    } else if n == 10 {
        'a'
    } else if n == 11 {
        'b'
    } else if n == 12 {
        'c'
    } else if n == 13 {
        'd'
    } else if n == 14 {
        'e'
    } else {
        'f'
    }
}

/// The bytes of `data` in hexadecimal: two digits for each byte, the
/// upper half of the byte first.
pub open spec fn hex_text(data: Seq<u8>) -> Seq<char> {
    Seq::new(
        2 * data.len(),
        |i: int|
            if i % 2 == 0 {
                hex_digit(data[i / 2] as int / 16)
            } else {
                hex_digit(data[i / 2] as int % 16)
            },
    )
}

/// Computes a digest with `Digest::digest` of `sha1::Sha1`. The digest
/// depends on the data alone and is named `sha1_digest`. It has 20 bytes:
/// the crate fixes the size of its output to that.
#[verifier::external_body]
fn sha1(data: &[u8]) -> (digest: Vec<u8>)
    ensures
        digest@ == sha1_digest(data@),
        digest@.len() == 20,
{
    <sha1::Sha1 as sha1::Digest>::digest(data).to_vec()
}

/// Calls `hex::encode`, which writes each byte as two hexadecimal digits
/// in lower case, the upper half of the byte first.
#[verifier::external_body]
fn hex_encode(data: &[u8]) -> (text: String)
    ensures
        text@ == hex_text(data@),
{
    hex::encode(data)
}

/// The key of a digest: its bytes in hexadecimal.
pub fn digest_key(digest: &[u8]) -> (key: String)
    ensures
        key@ == hex_text(digest@),
        key@.len() == 2 * digest@.len(),
{
    hex_encode(digest)
}

/// The key under which the counts of `email` are kept: the SHA-1 digest
/// of the address in hexadecimal, 40 characters long.
pub fn hash_email(email: &str) -> (key: String)
    ensures
        key@ == hex_text(sha1_digest(email.spec_bytes())),
        key@.len() == 40,
{
    let digest = sha1(email.as_bytes());
    digest_key(digest.as_slice())
}

/// The key under which the channel of the main log is kept.
pub const MAIN_DISCORD_LOG_CHANNEL_KEY: &'static str = "main_discord_log_channel";

/// The place of the first `wanted` in `text` from place `from` on; the
/// length of `text` if there is none.
pub open spec fn first_index_from(text: Seq<char>, wanted: char, from: int) -> int
    decreases text.len() - from,
{
    if from < 0 || from >= text.len() {
        text.len() as int
    } else if text[from] == wanted {
        from
    } else {
        first_index_from(text, wanted, from + 1)
    }
}

/// What `first_index_from` finds.
pub proof fn lemma_first_index_from(text: Seq<char>, wanted: char, from: int)
    requires
        0 <= from <= text.len(),
    ensures
        from <= first_index_from(text, wanted, from) <= text.len(),
        first_index_from(text, wanted, from) < text.len() ==> text[first_index_from(
            text,
            wanted,
            from,
        )] == wanted,
        forall|i: int| from <= i < first_index_from(text, wanted, from) ==> text[i] != wanted,
    decreases text.len() - from,
{
    if from < text.len() && text[from] != wanted {
        lemma_first_index_from(text, wanted, from + 1);
    }
}

/// The counts that `text` holds: the number before the first comma and
/// the number behind it. `None` if `text` has no comma or if either side
/// is not a number.
pub open spec fn parsed_stats(text: Seq<char>) -> Option<(u64, u64)> {
    let comma = first_index_from(text, ',', 0);
    if comma < text.len() {
        match (
            parsed_u64(text.subrange(0, comma)),
            parsed_u64(text.subrange(comma + 1, text.len() as int)),
        ) {
            (Some(successful), Some(used)) => Some((successful, used)),
            _ => None,
        }
    } else {
        None
    }
}

/// The counts of an address whose stored text is `value`; both are 0 for
/// an address without a stored text.
pub open spec fn stats_of(value: Option<Seq<char>>) -> Option<(u64, u64)> {
    match value {
        None => Some((0u64, 0u64)),
        Some(text) => parsed_stats(text),
    }
}

/// The text that holds the counts.
pub open spec fn stats_text(successful: u64, used: u64) -> Seq<char> {
    decimal(successful as nat) + ","@ + decimal(used as nat)
}

fn find_comma(text: &str) -> (found: Option<usize>)
    ensures
        match found {
            Some(index) => index == first_index_from(text@, ',', 0) && index < text@.len(),
            None => first_index_from(text@, ',', 0) == text@.len(),
        },
{
    let total: usize = text.unicode_len();
    let mut index: usize = 0;
    for c in it: text.chars()
        invariant
            it.seq() == text@,
            total == text@.len(),
            index == it.index(),
            first_index_from(text@, ',', 0) == first_index_from(text@, ',', index as int),
    {
        if c == ',' {
            return Some(index);
        }
        index = index + 1;
    }
    None
}

/// Reads the counts of an address from the text that is stored for it.
/// An address without a stored text has the counts 0 and 0. A text that
/// is not two numbers with one comma between them is an error.
pub fn get_email_stats(value: Option<&str>) -> (stats: Result<(u64, u64), ()>)
    ensures
        stats == (match stats_of(
            match value {
                Some(text) => Some(text@),
                None => None,
            },
        ) {
            Some(counts) => Ok::<(u64, u64), ()>(counts),
            None => Err::<(u64, u64), ()>(()),
        }),
{
    match value {
        None => Ok((0, 0)),
        Some(text) => match find_comma(text) {
            None => Err(()),
            Some(comma) => {
                let total: usize = text.unicode_len();
                let before = text.substring_char(0, comma);
                let behind = text.substring_char(comma + 1, total);
                match (parse_u64(before), parse_u64(behind)) {
                    (Some(successful), Some(used)) => Ok((successful, used)),
                    _ => Err(()),
                }
            },
        },
    }
}

/// Writes the counts as the text that is stored for an address.
pub fn set_email_stats(successful: u64, used: u64) -> (value: String)
    ensures
        value@ == stats_text(successful, used),
{
    let mut value = String::new();
    push_decimal(&mut value, successful);
    value.append(",");
    push_decimal(&mut value, used);
    assert(value@ =~= stats_text(successful, used));
    value
}

/// The counts that are written are the counts that are read back.
pub proof fn lemma_stats_round_trip(successful: u64, used: u64)
    ensures
        parsed_stats(stats_text(successful, used)) == Some((successful, used)),
{
    reveal_strlit(",");
    let first = decimal(successful as nat);
    let second = decimal(used as nat);
    let text = stats_text(successful, used);
    lemma_decimal_reads_back(successful as nat);
    lemma_decimal_reads_back(used as nat);
    lemma_first_index_from(text, ',', 0);
    let comma = first_index_from(text, ',', 0);
    assert(text[first.len() as int] == ',');
    assert(comma == first.len()) by {
        if comma < first.len() {
            assert(text[comma] == first[comma]);
            assert(is_digit(first[comma]));
        }
    }
    assert(text.subrange(0, comma) =~= first);
    assert(text.subrange(comma + 1, text.len() as int) =~= second);
    assert(unsigned_part(first) == first);
    assert(unsigned_part(second) == second);
}

/// The counts after one more successful verification, or an error if the
/// count is at its limit.
pub fn increment_email_used_verification_success(stats: (u64, u64)) -> (counted: Result<
    (u64, u64),
    (),
>)
    ensures
        stats.0 < u64::MAX ==> counted == Ok::<(u64, u64), ()>(((stats.0 + 1) as u64, stats.1)),
        stats.0 == u64::MAX ==> counted is Err,
{
    if stats.0 < u64::MAX {
        Ok((stats.0 + 1, stats.1))
    } else {
        Err(())
    }
}

/// The counts after one more verification was tried, or an error if the
/// count is at its limit.
pub fn increment_email_used_verification(stats: (u64, u64)) -> (counted: Result<(u64, u64), ()>)
    ensures
        stats.1 < u64::MAX ==> counted == Ok::<(u64, u64), ()>((stats.0, (stats.1 + 1) as u64)),
        stats.1 == u64::MAX ==> counted is Err,
{
    if stats.1 < u64::MAX {
        Ok((stats.0, stats.1 + 1))
    } else {
        Err(())
    }
}

/// How often a verification with the address succeeded.
pub fn get_email_used_verification_success(stats: (u64, u64)) -> (count: u64)
    ensures
        count == stats.0,
{
    stats.0
}

/// How often a verification with the address was tried.
pub fn get_email_used_verification(stats: (u64, u64)) -> (count: u64)
    ensures
        count == stats.1,
{
    stats.1
}

/// The port in `text`, or `fallback` where there is no text. `None` if
/// the text is not a number below 65536.
pub open spec fn port_of(text: Option<Seq<char>>, fallback: u16) -> Option<u16> {
    match text {
        None => Some(fallback),
        Some(t) => match parsed_u64(t) {
            Some(n) => if n <= u16::MAX {
                Some(n as u16)
            } else {
                None
            },
            None => None,
        },
    }
}

/// Reads a port from the text of a setting; `fallback` is the port where
/// the setting is missing.
pub fn parse_port(text: Option<&str>, fallback: u16) -> (port: Option<u16>)
    ensures
        port == port_of(
            match text {
                Some(t) => Some(t@),
                None => None,
            },
            fallback,
        ),
{
    match text {
        None => Some(fallback),
        Some(t) => match parse_u64(t) {
            Some(n) => if n <= 65535 {
                Some(n as u16)
            } else {
                None
            },
            None => None,
        },
    }
}

/// The address of the server on `host` at `port`.
pub open spec fn connection_url_text(host: Seq<char>, port: u16) -> Seq<char> {
    "redis://"@ + host + ":"@ + decimal(port as nat)
}

/// The address of the server on `host` at `port`.
pub fn connection_url(host: &str, port: u16) -> (url: String)
    ensures
        url@ == connection_url_text(host@, port),
{
    let mut url = String::from_str("redis://");
    url.append(host);
    url.append(":");
    push_decimal(&mut url, port as u64);
    url
}

} // verus!
