//! What every parameter extractor shares: its error type, the decoding of
//! a whole parameter buffer as one record, and the rule on required names.

use crate::codec::{rest, DecodeError, NexType};
use crate::nex_types::{decode_envelope, parse_envelope, NexString};
use vstd::prelude::*;

verus! {

/// Why the parameters of a call could not be extracted.
#[derive(Debug, Clone, Copy, PartialEq, Eq, Structural)]
pub enum ExtractError {
    /// A field could not be decoded.
    Decode(DecodeError),
    /// The parameter buffer is not of the size that the method fixes.
    WrongLength,
    /// A required user name is empty once surrounding whitespace is removed.
    MissingUsername,
    /// A data holder's envelope could not be read, or carries another tag.
    Envelope(DecodeError),
    /// The value inside a data holder's payload could not be decoded.
    Payload(DecodeError),
}

/// Decoding of a parameter buffer as the record `T`; bytes after the record
/// are not looked at.
pub open spec fn parse_params<T: NexType>(params: Seq<u8>) -> Result<T::V, ExtractError> {
    match T::parse(params) {
        Ok((v, n)) => Ok(v),
        Err(e) => Err(ExtractError::Decode(e)),
    }
}

/// Decodes a parameter buffer as the record `T`.
pub fn extract_params<T: NexType>(params: &[u8]) -> (r: Result<T, ExtractError>)
    ensures
        match parse_params::<T>(params@) {
            Ok(v) => r is Ok && r->Ok_0@ == v,
            Err(e) => r is Err && r->Err_0 == e,
        },
{
    let mut pos: usize = 0;
    assert(rest(params@, 0) =~= params@);
    match T::decode(params, &mut pos) {
        Ok(v) => Ok(v),
        Err(e) => Err(ExtractError::Decode(e)),
    }
}

/// One-byte whitespace: space, tab, line feed, vertical tab, form feed and
/// carriage return.
pub open spec fn is_space(b: u8) -> bool {
    b == 0x20u8 || (0x09u8 <= b && b <= 0x0du8)
}

/// The length of the UTF-8 encoding of a whitespace character at the start
/// of `s`, or 0 where `s` starts otherwise. The whitespace characters are
/// those of Unicode's White_Space property: the one-byte ones, U+0085,
/// U+00A0, U+1680, U+2000 to U+200A, U+2028, U+2029, U+202F, U+205F and
/// U+3000.
pub open spec fn space_len(s: Seq<u8>) -> nat {
    if s.len() >= 1 && is_space(s[0]) {
        1
    } else if s.len() >= 2 && s[0] == 0xc2u8 && (s[1] == 0x85u8 || s[1] == 0xa0u8) {
        2
    } else if s.len() >= 3 && ((s[0] == 0xe1u8 && s[1] == 0x9au8 && s[2] == 0x80u8) || (s[0]
        == 0xe2u8 && s[1] == 0x80u8 && ((0x80u8 <= s[2] && s[2] <= 0x8au8) || s[2] == 0xa8u8
        || s[2] == 0xa9u8 || s[2] == 0xafu8)) || (s[0] == 0xe2u8 && s[1] == 0x81u8 && s[2]
        == 0x9fu8) || (s[0] == 0xe3u8 && s[1] == 0x80u8 && s[2] == 0x80u8)) {
        3
    } else {
        0
    }
}

/// A name that is empty once surrounding whitespace is removed: its bytes
/// are whitespace characters one after another.
pub open spec fn is_blank(s: Seq<u8>) -> bool
    decreases s.len(),
{
    if s.len() == 0 {
        true
    } else if space_len(s) == 0 {
        false
    } else {
        is_blank(s.subrange(space_len(s) as int, s.len() as int))
    }
}

/// The length of the whitespace character that starts at `s[i]`, or 0.
fn space_len_at(s: &[u8], i: usize) -> (r: usize)
    requires
        i <= s@.len(),
    ensures
        r == space_len(s@.subrange(i as int, s@.len() as int)),
{
    let ghost t = s@.subrange(i as int, s@.len() as int);
    let left = s.len() - i;
    if left >= 1 {
        assert(t[0] == s@[i as int]);
    }
    if left >= 2 {
        assert(t[1] == s@[i + 1]);
    }
    if left >= 3 {
        assert(t[2] == s@[i + 2]);
    }
    if left >= 1 && (s[i] == 0x20u8 || (0x09u8 <= s[i] && s[i] <= 0x0du8)) {
        1
    } else if left >= 2 && s[i] == 0xc2u8 && (s[i + 1] == 0x85u8 || s[i + 1] == 0xa0u8) {
        2
    } else if left >= 3 && ((s[i] == 0xe1u8 && s[i + 1] == 0x9au8 && s[i + 2] == 0x80u8) || (
    s[i] == 0xe2u8 && s[i + 1] == 0x80u8 && ((0x80u8 <= s[i + 2] && s[i + 2] <= 0x8au8) || s[i
        + 2] == 0xa8u8 || s[i + 2] == 0xa9u8 || s[i + 2] == 0xafu8)) || (s[i] == 0xe2u8 && s[i
        + 1] == 0x81u8 && s[i + 2] == 0x9fu8) || (s[i] == 0xe3u8 && s[i + 1] == 0x80u8 && s[i
        + 2] == 0x80u8)) {
        3
    } else {
        0
    }
}

/// Whether `s` is empty once surrounding whitespace is removed.
pub fn blank(s: &[u8]) -> (r: bool)
    ensures
        r == is_blank(s@),
{
    let mut i: usize = 0;
    assert(s@.subrange(0, s@.len() as int) =~= s@);
    while i < s.len()
        invariant
            i <= s@.len(),
            is_blank(s@) == is_blank(s@.subrange(i as int, s@.len() as int)),
        decreases s.len() - i,
    {
        let n = space_len_at(s, i);
        if n == 0 {
            return false;
        }
        let ghost t = s@.subrange(i as int, s@.len() as int);
        assert(t.subrange(n as int, t.len() as int) =~= s@.subrange(i + n, s@.len() as int));
        i = i + n;
    }
    assert(s@.subrange(i as int, s@.len() as int).len() == 0);
    true
}

/// Decoding of a required user name at the start of `params`: the text and
/// the number of bytes taken.
pub open spec fn parse_username(params: Seq<u8>) -> Result<(Seq<u8>, nat), ExtractError> {
    match <NexString as NexType>::parse(params) {
        Ok((name, n)) => if is_blank(name) {
            Err(ExtractError::MissingUsername)
        } else {
            Ok((name, n))
        },
        Err(e) => Err(ExtractError::Decode(e)),
    }
}

/// Decodes a required user name at the start of `params`; gives the name
/// and the position just past it.
pub fn extract_username(params: &[u8]) -> (r: Result<(NexString, usize), ExtractError>)
    ensures
        match parse_username(params@) {
            Ok((name, n)) => r is Ok && r->Ok_0.0@ == name && r->Ok_0.1 == n && n
                <= params@.len(),
            Err(e) => r is Err && r->Err_0 == e,
        },
{
    let mut pos: usize = 0;
    assert(rest(params@, 0) =~= params@);
    match NexString::decode(params, &mut pos) {
        Ok(name) => if blank(name.bytes.as_slice()) {
            Err(ExtractError::MissingUsername)
        } else {
            Ok((name, pos))
        },
        Err(e) => Err(ExtractError::Decode(e)),
    }
}

/// Decoding of a log-in with extended information, in three steps: a
/// required user name, a data holder envelope tagged `tag`, and a `T`
/// decoded from the envelope's payload. Each step fails with its own error.
pub open spec fn parse_tagged_login<T: NexType>(params: Seq<u8>, tag: Seq<u8>) -> Result<
    (Seq<u8>, T::V),
    ExtractError,
> {
    match parse_username(params) {
        Ok((username, n)) => match parse_envelope(
            params.subrange(n as int, params.len() as int),
            tag,
        ) {
            Ok((payload, m)) => match T::parse(payload) {
                Ok((v, k)) => Ok((username, v)),
                Err(e) => Err(ExtractError::Payload(e)),
            },
            Err(e) => Err(ExtractError::Envelope(e)),
        },
        Err(e) => Err(e),
    }
}

/// Extracts a log-in with extended information.
pub fn extract_tagged_login<T: NexType>(params: &[u8], tag: &[u8]) -> (r: Result<
    (NexString, T),
    ExtractError,
>)
    ensures
        match parse_tagged_login::<T>(params@, tag@) {
            Ok((username, v)) => r is Ok && r->Ok_0.0@ == username && r->Ok_0.1@ == v,
            Err(e) => r is Err && r->Err_0 == e,
        },
{
    let (username, mut pos) = match extract_username(params) {
        Ok(found) => found,
        Err(e) => return Err(e),
    };
    assert(rest(params@, pos as int) == params@.subrange(pos as int, params@.len() as int));
    let payload = match decode_envelope(params, &mut pos, tag) {
        Ok(b) => b,
        Err(e) => return Err(ExtractError::Envelope(e)),
    };
    let mut inner: usize = 0;
    assert(rest(payload.bytes@, 0) =~= payload.bytes@);
    match T::decode(payload.bytes.as_slice(), &mut inner) {
        Ok(v) => Ok((username, v)),
        Err(e) => Err(ExtractError::Payload(e)),
    }
}

} // verus!
