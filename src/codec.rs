//! The binary codec: every wire type states its encoding as a byte sequence
//! (`wire`) and its decoding as a function from bytes to a value and the
//! number of bytes taken (`parse`), and proves that the two are inverse.

use vstd::prelude::*;

verus! {

/// Why a decode failed.
#[derive(Debug, Clone, Copy, PartialEq, Eq, Structural)]
pub enum DecodeError {
    /// Fewer bytes remain than the value requires.
    UnexpectedEnd,
    /// A data holder's type-name tag is not the expected one.
    InvalidTag,
}

/// What remains of `data` from position `pos` on.
pub open spec fn rest(data: Seq<u8>, pos: int) -> Seq<u8> {
    data.subrange(pos, data.len() as int)
}

/// A type with a little-endian wire encoding.
pub trait NexType: View + Sized {
    /// The values that can be encoded (a length that fits its prefix, ...).
    spec fn valid(v: Self::V) -> bool;

    /// The bytes that encode `v`.
    spec fn wire(v: Self::V) -> Seq<u8>;

    /// Decoding of the start of `s`: the value and the number of bytes taken.
    spec fn parse(s: Seq<u8>) -> Result<(Self::V, nat), DecodeError>;

    /// Decoding what was encoded gives the value back and takes exactly its
    /// bytes, whatever follows them.
    proof fn lemma_round_trip(v: Self::V, more: Seq<u8>)
        requires
            Self::valid(v),
        ensures
            Self::parse(Self::wire(v) + more) == Ok::<(Self::V, nat), DecodeError>(
                (v, Self::wire(v).len()),
            ),
    ;

    /// Appends the encoding of `self` to `out`.
    fn encode(&self, out: &mut Vec<u8>)
        requires
            Self::valid(self@),
        ensures
            final(out)@ == old(out)@ + Self::wire(self@),
    ;

    /// Decodes a value at `*pos` in `data` and moves `*pos` past it.
    fn decode(data: &[u8], pos: &mut usize) -> (r: Result<Self, DecodeError>)
        requires
            *old(pos) <= data@.len(),
        ensures
            *final(pos) <= data@.len(),
            match Self::parse(rest(data@, *old(pos) as int)) {
                Ok((v, n)) => r is Ok && r->Ok_0@ == v && *final(pos) == *old(pos) + n,
                Err(e) => r is Err && r->Err_0 == e,
            },
    ;
}

/// Decoding the encoding of any valid value gives that value back, and
/// takes all of its bytes.
pub proof fn lemma_decode_encode<T: NexType>(v: T::V)
    requires
        T::valid(v),
    ensures
        T::parse(T::wire(v)) == Ok::<(T::V, nat), DecodeError>((v, T::wire(v).len())),
{
    T::lemma_round_trip(v, Seq::empty());
    assert(T::wire(v) + Seq::<u8>::empty() =~= T::wire(v));
}

pub open spec fn parse_u8(s: Seq<u8>) -> Result<(u8, nat), DecodeError> {
    if s.len() < 1 {
        Err(DecodeError::UnexpectedEnd)
    } else {
        Ok((s[0], 1))
    }
}

impl NexType for u8 {
    open spec fn valid(v: u8) -> bool {
        true
    }

    open spec fn wire(v: u8) -> Seq<u8> {
        seq![v]
    }

    open spec fn parse(s: Seq<u8>) -> Result<(u8, nat), DecodeError> {
        parse_u8(s)
    }

    proof fn lemma_round_trip(v: u8, more: Seq<u8>) {
    }

    fn encode(&self, out: &mut Vec<u8>) {
        out.push(*self);
    }

    fn decode(data: &[u8], pos: &mut usize) -> (r: Result<u8, DecodeError>) {
        if *pos >= data.len() {
            return Err(DecodeError::UnexpectedEnd);
        }
        let b = data[*pos];
        *pos = *pos + 1;
        Ok(b)
    }
}


/// Little-endian bytes of a 16-bit value.
pub open spec fn le16(v: u16) -> Seq<u8> {
    seq![v as u8, (v >> 8u16) as u8]
}

/// Little-endian bytes of a 32-bit value.
pub open spec fn le32(v: u32) -> Seq<u8> {
    seq![v as u8, (v >> 8u32) as u8, (v >> 16u32) as u8, (v >> 24u32) as u8]
}

/// Little-endian bytes of a 64-bit value.
pub open spec fn le64(v: u64) -> Seq<u8> {
    seq![
        v as u8,
        (v >> 8u64) as u8,
        (v >> 16u64) as u8,
        (v >> 24u64) as u8,
        (v >> 32u64) as u8,
        (v >> 40u64) as u8,
        (v >> 48u64) as u8,
        (v >> 56u64) as u8,
    ]
}

/// The 16-bit value whose little-endian bytes start `s`.
pub open spec fn from_le16(s: Seq<u8>) -> u16
    recommends
        s.len() >= 2,
{
    (s[0] as u16) | ((s[1] as u16) << 8u16)
}

/// The 32-bit value whose little-endian bytes start `s`.
pub open spec fn from_le32(s: Seq<u8>) -> u32
    recommends
        s.len() >= 4,
{
    (s[0] as u32) | ((s[1] as u32) << 8u32) | ((s[2] as u32) << 16u32) | ((s[3] as u32)
        << 24u32)
}

/// The 64-bit value whose little-endian bytes start `s`.
pub open spec fn from_le64(s: Seq<u8>) -> u64
    recommends
        s.len() >= 8,
{
    (s[0] as u64) | ((s[1] as u64) << 8u64) | ((s[2] as u64) << 16u64) | ((s[3] as u64)
        << 24u64) | ((s[4] as u64) << 32u64) | ((s[5] as u64) << 40u64) | ((s[6] as u64)
        << 48u64) | ((s[7] as u64) << 56u64)
}

/// Takes `n` bytes from the start of `s` with `f`, or fails when fewer remain.
pub open spec fn parse_fixed<T>(s: Seq<u8>, n: nat, f: spec_fn(Seq<u8>) -> T) -> Result<
    (T, nat),
    DecodeError,
> {
    if s.len() < n {
        Err(DecodeError::UnexpectedEnd)
    } else {
        Ok((f(s), n))
    }
}

proof fn lemma_le16(v: u16)
    ensures
        from_le16(le16(v)) == v,
{
    let b0 = v as u8;
    let b1 = (v >> 8u16) as u8;
    assert(le16(v)[0] == b0 && le16(v)[1] == b1);
    assert((b0 as u16) | ((b1 as u16) << 8u16) == v) by (bit_vector)
        requires
            b0 == v as u8,
            b1 == (v >> 8u16) as u8,
    ;
}

proof fn lemma_le32(v: u32)
    ensures
        from_le32(le32(v)) == v,
{
    let b0 = v as u8;
    let b1 = (v >> 8u32) as u8;
    let b2 = (v >> 16u32) as u8;
    let b3 = (v >> 24u32) as u8;
    assert(le32(v)[0] == b0 && le32(v)[1] == b1 && le32(v)[2] == b2 && le32(v)[3] == b3);
    assert((b0 as u32) | ((b1 as u32) << 8u32) | ((b2 as u32) << 16u32) | ((b3 as u32)
        << 24u32) == v) by (bit_vector)
        requires
            b0 == v as u8,
            b1 == (v >> 8u32) as u8,
            b2 == (v >> 16u32) as u8,
            b3 == (v >> 24u32) as u8,
    ;
}

proof fn lemma_le64(v: u64)
    ensures
        from_le64(le64(v)) == v,
{
    let b0 = v as u8;
    let b1 = (v >> 8u64) as u8;
    let b2 = (v >> 16u64) as u8;
    let b3 = (v >> 24u64) as u8;
    let b4 = (v >> 32u64) as u8;
    let b5 = (v >> 40u64) as u8;
    let b6 = (v >> 48u64) as u8;
    let b7 = (v >> 56u64) as u8;
    let w = le64(v);
    assert(w[0] == b0 && w[1] == b1 && w[2] == b2 && w[3] == b3);
    assert(w[4] == b4 && w[5] == b5 && w[6] == b6 && w[7] == b7);
    assert((b0 as u64) | ((b1 as u64) << 8u64) | ((b2 as u64) << 16u64) | ((b3 as u64)
        << 24u64) | ((b4 as u64) << 32u64) | ((b5 as u64) << 40u64) | ((b6 as u64) << 48u64)
        | ((b7 as u64) << 56u64) == v) by (bit_vector)
        requires
            b0 == v as u8,
            b1 == (v >> 8u64) as u8,
            b2 == (v >> 16u64) as u8,
            b3 == (v >> 24u64) as u8,
            b4 == (v >> 32u64) as u8,
            b5 == (v >> 40u64) as u8,
            b6 == (v >> 48u64) as u8,
            b7 == (v >> 56u64) as u8,
    ;
}

impl NexType for u16 {
    open spec fn valid(v: u16) -> bool {
        true
    }

    open spec fn wire(v: u16) -> Seq<u8> {
        le16(v)
    }

    open spec fn parse(s: Seq<u8>) -> Result<(u16, nat), DecodeError> {
        parse_fixed(s, 2, |b: Seq<u8>| from_le16(b))
    }

    proof fn lemma_round_trip(v: u16, more: Seq<u8>) {
        lemma_le16(v);
        assert((le16(v) + more)[0] == le16(v)[0]);
        assert((le16(v) + more)[1] == le16(v)[1]);
    }

    fn encode(&self, out: &mut Vec<u8>) {
        let v = *self;
        out.push(v as u8);
        out.push((v >> 8u16) as u8);
        assert(out@ =~= old(out)@ + le16(v));
    }

    fn decode(data: &[u8], pos: &mut usize) -> (r: Result<u16, DecodeError>) {
        let p = *pos;
        if data.len() - p < 2 {
            return Err(DecodeError::UnexpectedEnd);
        }
        let v = (data[p] as u16) | ((data[p + 1] as u16) << 8u16);
        *pos = p + 2;
        proof {
            let s = rest(data@, p as int);
            assert(s[0] == data@[p as int] && s[1] == data@[p + 1]);
        }
        Ok(v)
    }
}

impl NexType for u32 {
    open spec fn valid(v: u32) -> bool {
        true
    }

    open spec fn wire(v: u32) -> Seq<u8> {
        le32(v)
    }

    open spec fn parse(s: Seq<u8>) -> Result<(u32, nat), DecodeError> {
        parse_fixed(s, 4, |b: Seq<u8>| from_le32(b))
    }

    proof fn lemma_round_trip(v: u32, more: Seq<u8>) {
        lemma_le32(v);
        let s = le32(v) + more;
        assert(s[0] == le32(v)[0] && s[1] == le32(v)[1] && s[2] == le32(v)[2] && s[3] == le32(
            v,
        )[3]);
    }

    fn encode(&self, out: &mut Vec<u8>) {
        let v = *self;
        out.push(v as u8);
        out.push((v >> 8u32) as u8);
        out.push((v >> 16u32) as u8);
        out.push((v >> 24u32) as u8);
        assert(out@ =~= old(out)@ + le32(v));
    }

    fn decode(data: &[u8], pos: &mut usize) -> (r: Result<u32, DecodeError>) {
        let p = *pos;
        if data.len() - p < 4 {
            return Err(DecodeError::UnexpectedEnd);
        }
        let v = (data[p] as u32) | ((data[p + 1] as u32) << 8u32) | ((data[p + 2] as u32)
            << 16u32) | ((data[p + 3] as u32) << 24u32);
        *pos = p + 4;
        proof {
            let s = rest(data@, p as int);
            assert(s[0] == data@[p as int] && s[1] == data@[p + 1] && s[2] == data@[p + 2]
                && s[3] == data@[p + 3]);
        }
        Ok(v)
    }
}

impl NexType for u64 {
    open spec fn valid(v: u64) -> bool {
        true
    }

    open spec fn wire(v: u64) -> Seq<u8> {
        le64(v)
    }

    open spec fn parse(s: Seq<u8>) -> Result<(u64, nat), DecodeError> {
        parse_fixed(s, 8, |b: Seq<u8>| from_le64(b))
    }

    proof fn lemma_round_trip(v: u64, more: Seq<u8>) {
        lemma_le64(v);
        let w = le64(v);
        let s = w + more;
        assert(s[0] == w[0] && s[1] == w[1] && s[2] == w[2] && s[3] == w[3]);
        assert(s[4] == w[4] && s[5] == w[5] && s[6] == w[6] && s[7] == w[7]);
    }

    fn encode(&self, out: &mut Vec<u8>) {
        let v = *self;
        out.push(v as u8);
        out.push((v >> 8u64) as u8);
        out.push((v >> 16u64) as u8);
        out.push((v >> 24u64) as u8);
        out.push((v >> 32u64) as u8);
        out.push((v >> 40u64) as u8);
        out.push((v >> 48u64) as u8);
        out.push((v >> 56u64) as u8);
        assert(out@ =~= old(out)@ + le64(v));
    }

    fn decode(data: &[u8], pos: &mut usize) -> (r: Result<u64, DecodeError>) {
        let p = *pos;
        if data.len() - p < 8 {
            return Err(DecodeError::UnexpectedEnd);
        }
        let v = (data[p] as u64) | ((data[p + 1] as u64) << 8u64) | ((data[p + 2] as u64)
            << 16u64) | ((data[p + 3] as u64) << 24u64) | ((data[p + 4] as u64) << 32u64) | ((
        data[p + 5] as u64) << 40u64) | ((data[p + 6] as u64) << 48u64) | ((data[p + 7] as u64)
            << 56u64);
        *pos = p + 8;
        proof {
            let s = rest(data@, p as int);
            assert(s[0] == data@[p as int] && s[1] == data@[p + 1] && s[2] == data@[p + 2]
                && s[3] == data@[p + 3]);
            assert(s[4] == data@[p + 4] && s[5] == data@[p + 5] && s[6] == data@[p + 6]
                && s[7] == data@[p + 7]);
        }
        Ok(v)
    }
}


impl NexType for i8 {
    open spec fn valid(v: i8) -> bool {
        true
    }

    /// Two's complement: the bytes of the unsigned value with the same bits.
    open spec fn wire(v: i8) -> Seq<u8> {
        <u8 as NexType>::wire(v as u8)
    }

    open spec fn parse(s: Seq<u8>) -> Result<(i8, nat), DecodeError> {
        match <u8 as NexType>::parse(s) {
            Ok((u, n)) => Ok((u as i8, n)),
            Err(e) => Err(e),
        }
    }

    proof fn lemma_round_trip(v: i8, more: Seq<u8>) {
        <u8 as NexType>::lemma_round_trip(v as u8, more);
        assert((v as u8) as i8 == v) by (bit_vector);
    }

    fn encode(&self, out: &mut Vec<u8>) {
        (*self as u8).encode(out);
    }

    fn decode(data: &[u8], pos: &mut usize) -> (r: Result<i8, DecodeError>) {
        match u8::decode(data, pos) {
            Ok(u) => Ok(u as i8),
            Err(e) => Err(e),
        }
    }
}

impl NexType for i16 {
    open spec fn valid(v: i16) -> bool {
        true
    }

    /// Two's complement: the bytes of the unsigned value with the same bits.
    open spec fn wire(v: i16) -> Seq<u8> {
        <u16 as NexType>::wire(v as u16)
    }

    open spec fn parse(s: Seq<u8>) -> Result<(i16, nat), DecodeError> {
        match <u16 as NexType>::parse(s) {
            Ok((u, n)) => Ok((u as i16, n)),
            Err(e) => Err(e),
        }
    }

    proof fn lemma_round_trip(v: i16, more: Seq<u8>) {
        <u16 as NexType>::lemma_round_trip(v as u16, more);
        assert((v as u16) as i16 == v) by (bit_vector);
    }

    fn encode(&self, out: &mut Vec<u8>) {
        (*self as u16).encode(out);
    }

    fn decode(data: &[u8], pos: &mut usize) -> (r: Result<i16, DecodeError>) {
        match u16::decode(data, pos) {
            Ok(u) => Ok(u as i16),
            Err(e) => Err(e),
        }
    }
}

impl NexType for i32 {
    open spec fn valid(v: i32) -> bool {
        true
    }

    /// Two's complement: the bytes of the unsigned value with the same bits.
    open spec fn wire(v: i32) -> Seq<u8> {
        <u32 as NexType>::wire(v as u32)
    }

    open spec fn parse(s: Seq<u8>) -> Result<(i32, nat), DecodeError> {
        match <u32 as NexType>::parse(s) {
            Ok((u, n)) => Ok((u as i32, n)),
            Err(e) => Err(e),
        }
    }

    proof fn lemma_round_trip(v: i32, more: Seq<u8>) {
        <u32 as NexType>::lemma_round_trip(v as u32, more);
        assert((v as u32) as i32 == v) by (bit_vector);
    }

    fn encode(&self, out: &mut Vec<u8>) {
        (*self as u32).encode(out);
    }

    fn decode(data: &[u8], pos: &mut usize) -> (r: Result<i32, DecodeError>) {
        match u32::decode(data, pos) {
            Ok(u) => Ok(u as i32),
            Err(e) => Err(e),
        }
    }
}

impl NexType for i64 {
    open spec fn valid(v: i64) -> bool {
        true
    }

    /// Two's complement: the bytes of the unsigned value with the same bits.
    open spec fn wire(v: i64) -> Seq<u8> {
        <u64 as NexType>::wire(v as u64)
    }

    open spec fn parse(s: Seq<u8>) -> Result<(i64, nat), DecodeError> {
        match <u64 as NexType>::parse(s) {
            Ok((u, n)) => Ok((u as i64, n)),
            Err(e) => Err(e),
        }
    }

    proof fn lemma_round_trip(v: i64, more: Seq<u8>) {
        <u64 as NexType>::lemma_round_trip(v as u64, more);
        assert((v as u64) as i64 == v) by (bit_vector);
    }

    fn encode(&self, out: &mut Vec<u8>) {
        (*self as u64).encode(out);
    }

    fn decode(data: &[u8], pos: &mut usize) -> (r: Result<i64, DecodeError>) {
        match u64::decode(data, pos) {
            Ok(u) => Ok(u as i64),
            Err(e) => Err(e),
        }
    }
}

impl NexType for bool {
    open spec fn valid(v: bool) -> bool {
        true
    }

    /// One byte, 1 for true and 0 for false.
    open spec fn wire(v: bool) -> Seq<u8> {
        seq![if v { 1u8 } else { 0u8 }]
    }

    /// Any byte other than 0 reads as true.
    open spec fn parse(s: Seq<u8>) -> Result<(bool, nat), DecodeError> {
        match parse_u8(s) {
            Ok((b, n)) => Ok((b != 0, n)),
            Err(e) => Err(e),
        }
    }

    proof fn lemma_round_trip(v: bool, more: Seq<u8>) {
    }

    fn encode(&self, out: &mut Vec<u8>) {
        out.push(if *self { 1u8 } else { 0u8 });
    }

    fn decode(data: &[u8], pos: &mut usize) -> (r: Result<bool, DecodeError>) {
        match u8::decode(data, pos) {
            Ok(b) => Ok(b != 0),
            Err(e) => Err(e),
        }
    }
}

/// `rest` of `rest` is `rest` further on.
pub proof fn lemma_rest_rest(data: Seq<u8>, p: int, n: int)
    requires
        0 <= p,
        0 <= n,
        p + n <= data.len(),
    ensures
        rest(rest(data, p), n) == rest(data, p + n),
{
    assert(rest(rest(data, p), n) =~= rest(data, p + n));
}

/// A pair is the first value's encoding followed by the second's.
impl<A: NexType, B: NexType> NexType for (A, B) {
    open spec fn valid(v: (A::V, B::V)) -> bool {
        A::valid(v.0) && B::valid(v.1)
    }

    open spec fn wire(v: (A::V, B::V)) -> Seq<u8> {
        A::wire(v.0) + B::wire(v.1)
    }

    open spec fn parse(s: Seq<u8>) -> Result<((A::V, B::V), nat), DecodeError> {
        match A::parse(s) {
            Ok((a, n)) => match B::parse(s.subrange(n as int, s.len() as int)) {
                Ok((b, m)) => Ok(((a, b), n + m)),
                Err(e) => Err(e),
            },
            Err(e) => Err(e),
        }
    }

    proof fn lemma_round_trip(v: (A::V, B::V), more: Seq<u8>) {
        let wa = A::wire(v.0);
        let wb = B::wire(v.1);
        A::lemma_round_trip(v.0, wb + more);
        B::lemma_round_trip(v.1, more);
        assert(wa + wb + more =~= wa + (wb + more));
        assert((wa + wb + more).subrange(wa.len() as int, (wa + wb + more).len() as int) =~= wb
            + more);
    }

    fn encode(&self, out: &mut Vec<u8>) {
        self.0.encode(out);
        self.1.encode(out);
        assert(out@ =~= old(out)@ + Self::wire(self@));
    }

    fn decode(data: &[u8], pos: &mut usize) -> (r: Result<(A, B), DecodeError>) {
        let ghost p = *pos as int;
        let a = match A::decode(data, pos) {
            Ok(a) => a,
            Err(e) => return Err(e),
        };
        let ghost n = *pos - p;
        proof {
            lemma_rest_rest(data@, p, n);
        }
        let b = match B::decode(data, pos) {
            Ok(b) => b,
            Err(e) => return Err(e),
        };
        Ok((a, b))
    }
}
} // verus!
