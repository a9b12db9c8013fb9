//! The structured value types built on the codec: length-prefixed strings
//! and buffers, counted lists, tagged data holders, and the small scalar
//! wrappers of the protocol.

use crate::codec::{lemma_rest_rest, le16, le32, rest, DecodeError, NexType};
use vstd::prelude::*;
use vstd::slice::{slice_subrange, slice_to_vec};

verus! {

/// Appends `bytes` to `out`.
pub fn append_bytes(out: &mut Vec<u8>, bytes: &[u8])
    ensures
        final(out)@ == old(out)@ + bytes@,
{
    let mut i: usize = 0;
    while i < bytes.len()
        invariant
            i <= bytes@.len(),
            out@ == old(out)@ + bytes@.subrange(0, i as int),
        decreases bytes.len() - i,
    {
        out.push(bytes[i]);
        i = i + 1;
        assert(out@ =~= old(out)@ + bytes@.subrange(0, i as int));
    }
    assert(bytes@.subrange(0, i as int) =~= bytes@);
}

/// Reads a length prefix of type `L` and then that many raw bytes.
pub open spec fn parse_prefixed<L: NexType>(s: Seq<u8>, len_of: spec_fn(L::V) -> nat) -> Result<
    (Seq<u8>, nat),
    DecodeError,
> {
    match L::parse(s) {
        Ok((l, n)) => if s.len() < n + len_of(l) {
            Err(DecodeError::UnexpectedEnd)
        } else {
            Ok((s.subrange(n as int, (n + len_of(l)) as int), n + len_of(l)))
        },
        Err(e) => Err(e),
    }
}

/// The text that the bytes of a string field hold: all but the terminator.
pub open spec fn strip_terminator(b: Seq<u8>) -> Seq<u8> {
    if b.len() == 0 {
        b
    } else {
        b.drop_last()
    }
}

/// Length-prefixed text: a 16-bit length that counts a trailing null
/// terminator, then the bytes of the text and the terminator.
#[derive(Debug, Clone, PartialEq, Eq, Default)]
pub struct NexString {
    pub bytes: Vec<u8>,
}

impl View for NexString {
    type V = Seq<u8>;

    open spec fn view(&self) -> Seq<u8> {
        self.bytes@
    }
}

impl NexString {
    pub fn new(bytes: Vec<u8>) -> (r: NexString)
        ensures
            r@ == bytes@,
    {
        NexString { bytes }
    }
}

impl NexType for NexString {
    /// The length field, which counts the terminator too, fits in 16 bits.
    open spec fn valid(v: Seq<u8>) -> bool {
        v.len() + 1 <= u16::MAX
    }

    open spec fn wire(v: Seq<u8>) -> Seq<u8> {
        le16((v.len() + 1) as u16) + v + seq![0u8]
    }

    /// A length field of 0 reads as the empty text; otherwise the last byte
    /// that it counts is the terminator and is dropped.
    open spec fn parse(s: Seq<u8>) -> Result<(Seq<u8>, nat), DecodeError> {
        match parse_prefixed::<u16>(s, |l: u16| l as nat) {
            Ok((b, n)) => Ok((strip_terminator(b), n)),
            Err(e) => Err(e),
        }
    }

    proof fn lemma_round_trip(v: Seq<u8>, more: Seq<u8>) {
        let l = (v.len() + 1) as u16;
        let body = v + seq![0u8];
        <u16 as NexType>::lemma_round_trip(l, body + more);
        assert(le16(l) + v + seq![0u8] + more =~= le16(l) + (body + more));
        let s = le16(l) + v + seq![0u8] + more;
        assert(s.subrange(2, 2 + l) =~= body);
        assert(body.drop_last() =~= v);
    }

    fn encode(&self, out: &mut Vec<u8>) {
        let l = (self.bytes.len() + 1) as u16;
        l.encode(out);
        append_bytes(out, self.bytes.as_slice());
        out.push(0u8);
        assert(out@ =~= old(out)@ + Self::wire(self@));
    }

    fn decode(data: &[u8], pos: &mut usize) -> (r: Result<NexString, DecodeError>) {
        let ghost p = *pos as int;
        let l = match u16::decode(data, pos) {
            Ok(l) => l,
            Err(e) => return Err(e),
        };
        let start = *pos;
        if data.len() - start < l as usize {
            return Err(DecodeError::UnexpectedEnd);
        }
        let end = if l == 0 {
            start
        } else {
            start + l as usize - 1
        };
        let bytes = slice_to_vec(slice_subrange(data, start, end));
        *pos = start + l as usize;
        proof {
            let s = rest(data@, p);
            assert(s.subrange(2, 2 + l) =~= data@.subrange(start as int, start + l));
            assert(strip_terminator(data@.subrange(start as int, start + l)) =~= bytes@);
        }
        Ok(NexString { bytes })
    }
}

/// Raw bytes behind a 32-bit length.
#[derive(Debug, Clone, PartialEq, Eq, Default)]
pub struct NexBuffer {
    pub bytes: Vec<u8>,
}

impl View for NexBuffer {
    type V = Seq<u8>;

    open spec fn view(&self) -> Seq<u8> {
        self.bytes@
    }
}

impl NexType for NexBuffer {
    open spec fn valid(v: Seq<u8>) -> bool {
        v.len() <= u32::MAX
    }

    open spec fn wire(v: Seq<u8>) -> Seq<u8> {
        le32(v.len() as u32) + v
    }

    open spec fn parse(s: Seq<u8>) -> Result<(Seq<u8>, nat), DecodeError> {
        parse_prefixed::<u32>(s, |l: u32| l as nat)
    }

    proof fn lemma_round_trip(v: Seq<u8>, more: Seq<u8>) {
        <u32 as NexType>::lemma_round_trip(v.len() as u32, v + more);
        assert(le32(v.len() as u32) + v + more =~= le32(v.len() as u32) + (v + more));
        assert((le32(v.len() as u32) + v + more).subrange(4, 4 + v.len() as int) =~= v);
    }

    fn encode(&self, out: &mut Vec<u8>) {
        (self.bytes.len() as u32).encode(out);
        append_bytes(out, self.bytes.as_slice());
    }

    fn decode(data: &[u8], pos: &mut usize) -> (r: Result<NexBuffer, DecodeError>) {
        let ghost p = *pos as int;
        let l = match u32::decode(data, pos) {
            Ok(l) => l,
            Err(e) => return Err(e),
        };
        let start = *pos;
        if data.len() - start < l as usize {
            return Err(DecodeError::UnexpectedEnd);
        }
        let bytes = slice_to_vec(slice_subrange(data, start, start + l as usize));
        *pos = start + l as usize;
        proof {
            assert(rest(data@, p).subrange(4, 4 + l) =~= bytes@);
        }
        Ok(NexBuffer { bytes })
    }
}

/// Raw bytes behind a 16-bit length, for blobs that stay small.
#[derive(Debug, Clone, PartialEq, Eq, Default)]
pub struct NexQBuffer {
    pub bytes: Vec<u8>,
}

impl View for NexQBuffer {
    type V = Seq<u8>;

    open spec fn view(&self) -> Seq<u8> {
        self.bytes@
    }
}

impl NexType for NexQBuffer {
    open spec fn valid(v: Seq<u8>) -> bool {
        v.len() <= u16::MAX
    }

    open spec fn wire(v: Seq<u8>) -> Seq<u8> {
        le16(v.len() as u16) + v
    }

    open spec fn parse(s: Seq<u8>) -> Result<(Seq<u8>, nat), DecodeError> {
        parse_prefixed::<u16>(s, |l: u16| l as nat)
    }

    proof fn lemma_round_trip(v: Seq<u8>, more: Seq<u8>) {
        <u16 as NexType>::lemma_round_trip(v.len() as u16, v + more);
        assert(le16(v.len() as u16) + v + more =~= le16(v.len() as u16) + (v + more));
        assert((le16(v.len() as u16) + v + more).subrange(2, 2 + v.len() as int) =~= v);
    }

    fn encode(&self, out: &mut Vec<u8>) {
        (self.bytes.len() as u16).encode(out);
        append_bytes(out, self.bytes.as_slice());
    }

    fn decode(data: &[u8], pos: &mut usize) -> (r: Result<NexQBuffer, DecodeError>) {
        let ghost p = *pos as int;
        let l = match u16::decode(data, pos) {
            Ok(l) => l,
            Err(e) => return Err(e),
        };
        let start = *pos;
        if data.len() - start < l as usize {
            return Err(DecodeError::UnexpectedEnd);
        }
        let bytes = slice_to_vec(slice_subrange(data, start, start + l as usize));
        *pos = start + l as usize;
        proof {
            assert(rest(data@, p).subrange(2, 2 + l) =~= bytes@);
        }
        Ok(NexQBuffer { bytes })
    }
}


/// The concatenated encodings of `v`'s elements.
pub open spec fn wire_items<T: NexType>(v: Seq<T::V>) -> Seq<u8>
    decreases v.len(),
{
    if v.len() == 0 {
        Seq::empty()
    } else {
        T::wire(v[0]) + wire_items::<T>(v.drop_first())
    }
}

/// Decodes `count` elements one after another from the start of `s`.
pub open spec fn parse_items<T: NexType>(s: Seq<u8>, count: nat) -> Result<
    (Seq<T::V>, nat),
    DecodeError,
>
    decreases count,
{
    if count == 0 {
        Ok((Seq::empty(), 0))
    } else {
        match T::parse(s) {
            Ok((x, n)) => match parse_items::<T>(s.subrange(n as int, s.len() as int), (count - 1) as nat) {
                Ok((xs, m)) => Ok((seq![x] + xs, n + m)),
                Err(e) => Err(e),
            },
            Err(e) => Err(e),
        }
    }
}

proof fn lemma_wire_items_push<T: NexType>(v: Seq<T::V>, x: T::V)
    ensures
        wire_items::<T>(v.push(x)) == wire_items::<T>(v) + T::wire(x),
    decreases v.len(),
{
    if v.len() == 0 {
        let w = v.push(x);
        assert(w[0] == x);
        assert(w.drop_first() =~= Seq::<T::V>::empty());
        assert(wire_items::<T>(w) == T::wire(x) + wire_items::<T>(w.drop_first()));
        assert(wire_items::<T>(w) =~= wire_items::<T>(v) + T::wire(x));
    } else {
        let w = v.push(x);
        assert(w[0] == v[0]);
        assert(w.drop_first() =~= v.drop_first().push(x));
        lemma_wire_items_push::<T>(v.drop_first(), x);
        assert(wire_items::<T>(w) == T::wire(v[0]) + wire_items::<T>(w.drop_first()));
        assert(wire_items::<T>(w) =~= wire_items::<T>(v) + T::wire(x));
    }
}

proof fn lemma_items_round_trip<T: NexType>(v: Seq<T::V>, more: Seq<u8>)
    requires
        forall|i: int| 0 <= i < v.len() ==> T::valid(#[trigger] v[i]),
    ensures
        parse_items::<T>(wire_items::<T>(v) + more, v.len()) == Ok::<(Seq<T::V>, nat), DecodeError>(
            (v, wire_items::<T>(v).len()),
        ),
    decreases v.len(),
{
    if v.len() == 0 {
        assert(wire_items::<T>(v) + more =~= more);
        assert(v =~= Seq::<T::V>::empty());
    } else {
        let w0 = T::wire(v[0]);
        let tail = v.drop_first();
        let wt = wire_items::<T>(tail);
        assert forall|i: int| 0 <= i < tail.len() implies T::valid(#[trigger] tail[i]) by {
            assert(tail[i] == v[i + 1]);
        }
        T::lemma_round_trip(v[0], wt + more);
        lemma_items_round_trip::<T>(tail, more);
        let s = wire_items::<T>(v) + more;
        assert(s =~= w0 + (wt + more));
        assert(s.subrange(w0.len() as int, s.len() as int) =~= wt + more);
        assert(seq![v[0]] + tail =~= v);
    }
}

/// A counted list: a 32-bit element count, then each element's encoding.
#[derive(Debug, Clone, PartialEq, Eq, Default)]
pub struct NexList<T> {
    pub items: Vec<T>,
}

impl<T: View> View for NexList<T> {
    type V = Seq<T::V>;

    open spec fn view(&self) -> Seq<T::V> {
        self.items@.map_values(|x: T| x@)
    }
}

impl<T> NexList<T> {
    pub fn new(items: Vec<T>) -> (r: NexList<T>)
        ensures
            r.items@ == items@,
    {
        NexList { items }
    }
}

impl<T: NexType> NexType for NexList<T> {
    open spec fn valid(v: Seq<T::V>) -> bool {
        &&& v.len() <= u32::MAX
        &&& forall|i: int| 0 <= i < v.len() ==> T::valid(#[trigger] v[i])
    }

    open spec fn wire(v: Seq<T::V>) -> Seq<u8> {
        le32(v.len() as u32) + wire_items::<T>(v)
    }

    open spec fn parse(s: Seq<u8>) -> Result<(Seq<T::V>, nat), DecodeError> {
        match <u32 as NexType>::parse(s) {
            Ok((count, n)) => match parse_items::<T>(s.subrange(n as int, s.len() as int), count as nat) {
                Ok((xs, m)) => Ok((xs, n + m)),
                Err(e) => Err(e),
            },
            Err(e) => Err(e),
        }
    }

    proof fn lemma_round_trip(v: Seq<T::V>, more: Seq<u8>) {
        let wi = wire_items::<T>(v);
        <u32 as NexType>::lemma_round_trip(v.len() as u32, wi + more);
        lemma_items_round_trip::<T>(v, more);
        let s = le32(v.len() as u32) + wi + more;
        assert(s =~= le32(v.len() as u32) + (wi + more));
        assert(s.subrange(4, s.len() as int) =~= wi + more);
    }

    fn encode(&self, out: &mut Vec<u8>) {
        let ghost v = self@;
        (self.items.len() as u32).encode(out);
        let ghost head = out@;
        let mut i: usize = 0;
        while i < self.items.len()
            invariant
                i <= self.items@.len(),
                v == self@,
                Self::valid(v),
                head == old(out)@ + le32(v.len() as u32),
                out@ == head + wire_items::<T>(v.subrange(0, i as int)),
            decreases self.items.len() - i,
        {
            assert(v[i as int] == self.items@[i as int]@);
            self.items[i].encode(out);
            proof {
                lemma_wire_items_push::<T>(v.subrange(0, i as int), v[i as int]);
                assert(v.subrange(0, i as int).push(v[i as int]) =~= v.subrange(0, i + 1));
            }
            i = i + 1;
        }
        assert(v.subrange(0, i as int) =~= v);
    }

    fn decode(data: &[u8], pos: &mut usize) -> (r: Result<NexList<T>, DecodeError>) {
        let ghost p = *pos as int;
        let count = match u32::decode(data, pos) {
            Ok(c) => c,
            Err(e) => return Err(e),
        };
        let ghost start = *pos as int;
        let ghost total = parse_items::<T>(rest(data@, start), count as nat);
        proof {
            lemma_rest_rest(data@, p, 4);
        }
        let mut items: Vec<T> = Vec::new();
        let mut i: u32 = 0;
        proof {
            assert(Seq::<T::V>::empty() + Seq::<T::V>::empty() =~= Seq::<T::V>::empty());
            match parse_items::<T>(rest(data@, start), count as nat) {
                Ok((xs, m)) => {
                    assert(items@.map_values(|x: T| x@) + xs =~= xs);
                },
                Err(e) => {},
            }
        }
        while i < count
            invariant
                start <= *pos <= data@.len(),
                start == p + 4,
                p == *old(pos),
                <u32 as NexType>::parse(rest(data@, p)) == Ok::<(u32, nat), DecodeError>(
                    (count, 4),
                ),
                rest(rest(data@, p), 4) == rest(data@, start),
                i <= count,
                total == parse_items::<T>(rest(data@, start), count as nat),
                match parse_items::<T>(rest(data@, *pos as int), (count - i) as nat) {
                    Ok((xs, m)) => total == Ok::<(Seq<T::V>, nat), DecodeError>(
                        (items@.map_values(|x: T| x@) + xs, ((*pos - start) + m) as nat),
                    ),
                    Err(e) => total == Err::<(Seq<T::V>, nat), DecodeError>(e),
                },
            decreases count - i,
        {
            let ghost q = *pos as int;
            let ghost before = items@.map_values(|x: T| x@);
            let x = match T::decode(data, pos) {
                Ok(x) => x,
                Err(e) => {
                    assert(parse_items::<T>(rest(data@, q), (count - i) as nat) == Err::<
                        (Seq<T::V>, nat),
                        DecodeError,
                    >(e));
                    return Err(e);
                },
            };
            proof {
                lemma_rest_rest(data@, q, *pos - q);
            }
            let ghost xv = x@;
            items.push(x);
            proof {
                assert(items@.map_values(|x: T| x@) =~= before.push(xv));
                match parse_items::<T>(rest(data@, *pos as int), (count - i - 1) as nat) {
                    Ok((xs, m)) => {
                        assert(before + (seq![xv] + xs) =~= before.push(xv) + xs);
                    },
                    Err(e) => {},
                }
            }
            i = i + 1;
        }
        proof {
            assert(items@.map_values(|x: T| x@) + Seq::<T::V>::empty() =~= items@.map_values(
                |x: T| x@,
            ));
        }
        Ok(NexList { items })
    }
}

/// A timestamp packed into one 64-bit integer.
#[derive(Debug, Clone, Copy, PartialEq, Eq, Default)]
pub struct DateTime {
    pub value: u64,
}

impl View for DateTime {
    type V = u64;

    open spec fn view(&self) -> u64 {
        self.value
    }
}

impl NexType for DateTime {
    open spec fn valid(v: u64) -> bool {
        true
    }

    open spec fn wire(v: u64) -> Seq<u8> {
        <u64 as NexType>::wire(v)
    }

    open spec fn parse(s: Seq<u8>) -> Result<(u64, nat), DecodeError> {
        <u64 as NexType>::parse(s)
    }

    proof fn lemma_round_trip(v: u64, more: Seq<u8>) {
        <u64 as NexType>::lemma_round_trip(v, more);
    }

    fn encode(&self, out: &mut Vec<u8>) {
        self.value.encode(out);
    }

    fn decode(data: &[u8], pos: &mut usize) -> (r: Result<DateTime, DecodeError>) {
        match u64::decode(data, pos) {
            Ok(value) => Ok(DateTime { value }),
            Err(e) => Err(e),
        }
    }
}

/// A result code: the top bit set means success, the rest is a category
/// and a code.
#[derive(Debug, Clone, Copy, PartialEq, Eq, Default)]
pub struct ResultCode {
    pub code: u32,
}

/// The success flag of a result code.
pub open spec fn code_is_success(code: u32) -> bool {
    code & 0x8000_0000u32 != 0
}

impl ResultCode {
    pub fn is_success(&self) -> (r: bool)
        ensures
            r == code_is_success(self.code),
    {
        self.code & 0x8000_0000u32 != 0
    }
}

impl View for ResultCode {
    type V = u32;

    open spec fn view(&self) -> u32 {
        self.code
    }
}

impl NexType for ResultCode {
    open spec fn valid(v: u32) -> bool {
        true
    }

    open spec fn wire(v: u32) -> Seq<u8> {
        <u32 as NexType>::wire(v)
    }

    open spec fn parse(s: Seq<u8>) -> Result<(u32, nat), DecodeError> {
        <u32 as NexType>::parse(s)
    }

    proof fn lemma_round_trip(v: u32, more: Seq<u8>) {
        <u32 as NexType>::lemma_round_trip(v, more);
    }

    fn encode(&self, out: &mut Vec<u8>) {
        self.code.encode(out);
    }

    fn decode(data: &[u8], pos: &mut usize) -> (r: Result<ResultCode, DecodeError>) {
        match u32::decode(data, pos) {
            Ok(code) => Ok(ResultCode { code }),
            Err(e) => Err(e),
        }
    }
}

/// A window of results: an offset and a length.
#[derive(Debug, Clone, Copy, PartialEq, Eq, Default)]
pub struct ResultRange {
    pub offset: u32,
    pub length: u32,
}

impl View for ResultRange {
    type V = (u32, u32);

    open spec fn view(&self) -> (u32, u32) {
        (self.offset, self.length)
    }
}

impl NexType for ResultRange {
    open spec fn valid(v: (u32, u32)) -> bool {
        true
    }

    open spec fn wire(v: (u32, u32)) -> Seq<u8> {
        <(u32, u32) as NexType>::wire(v)
    }

    open spec fn parse(s: Seq<u8>) -> Result<((u32, u32), nat), DecodeError> {
        <(u32, u32) as NexType>::parse(s)
    }

    proof fn lemma_round_trip(v: (u32, u32), more: Seq<u8>) {
        <(u32, u32) as NexType>::lemma_round_trip(v, more);
    }

    fn encode(&self, out: &mut Vec<u8>) {
        self.offset.encode(out);
        self.length.encode(out);
    }

    fn decode(data: &[u8], pos: &mut usize) -> (r: Result<ResultRange, DecodeError>) {
        match <(u32, u32)>::decode(data, pos) {
            Ok((offset, length)) => Ok(ResultRange { offset, length }),
            Err(e) => Err(e),
        }
    }
}


/// Whether two byte strings are equal.
pub fn bytes_equal(a: &[u8], b: &[u8]) -> (r: bool)
    ensures
        r == (a@ == b@),
{
    if a.len() != b.len() {
        return false;
    }
    let mut i: usize = 0;
    while i < a.len()
        invariant
            a@.len() == b@.len(),
            i <= a@.len(),
            a@.subrange(0, i as int) == b@.subrange(0, i as int),
        decreases a.len() - i,
    {
        if a[i] != b[i] {
            assert(a@[i as int] != b@[i as int]);
            return false;
        }
        assert(a@.subrange(0, i + 1) =~= a@.subrange(0, i as int).push(a@[i as int]));
        assert(b@.subrange(0, i + 1) =~= b@.subrange(0, i as int).push(b@[i as int]));
        i = i + 1;
    }
    assert(a@ =~= a@.subrange(0, i as int));
    assert(b@ =~= b@.subrange(0, i as int));
    true
}

/// A self-describing envelope: a type-name tag, then the byte length of
/// the payload, then the payload, which holds the encoding of `object`.
#[derive(Debug, Clone, PartialEq, Eq, Default)]
pub struct DataHolder<T> {
    pub name: NexString,
    pub object: T,
}

/// The bytes of a data holder tagged `name` around `v`.
pub open spec fn holder_wire<T: NexType>(name: Seq<u8>, v: T::V) -> Seq<u8> {
    <NexString as NexType>::wire(name) + <NexBuffer as NexType>::wire(T::wire(v))
}

/// A tag and a payload that a data holder can carry.
pub open spec fn holder_valid<T: NexType>(name: Seq<u8>, v: T::V) -> bool {
    &&& <NexString as NexType>::valid(name)
    &&& T::valid(v)
    &&& T::wire(v).len() <= u32::MAX
}

/// Decoding of a data holder's envelope that must be tagged `expected`:
/// the tag is checked first, then the payload is read whole. Gives the
/// payload bytes and the number of bytes taken.
pub open spec fn parse_envelope(s: Seq<u8>, expected: Seq<u8>) -> Result<(Seq<u8>, nat), DecodeError> {
    match <NexString as NexType>::parse(s) {
        Ok((name, n)) => if name != expected {
            Err(DecodeError::InvalidTag)
        } else {
            match <NexBuffer as NexType>::parse(s.subrange(n as int, s.len() as int)) {
                Ok((payload, m)) => Ok((payload, n + m)),
                Err(e) => Err(e),
            }
        },
        Err(e) => Err(e),
    }
}

/// Decoding of a data holder that must be tagged `expected`: its envelope,
/// then the value decoded from the payload.
pub open spec fn parse_holder<T: NexType>(s: Seq<u8>, expected: Seq<u8>) -> Result<
    (T::V, nat),
    DecodeError,
> {
    match parse_envelope(s, expected) {
        Ok((payload, n)) => match T::parse(payload) {
            Ok((v, k)) => Ok((v, n)),
            Err(e) => Err(e),
        },
        Err(e) => Err(e),
    }
}

/// A data holder decodes to the value it was encoded from, when the tag
/// expected is the one it carries; its envelope holds exactly the value's
/// encoding.
pub proof fn lemma_holder_round_trip<T: NexType>(name: Seq<u8>, v: T::V, more: Seq<u8>)
    requires
        holder_valid::<T>(name, v),
    ensures
        parse_envelope(holder_wire::<T>(name, v) + more, name) == Ok::<(Seq<u8>, nat), DecodeError>(
            (T::wire(v), holder_wire::<T>(name, v).len()),
        ),
        parse_holder::<T>(holder_wire::<T>(name, v) + more, name) == Ok::<(T::V, nat), DecodeError>(
            (v, holder_wire::<T>(name, v).len()),
        ),
{
    let wn = <NexString as NexType>::wire(name);
    let wv = T::wire(v);
    let wb = <NexBuffer as NexType>::wire(wv);
    <NexString as NexType>::lemma_round_trip(name, wb + more);
    <NexBuffer as NexType>::lemma_round_trip(wv, more);
    T::lemma_round_trip(v, Seq::empty());
    assert(wv + Seq::<u8>::empty() =~= wv);
    let s = wn + wb + more;
    assert(s =~= wn + (wb + more));
    assert(s.subrange(wn.len() as int, s.len() as int) =~= wb + more);
}

/// A data holder whose tag is not the expected one fails with
/// `InvalidTag`, whatever its payload.
pub proof fn lemma_holder_tag_mismatch<T: NexType>(
    name: Seq<u8>,
    expected: Seq<u8>,
    v: T::V,
    more: Seq<u8>,
)
    requires
        <NexString as NexType>::valid(name),
        name != expected,
    ensures
        parse_envelope(holder_wire::<T>(name, v) + more, expected) == Err::<(Seq<u8>, nat), DecodeError>(
            DecodeError::InvalidTag,
        ),
        parse_holder::<T>(holder_wire::<T>(name, v) + more, expected) == Err::<
            (T::V, nat),
            DecodeError,
        >(DecodeError::InvalidTag),
{
    let wn = <NexString as NexType>::wire(name);
    let wb = <NexBuffer as NexType>::wire(T::wire(v));
    <NexString as NexType>::lemma_round_trip(name, wb + more);
    assert(wn + wb + more =~= wn + (wb + more));
}

/// Decodes a data holder's envelope at `*pos` that must be tagged
/// `expected`, and gives its payload.
pub fn decode_envelope(data: &[u8], pos: &mut usize, expected: &[u8]) -> (r: Result<
    NexBuffer,
    DecodeError,
>)
    requires
        *old(pos) <= data@.len(),
    ensures
        *final(pos) <= data@.len(),
        match parse_envelope(rest(data@, *old(pos) as int), expected@) {
            Ok((payload, n)) => r is Ok && r->Ok_0@ == payload && *final(pos) == *old(pos) + n,
            Err(e) => r is Err && r->Err_0 == e,
        },
{
    let ghost p = *pos as int;
    let name = match NexString::decode(data, pos) {
        Ok(name) => name,
        Err(e) => return Err(e),
    };
    if !bytes_equal(name.bytes.as_slice(), expected) {
        return Err(DecodeError::InvalidTag);
    }
    let ghost q = *pos as int;
    proof {
        lemma_rest_rest(data@, p, q - p);
    }
    NexBuffer::decode(data, pos)
}

impl<T: NexType> DataHolder<T> {
    /// Appends the data holder's encoding to `out`.
    pub fn encode(&self, out: &mut Vec<u8>)
        requires
            holder_valid::<T>(self.name@, self.object@),
        ensures
            final(out)@ == old(out)@ + holder_wire::<T>(self.name@, self.object@),
    {
        self.name.encode(out);
        let mut body: Vec<u8> = Vec::new();
        self.object.encode(&mut body);
        assert(body@ =~= T::wire(self.object@));
        let payload = NexBuffer { bytes: body };
        payload.encode(out);
        assert(out@ =~= old(out)@ + holder_wire::<T>(self.name@, self.object@));
    }

    /// Decodes a data holder at `*pos` that must be tagged `expected`.
    pub fn decode(data: &[u8], pos: &mut usize, expected: &[u8]) -> (r: Result<
        DataHolder<T>,
        DecodeError,
    >)
        requires
            *old(pos) <= data@.len(),
        ensures
            *final(pos) <= data@.len(),
            match parse_holder::<T>(rest(data@, *old(pos) as int), expected@) {
                Ok((v, n)) => r is Ok && r->Ok_0.object@ == v && r->Ok_0.name@ == expected@
                    && *final(pos) == *old(pos) + n,
                Err(e) => r is Err && r->Err_0 == e,
            },
    {
        let payload = match decode_envelope(data, pos, expected) {
            Ok(b) => b,
            Err(e) => return Err(e),
        };
        let mut inner: usize = 0;
        assert(rest(payload.bytes@, 0) =~= payload.bytes@);
        let object = match T::decode(payload.bytes.as_slice(), &mut inner) {
            Ok(o) => o,
            Err(e) => return Err(e),
        };
        Ok(DataHolder { name: NexString { bytes: slice_to_vec(expected) }, object })
    }
}

} // verus!
