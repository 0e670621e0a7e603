use vstd::prelude::*;

use crate::reader::{
    bits_val, bytes_at, lemma_aligned_bytes, lemma_bits_val_bound, pow2, remaining, BitReader, DecodeError,
};

verus! {

/// The expected tag of an optional IE: a full byte, or for Type 1 a half octet.
#[derive(Clone, Copy, Debug, PartialEq, Eq, Structural)]
pub struct Tag(pub u8);

/// Raw bytes of an IE whose contents are kept undecoded.
#[derive(Clone, Debug)]
pub struct Layer3Buffer {
    pub buf: Vec<u8>,
}

impl From<Tag> for u8 {
    fn from(t: Tag) -> (r: u8)
        ensures
            r == t.0,
    {
        t.0
    }
}

impl vstd::std_specs::convert::FromSpecImpl<Tag> for u8 {
    open spec fn obeys_from_spec() -> bool {
        true
    }

    open spec fn from_spec(t: Tag) -> u8 {
        t.0
    }
}

/// A buffer equals a vector holding the same bytes.
impl PartialEq<Vec<u8>> for Layer3Buffer {
    fn eq(&self, other: &Vec<u8>) -> (r: bool)
        ensures
            r == (self.buf@ == other@),
    {
        if self.buf.len() != other.len() {
            return false;
        }
        let mut i: usize = 0;
        while i < self.buf.len()
            invariant
                self.buf@.len() == other@.len(),
                i <= self.buf@.len(),
                forall|j: int| 0 <= j < i ==> self.buf@[j] == other@[j],
            decreases self.buf@.len() - i,
        {
            if self.buf[i] != other[i] {
                return false;
            }
            i = i + 1;
        }
        proof {
            assert(self.buf@ =~= other@);
        }
        true
    }
}

impl vstd::std_specs::cmp::PartialEqSpecImpl<Vec<u8>> for Layer3Buffer {
    open spec fn obeys_eq_spec() -> bool {
        true
    }

    open spec fn eq_spec(&self, other: &Vec<u8>) -> bool {
        self.buf@ == other@
    }
}

/// The container formats of Layer-3 information elements, as a schema gives them.
#[derive(Clone, Copy, Debug, PartialEq, Eq, Structural)]
pub enum IeFormat {
    /// Type 1 V: a half octet.
    V1,
    /// Type 1 TV: a half-octet tag and a half-octet value, optional.
    TV1(u8),
    /// Type 2: a tag byte alone, optional.
    T2(u8),
    /// Type 3 V: a value of a fixed number of bytes.
    V3(usize),
    /// Type 3 TV: a tag byte and a value of a fixed number of bytes, optional.
    TV3(u8, usize),
    /// Type 4 LV: a length byte and that many bytes.
    LV4,
    /// Type 4 TLV: a tag byte, a length byte and that many bytes, optional.
    TLV4(u8),
    /// Type 6 LV-E: a big-endian 16-bit length and that many bytes.
    LVE6,
    /// Type 6 TLV-E: a tag byte, a 16-bit length and that many bytes, optional.
    TLVE6(u8),
}

pub open spec fn at_end(d: Seq<u8>, p: nat) -> bool {
    p >= 8 * d.len()
}

/// A tag check does not fail: the input has ended, or a whole byte is left.
pub open spec fn tag_ok(d: Seq<u8>, p: nat) -> bool {
    at_end(d, p) || remaining(d, p) >= 8
}

/// The byte at `p` is there and equals `tag`.
pub open spec fn tag_hit(d: Seq<u8>, p: nat, tag: u8) -> bool {
    !at_end(d, p) && remaining(d, p) >= 8 && bits_val(d, p, 8) == tag
}

/// The half octet at `p` is there and equals `tag`.
pub open spec fn nibble_hit(d: Seq<u8>, p: nat, tag: u8) -> bool {
    !at_end(d, p) && remaining(d, p) >= 8 && bits_val(d, p, 4) == tag
}

/// A length prefix of `w` bits at `p`, and the bytes it announces, are all there.
pub open spec fn lv_ok(d: Seq<u8>, p: nat, w: nat) -> bool {
    remaining(d, p) >= w && remaining(d, p) >= w + 8 * bits_val(d, p, w)
}

/// Whether decoding an IE of format `f` at `p` succeeds.
pub open spec fn ie_ok(d: Seq<u8>, p: nat, f: IeFormat) -> bool {
    match f {
        IeFormat::V1 => remaining(d, p) >= 4,
        IeFormat::TV1(t) => at_end(d, p) || remaining(d, p) >= 8 || (remaining(d, p) >= 4
            && bits_val(d, p, 4) != t),
        IeFormat::T2(_) => tag_ok(d, p),
        IeFormat::V3(n) => remaining(d, p) >= 8 * n,
        IeFormat::TV3(t, n) => tag_ok(d, p) && (tag_hit(d, p, t) ==> remaining(d, p + 8) >= 8 * n),
        IeFormat::LV4 => lv_ok(d, p, 8),
        IeFormat::TLV4(t) => tag_ok(d, p) && (tag_hit(d, p, t) ==> lv_ok(d, p + 8, 8)),
        IeFormat::LVE6 => lv_ok(d, p, 16),
        IeFormat::TLVE6(t) => tag_ok(d, p) && (tag_hit(d, p, t) ==> lv_ok(d, p + 8, 16)),
    }
}

/// The position after an IE of format `f` decoded at `p`.
pub open spec fn ie_next(d: Seq<u8>, p: nat, f: IeFormat) -> nat {
    match f {
        IeFormat::V1 => p + 4,
        IeFormat::TV1(t) => if nibble_hit(d, p, t) { p + 8 } else { p },
        IeFormat::T2(t) => if tag_hit(d, p, t) { p + 8 } else { p },
        IeFormat::V3(n) => p + 8 * (n as nat),
        IeFormat::TV3(t, n) => if tag_hit(d, p, t) { p + 8 + 8 * (n as nat) } else { p },
        IeFormat::LV4 => p + 8 + 8 * bits_val(d, p, 8),
        IeFormat::TLV4(t) => if tag_hit(d, p, t) { p + 16 + 8 * bits_val(d, p + 8, 8) } else { p },
        IeFormat::LVE6 => p + 16 + 8 * bits_val(d, p, 16),
        IeFormat::TLVE6(t) => if tag_hit(d, p, t) { p + 24 + 8 * bits_val(d, p + 8, 16) } else { p },
    }
}

/// What an IE's value holds once decoded. A container reads its value into a
/// buffer of its own and decodes the payload from a fresh reader over it; what
/// the payload leaves unread there is dropped.
pub trait Payload: Sized {
    /// Decoding from bit `p` of `d` succeeds.
    spec fn parses(d: Seq<u8>, p: nat) -> bool;

    /// `self` is what decoding from bit `p` of `d` gives.
    spec fn parsed_from(self, d: Seq<u8>, p: nat) -> bool;

    fn decode(reader: &mut BitReader) -> (r: Result<Self, DecodeError>)
        requires
            old(reader).wf(),
        ensures
            final(reader).wf(),
            final(reader).data() == old(reader).data(),
            r.is_ok() == Self::parses(old(reader).data(), old(reader).pos()),
            r matches Ok(v) ==> v.parsed_from(old(reader).data(), old(reader).pos()),
    ;
}

/// Byte order of a multi-byte value inside an IE, as a schema gives it.
#[derive(Clone, Copy, Debug, PartialEq, Eq, Structural)]
pub enum Endian {
    Little,
    Big,
}

/// A payload whose decoding depends on a byte order handed down by the schema.
pub trait EndianPayload: Sized {
    /// Decoding from bit `p` of `d` in byte order `e` succeeds.
    spec fn parses_endian(d: Seq<u8>, p: nat, e: Endian) -> bool;

    /// `self` is what decoding from bit `p` of `d` in byte order `e` gives.
    spec fn parsed_from_endian(self, d: Seq<u8>, p: nat, e: Endian) -> bool;

    fn decode_endian(reader: &mut BitReader, endian: Endian) -> (r: Result<Self, DecodeError>)
        requires
            old(reader).wf(),
        ensures
            final(reader).wf(),
            final(reader).data() == old(reader).data(),
            r.is_ok() == Self::parses_endian(old(reader).data(), old(reader).pos(), endian),
            r matches Ok(v) ==> v.parsed_from_endian(old(reader).data(), old(reader).pos(), endian),
            r matches Err(e) ==> e == DecodeError::ShortRead,
    ;
}

/// A two-byte integer in the given byte order.
impl EndianPayload for u16 {
    open spec fn parses_endian(d: Seq<u8>, p: nat, e: Endian) -> bool {
        remaining(d, p) >= 16
    }

    open spec fn parsed_from_endian(self, d: Seq<u8>, p: nat, e: Endian) -> bool {
        match e {
            Endian::Big => self == bits_val(d, p, 16),
            Endian::Little => self == bits_val(d, p + 8, 8) * 256 + bits_val(d, p, 8),
        }
    }

    fn decode_endian(reader: &mut BitReader, endian: Endian) -> (r: Result<Self, DecodeError>) {
        if !reader.has_bits(16) {
            return Err(DecodeError::ShortRead);
        }
        match endian {
            Endian::Big => reader.read_bits(16),
            Endian::Little => {
                let lo = reader.read_u8()?;
                let hi = reader.read_u8()?;
                Ok(hi as u16 * 256 + lo as u16)
            },
        }
    }
}

/// A payload with nothing in it, for containers whose value is all there is.
#[derive(Clone, Copy, Debug, PartialEq, Eq, Structural)]
pub struct NoneType;

impl Payload for NoneType {
    open spec fn parses(d: Seq<u8>, p: nat) -> bool {
        true
    }

    open spec fn parsed_from(self, d: Seq<u8>, p: nat) -> bool {
        true
    }

    fn decode(reader: &mut BitReader) -> (r: Result<Self, DecodeError>) {
        Ok(NoneType)
    }
}

impl Payload for Layer3Buffer {
    open spec fn parses(d: Seq<u8>, p: nat) -> bool {
        true
    }

    /// Every whole byte left.
    open spec fn parsed_from(self, d: Seq<u8>, p: nat) -> bool {
        self.buf@ == bytes_at(d, p, (remaining(d, p) / 8) as nat)
    }

    fn decode(reader: &mut BitReader) -> (r: Result<Self, DecodeError>) {
        let n = reader.whole_bytes_left();
        let buf = reader.read_bytes(n)?;
        Ok(Layer3Buffer { buf })
    }
}

/// Identity type 2 (TS 24.008, 10.5.5.9): the identity a network asks for, a
/// half octet. The other values are reserved and rejected.
#[derive(Clone, Copy, Debug, PartialEq, Eq, Structural)]
pub enum IdentityType {
    IMSI,
    IMEI,
    IMEISV,
    TMSI,
}

impl IdentityType {
    /// The identity type coded as `n`, if any.
    pub open spec fn spec_from_code(n: nat) -> Option<IdentityType> {
        if n == 1 {
            Some(IdentityType::IMSI)
        } else if n == 2 {
            Some(IdentityType::IMEI)
        } else if n == 3 {
            Some(IdentityType::IMEISV)
        } else if n == 4 {
            Some(IdentityType::TMSI)
        } else {
            None
        }
    }
}

impl Payload for IdentityType {
    open spec fn parses(d: Seq<u8>, p: nat) -> bool {
        remaining(d, p) >= 4 && IdentityType::spec_from_code(bits_val(d, p, 4)) is Some
    }

    open spec fn parsed_from(self, d: Seq<u8>, p: nat) -> bool {
        IdentityType::spec_from_code(bits_val(d, p, 4)) == Some(self)
    }

    /// Fails with `UnknownValue` on a reserved value.
    fn decode(reader: &mut BitReader) -> (r: Result<Self, DecodeError>) {
        let ghost d = reader.data();
        let ghost p = reader.pos();
        let v = reader.read_bits(4)?;
        proof {
            lemma_nibble_bound(d, p);
        }
        match v {
            1 => Ok(IdentityType::IMSI),
            2 => Ok(IdentityType::IMEI),
            3 => Ok(IdentityType::IMEISV),
            4 => Ok(IdentityType::TMSI),
            _ => Err(DecodeError::UnknownValue(v as u8)),
        }
    }
}

/// Type 1 V: a mandatory half-octet value.
#[derive(Clone, Copy, Debug, PartialEq, Eq, Structural)]
pub struct Type1V<T> {
    pub v: u8,
    pub inner: T,
}

/// Type 1 TV: an optional half-octet value behind a half-octet tag.
#[derive(Clone, Copy, Debug, PartialEq, Eq, Structural)]
pub struct Type1TV<T> {
    pub tag: u8,
    pub v: u8,
    pub inner: Option<T>,
}

/// Type 2: an optional tag byte with no value.
#[derive(Clone, Copy, Debug, PartialEq, Eq, Structural)]
pub struct Type2 {
    pub tag: u8,
    pub present: bool,
}

/// Type 3 V: a mandatory value of a fixed number of bytes.
#[derive(Clone, Debug)]
pub struct Type3V<T> {
    pub inner: T,
}

/// Type 3 TV: an optional fixed-length value behind a tag byte.
#[derive(Clone, Debug)]
pub struct Type3TV<T> {
    pub tag: u8,
    pub inner: Option<T>,
}

/// Type 4 LV: a mandatory value with a one-byte length.
#[derive(Clone, Debug)]
pub struct Type4LV<T> {
    pub length: u8,
    pub inner: T,
}

/// Type 4 TLV: an optional value with a tag byte and a one-byte length.
#[derive(Clone, Debug)]
pub struct Type4TLV<T> {
    pub tag: u8,
    pub length: u8,
    pub inner: Option<T>,
}

/// Type 6 LV-E: a mandatory value with a big-endian two-byte length.
#[derive(Clone, Debug)]
pub struct Type6LVE<T> {
    pub length: u16,
    pub inner: T,
}

/// Type 6 TLV-E: an optional value with a tag byte and a two-byte length.
#[derive(Clone, Debug)]
pub struct Type6TLVE<T> {
    pub tag: u8,
    pub length: u16,
    pub inner: Option<T>,
}

/// The one-byte buffer that a half-octet value is decoded from: high half zero.
pub open spec fn half_octet_buf(v: nat) -> Seq<u8> {
    seq![v as u8]
}

/// `inner` holds what `T` decodes from the `n` bytes at bit `p`.
pub open spec fn sub_parsed<T: Payload>(inner: Option<T>, d: Seq<u8>, p: nat, n: nat) -> bool {
    inner matches Some(x) && x.parsed_from(bytes_at(d, p, n), 0)
}

impl<T: Payload> Type1V<T> {
    pub open spec fn inner_ok(d: Seq<u8>, p: nat) -> bool {
        T::parses(half_octet_buf(bits_val(d, p, 4)), 4)
    }

    pub open spec fn decoded_at(self, d: Seq<u8>, p: nat) -> bool {
        &&& self.v == bits_val(d, p, 4)
        &&& self.inner.parsed_from(half_octet_buf(self.v as nat), 4)
    }

    pub fn from_reader_with_ctx(reader: &mut BitReader) -> (r: Result<Self, DecodeError>)
        requires
            old(reader).wf(),
        ensures
            final(reader).wf(),
            final(reader).data() == old(reader).data(),
            r.is_ok() == (ie_ok(
                old(reader).data(),
                old(reader).pos(),
                IeFormat::V1,
            ) && Self::inner_ok(old(reader).data(), old(reader).pos())),
            r matches Ok(v) ==> v.decoded_at(old(reader).data(), old(reader).pos()),
            r matches Ok(_) ==> final(reader).pos() == ie_next(
                old(reader).data(),
                old(reader).pos(),
                IeFormat::V1,
            ),
            r matches Err(e) ==> e == DecodeError::ShortRead || !Self::inner_ok(
                old(reader).data(),
                old(reader).pos(),
            ),
    {
        let v = reader.read_bits(4)?;
        proof {
            lemma_nibble_bound(old(reader).data(), old(reader).pos());
        }
        let inner = decode_half_octet(v as u8)?;
        Ok(Type1V { v: v as u8, inner })
    }
}

impl<T: Payload> Type1TV<T> {
    pub open spec fn inner_ok(d: Seq<u8>, p: nat, tag: u8) -> bool {
        nibble_hit(d, p, tag) ==> T::parses(half_octet_buf(bits_val(d, p + 4, 4)), 4)
    }

    pub open spec fn decoded_at(self, d: Seq<u8>, p: nat) -> bool {
        if nibble_hit(d, p, self.tag) {
            &&& self.v == bits_val(d, p + 4, 4)
            &&& self.inner matches Some(x) && x.parsed_from(half_octet_buf(self.v as nat), 4)
        } else {
            self.v == 0 && self.inner is None
        }
    }

    pub fn from_reader_with_ctx(reader: &mut BitReader, tag: Tag) -> (r: Result<Self, DecodeError>)
        requires
            old(reader).wf(),
        ensures
            final(reader).wf(),
            final(reader).data() == old(reader).data(),
            r.is_ok() == (ie_ok(
                old(reader).data(),
                old(reader).pos(),
                IeFormat::TV1(tag.0),
            ) && Self::inner_ok(old(reader).data(), old(reader).pos(), tag.0)),
            r matches Ok(v) ==> v.decoded_at(old(reader).data(), old(reader).pos()) && v.tag == tag.0,
            r matches Ok(_) ==> final(reader).pos() == ie_next(
                old(reader).data(),
                old(reader).pos(),
                IeFormat::TV1(tag.0),
            ),
            r matches Ok(v) && v.inner is None ==> final(reader).pos() == old(reader).pos(),
            r matches Err(e) ==> e == DecodeError::ShortRead || !Self::inner_ok(
                old(reader).data(),
                old(reader).pos(),
                tag.0,
            ),
    {
        let ghost d = reader.data();
        let ghost p = reader.pos();
        if reader.end() {
            return Ok(Type1TV { tag: tag.0, v: 0, inner: None });
        }
        let mark = reader.bookmark();
        let t = reader.read_bits(4)?;
        if t != tag.0 as u16 {
            // the half octet is another IE's tag: rewind the whole octet
            reader.seek_absolute(mark);
            return Ok(Type1TV { tag: tag.0, v: 0, inner: None });
        }
        let v = reader.read_bits(4)?;
        proof {
            lemma_nibble_bound(d, p + 4);
        }
        let inner = decode_half_octet(v as u8)?;
        Ok(Type1TV { tag: tag.0, v: v as u8, inner: Some(inner) })
    }
}

impl Type2 {
    pub open spec fn decoded_at(self, d: Seq<u8>, p: nat) -> bool {
        self.present == tag_hit(d, p, self.tag)
    }

    pub fn from_reader_with_ctx(reader: &mut BitReader, tag: Tag) -> (r: Result<Self, DecodeError>)
        requires
            old(reader).wf(),
        ensures
            final(reader).wf(),
            final(reader).data() == old(reader).data(),
            r.is_ok() == ie_ok(old(reader).data(), old(reader).pos(), IeFormat::T2(tag.0)),
            r matches Ok(v) ==> v.decoded_at(old(reader).data(), old(reader).pos()) && v.tag == tag.0,
            r matches Ok(_) ==> final(reader).pos() == ie_next(
                old(reader).data(),
                old(reader).pos(),
                IeFormat::T2(tag.0),
            ),
            r matches Ok(v) && !v.present ==> final(reader).pos() == old(reader).pos(),
            r matches Err(e) ==> e == DecodeError::ShortRead,
    {
        let present = check_tag(reader, tag)?;
        Ok(Type2 { tag: tag.0, present })
    }
}

impl<T: Payload> Type3V<T> {
    pub open spec fn inner_ok(d: Seq<u8>, p: nat, n: nat) -> bool {
        T::parses(bytes_at(d, p, n), 0)
    }

    pub open spec fn decoded_at(self, d: Seq<u8>, p: nat, n: nat) -> bool {
        self.inner.parsed_from(bytes_at(d, p, n), 0)
    }

    pub fn from_reader_with_ctx(reader: &mut BitReader, byte_size: usize) -> (r: Result<Self, DecodeError>)
        requires
            old(reader).wf(),
        ensures
            final(reader).wf(),
            final(reader).data() == old(reader).data(),
            r.is_ok() == (ie_ok(
                old(reader).data(),
                old(reader).pos(),
                IeFormat::V3(byte_size),
            ) && Self::inner_ok(old(reader).data(), old(reader).pos(), byte_size as nat)),
            r matches Ok(v) ==> v.decoded_at(old(reader).data(), old(reader).pos(), byte_size as nat),
            r matches Ok(_) ==> final(reader).pos() == ie_next(
                old(reader).data(),
                old(reader).pos(),
                IeFormat::V3(byte_size),
            ),
            r matches Err(e) ==> e == DecodeError::ShortRead || !Self::inner_ok(
                old(reader).data(),
                old(reader).pos(),
                byte_size as nat,
            ),
    {
        let buf = read_buffer(reader, byte_size)?;
        let inner = decode_sub(&buf)?;
        Ok(Type3V { inner })
    }
}

impl<T: Payload> Type3TV<T> {
    pub open spec fn inner_ok(d: Seq<u8>, p: nat, n: nat, tag: u8) -> bool {
        tag_hit(d, p, tag) ==> T::parses(bytes_at(d, p + 8, n), 0)
    }

    pub open spec fn decoded_at(self, d: Seq<u8>, p: nat, n: nat) -> bool {
        if tag_hit(d, p, self.tag) {
            sub_parsed(self.inner, d, p + 8, n)
        } else {
            self.inner is None
        }
    }

    pub fn from_reader_with_ctx(reader: &mut BitReader, byte_size: usize, tag: Tag) -> (r: Result<Self, DecodeError>)
        requires
            old(reader).wf(),
        ensures
            final(reader).wf(),
            final(reader).data() == old(reader).data(),
            r.is_ok() == (ie_ok(
                old(reader).data(),
                old(reader).pos(),
                IeFormat::TV3(tag.0, byte_size),
            ) && Self::inner_ok(old(reader).data(), old(reader).pos(), byte_size as nat, tag.0)),
            r matches Ok(v) ==> v.decoded_at(old(reader).data(), old(reader).pos(), byte_size as nat) && v.tag == tag.0,
            r matches Ok(_) ==> final(reader).pos() == ie_next(
                old(reader).data(),
                old(reader).pos(),
                IeFormat::TV3(tag.0, byte_size),
            ),
            r matches Ok(v) && v.inner is None ==> final(reader).pos() == old(reader).pos(),
            r matches Err(e) ==> e == DecodeError::ShortRead || !Self::inner_ok(
                old(reader).data(),
                old(reader).pos(),
                byte_size as nat,
                tag.0,
            ),
    {
        if !check_tag(reader, tag)? {
            return Ok(Type3TV { tag: tag.0, inner: None });
        }
        let buf = read_buffer(reader, byte_size)?;
        let inner = decode_sub(&buf)?;
        Ok(Type3TV { tag: tag.0, inner: Some(inner) })
    }
}

impl<T: Payload> Type4LV<T> {
    pub open spec fn inner_ok(d: Seq<u8>, p: nat) -> bool {
        T::parses(bytes_at(d, p + 8, bits_val(d, p, 8)), 0)
    }

    pub open spec fn decoded_at(self, d: Seq<u8>, p: nat) -> bool {
        &&& self.length == bits_val(d, p, 8)
        &&& self.inner.parsed_from(bytes_at(d, p + 8, self.length as nat), 0)
    }

    pub fn from_reader_with_ctx(reader: &mut BitReader) -> (r: Result<Self, DecodeError>)
        requires
            old(reader).wf(),
        ensures
            final(reader).wf(),
            final(reader).data() == old(reader).data(),
            r.is_ok() == (ie_ok(
                old(reader).data(),
                old(reader).pos(),
                IeFormat::LV4,
            ) && Self::inner_ok(old(reader).data(), old(reader).pos())),
            r matches Ok(v) ==> v.decoded_at(old(reader).data(), old(reader).pos()),
            r matches Ok(_) ==> final(reader).pos() == ie_next(
                old(reader).data(),
                old(reader).pos(),
                IeFormat::LV4,
            ),
            r matches Err(e) ==> e == DecodeError::ShortRead || !Self::inner_ok(
                old(reader).data(),
                old(reader).pos(),
            ),
    {
        let length = reader.read_u8()?;
        let buf = read_buffer(reader, length as usize)?;
        let inner = decode_sub(&buf)?;
        Ok(Type4LV { length, inner })
    }
}

impl<T: Payload> Type4TLV<T> {
    pub open spec fn inner_ok(d: Seq<u8>, p: nat, tag: u8) -> bool {
        tag_hit(d, p, tag) ==> T::parses(bytes_at(d, p + 16, bits_val(d, p + 8, 8)), 0)
    }

    pub open spec fn decoded_at(self, d: Seq<u8>, p: nat) -> bool {
        if tag_hit(d, p, self.tag) {
            &&& self.length == bits_val(d, p + 8, 8)
            &&& sub_parsed(self.inner, d, p + 16, self.length as nat)
        } else {
            self.length == 0 && self.inner is None
        }
    }

    pub fn from_reader_with_ctx(reader: &mut BitReader, tag: Tag) -> (r: Result<Self, DecodeError>)
        requires
            old(reader).wf(),
        ensures
            final(reader).wf(),
            final(reader).data() == old(reader).data(),
            r.is_ok() == (ie_ok(
                old(reader).data(),
                old(reader).pos(),
                IeFormat::TLV4(tag.0),
            ) && Self::inner_ok(old(reader).data(), old(reader).pos(), tag.0)),
            r matches Ok(v) ==> v.decoded_at(old(reader).data(), old(reader).pos()) && v.tag == tag.0,
            r matches Ok(_) ==> final(reader).pos() == ie_next(
                old(reader).data(),
                old(reader).pos(),
                IeFormat::TLV4(tag.0),
            ),
            r matches Ok(v) && v.inner is None ==> final(reader).pos() == old(reader).pos(),
            r matches Err(e) ==> e == DecodeError::ShortRead || !Self::inner_ok(
                old(reader).data(),
                old(reader).pos(),
                tag.0,
            ),
    {
        if !check_tag(reader, tag)? {
            return Ok(Type4TLV { tag: tag.0, length: 0, inner: None });
        }
        let length = reader.read_u8()?;
        let buf = read_buffer(reader, length as usize)?;
        let inner = decode_sub(&buf)?;
        Ok(Type4TLV { tag: tag.0, length, inner: Some(inner) })
    }
}

impl<T: EndianPayload> Type4TLV<T> {
    pub open spec fn inner_ok_endian(d: Seq<u8>, p: nat, tag: u8, e: Endian) -> bool {
        tag_hit(d, p, tag) ==> T::parses_endian(bytes_at(d, p + 16, bits_val(d, p + 8, 8)), 0, e)
    }

    pub open spec fn decoded_at_endian(self, d: Seq<u8>, p: nat, e: Endian) -> bool {
        if tag_hit(d, p, self.tag) {
            &&& self.length == bits_val(d, p + 8, 8)
            &&& self.inner matches Some(x) && x.parsed_from_endian(
                bytes_at(d, p + 16, self.length as nat),
                0,
                e,
            )
        } else {
            self.length == 0 && self.inner is None
        }
    }

    /// As `from_reader_with_ctx`, with the schema's byte order `endian` handed
    /// unchanged to the payload.
    pub fn from_reader_with_endian(reader: &mut BitReader, endian: Endian, tag: Tag) -> (r: Result<
        Self,
        DecodeError,
    >)
        requires
            old(reader).wf(),
        ensures
            final(reader).wf(),
            final(reader).data() == old(reader).data(),
            r.is_ok() == (ie_ok(
                old(reader).data(),
                old(reader).pos(),
                IeFormat::TLV4(tag.0),
            ) && Self::inner_ok_endian(old(reader).data(), old(reader).pos(), tag.0, endian)),
            r matches Ok(v) ==> v.decoded_at_endian(old(reader).data(), old(reader).pos(), endian)
                && v.tag == tag.0,
            r matches Ok(_) ==> final(reader).pos() == ie_next(
                old(reader).data(),
                old(reader).pos(),
                IeFormat::TLV4(tag.0),
            ),
            r matches Ok(v) && v.inner is None ==> final(reader).pos() == old(reader).pos(),
            r matches Err(e) ==> e == DecodeError::ShortRead,
    {
        if !check_tag(reader, tag)? {
            return Ok(Type4TLV { tag: tag.0, length: 0, inner: None });
        }
        let length = reader.read_u8()?;
        let buf = read_buffer(reader, length as usize)?;
        let inner = decode_sub_endian(&buf, endian)?;
        Ok(Type4TLV { tag: tag.0, length, inner: Some(inner) })
    }
}

impl<T: Payload> Type6LVE<T> {
    pub open spec fn inner_ok(d: Seq<u8>, p: nat) -> bool {
        T::parses(bytes_at(d, p + 16, bits_val(d, p, 16)), 0)
    }

    pub open spec fn decoded_at(self, d: Seq<u8>, p: nat) -> bool {
        &&& self.length == bits_val(d, p, 16)
        &&& self.inner.parsed_from(bytes_at(d, p + 16, self.length as nat), 0)
    }

    pub fn from_reader_with_ctx(reader: &mut BitReader) -> (r: Result<Self, DecodeError>)
        requires
            old(reader).wf(),
        ensures
            final(reader).wf(),
            final(reader).data() == old(reader).data(),
            r.is_ok() == (ie_ok(
                old(reader).data(),
                old(reader).pos(),
                IeFormat::LVE6,
            ) && Self::inner_ok(old(reader).data(), old(reader).pos())),
            r matches Ok(v) ==> v.decoded_at(old(reader).data(), old(reader).pos()),
            r matches Ok(_) ==> final(reader).pos() == ie_next(
                old(reader).data(),
                old(reader).pos(),
                IeFormat::LVE6,
            ),
            r matches Err(e) ==> e == DecodeError::ShortRead || !Self::inner_ok(
                old(reader).data(),
                old(reader).pos(),
            ),
    {
        let length = reader.read_bits(16)?;
        let buf = read_buffer(reader, length as usize)?;
        let inner = decode_sub(&buf)?;
        Ok(Type6LVE { length, inner })
    }
}

impl<T: Payload> Type6TLVE<T> {
    pub open spec fn inner_ok(d: Seq<u8>, p: nat, tag: u8) -> bool {
        tag_hit(d, p, tag) ==> T::parses(bytes_at(d, p + 24, bits_val(d, p + 8, 16)), 0)
    }

    pub open spec fn decoded_at(self, d: Seq<u8>, p: nat) -> bool {
        if tag_hit(d, p, self.tag) {
            &&& self.length == bits_val(d, p + 8, 16)
            &&& sub_parsed(self.inner, d, p + 24, self.length as nat)
        } else {
            self.length == 0 && self.inner is None
        }
    }

    pub fn from_reader_with_ctx(reader: &mut BitReader, tag: Tag) -> (r: Result<Self, DecodeError>)
        requires
            old(reader).wf(),
        ensures
            final(reader).wf(),
            final(reader).data() == old(reader).data(),
            r.is_ok() == (ie_ok(
                old(reader).data(),
                old(reader).pos(),
                IeFormat::TLVE6(tag.0),
            ) && Self::inner_ok(old(reader).data(), old(reader).pos(), tag.0)),
            r matches Ok(v) ==> v.decoded_at(old(reader).data(), old(reader).pos()) && v.tag == tag.0,
            r matches Ok(_) ==> final(reader).pos() == ie_next(
                old(reader).data(),
                old(reader).pos(),
                IeFormat::TLVE6(tag.0),
            ),
            r matches Ok(v) && v.inner is None ==> final(reader).pos() == old(reader).pos(),
            r matches Err(e) ==> e == DecodeError::ShortRead || !Self::inner_ok(
                old(reader).data(),
                old(reader).pos(),
                tag.0,
            ),
    {
        if !check_tag(reader, tag)? {
            return Ok(Type6TLVE { tag: tag.0, length: 0, inner: None });
        }
        let length = reader.read_bits(16)?;
        let buf = read_buffer(reader, length as usize)?;
        let inner = decode_sub(&buf)?;
        Ok(Type6TLVE { tag: tag.0, length, inner: Some(inner) })
    }
}

/// Checks whether the next byte is `tag`. On a match the reader stays past it;
/// otherwise it is back where it was. An input that has ended holds no tag.
pub fn check_tag(reader: &mut BitReader, tag: Tag) -> (r: Result<bool, DecodeError>)
    requires
        old(reader).wf(),
    ensures
        final(reader).wf(),
        final(reader).data() == old(reader).data(),
        r.is_ok() == tag_ok(old(reader).data(), old(reader).pos()),
        r.is_err() ==> r == Err::<bool, DecodeError>(DecodeError::ShortRead),
        r == Ok::<bool, DecodeError>(true) ==> tag_hit(old(reader).data(), old(reader).pos(), tag.0)
            && final(reader).pos() == old(reader).pos() + 8,
        r == Ok::<bool, DecodeError>(false) ==> !tag_hit(old(reader).data(), old(reader).pos(), tag.0)
            && final(reader).pos() == old(reader).pos(),
{
    if reader.end() {
        return Ok(false);
    }
    let mark = reader.bookmark();
    let read_tag = reader.read_u8()?;
    if read_tag == tag.0 {
        Ok(true)
    } else {
        // not this IE: rewind as if the byte had not been read
        reader.seek_absolute(mark);
        Ok(false)
    }
}

/// Reads `n` bytes into a buffer of their own.
fn read_buffer(reader: &mut BitReader, n: usize) -> (r: Result<Vec<u8>, DecodeError>)
    requires
        old(reader).wf(),
    ensures
        final(reader).wf(),
        final(reader).data() == old(reader).data(),
        match r {
            Ok(b) => {
                &&& remaining(old(reader).data(), old(reader).pos()) >= 8 * n
                &&& b@ == bytes_at(old(reader).data(), old(reader).pos(), n as nat)
                &&& final(reader).pos() == old(reader).pos() + 8 * n
            },
            Err(e) => {
                &&& remaining(old(reader).data(), old(reader).pos()) < 8 * n
                &&& e == DecodeError::ShortRead
            },
        },
{
    reader.read_bytes(n)
}

/// Decodes a payload from a fresh reader over `buf`; what it leaves unread is dropped.
fn decode_sub<T: Payload>(buf: &Vec<u8>) -> (r: Result<T, DecodeError>)
    ensures
        r.is_ok() == T::parses(buf@, 0),
        r matches Ok(v) ==> v.parsed_from(buf@, 0),
{
    let mut inner_reader = BitReader::new(buf.as_slice());
    T::decode(&mut inner_reader)
}

/// Decodes a payload in byte order `endian` from a fresh reader over `buf`; what it
/// leaves unread is dropped.
fn decode_sub_endian<T: EndianPayload>(buf: &Vec<u8>, endian: Endian) -> (r: Result<T, DecodeError>)
    ensures
        r.is_ok() == T::parses_endian(buf@, 0, endian),
        r matches Ok(v) ==> v.parsed_from_endian(buf@, 0, endian),
        r matches Err(e) ==> e == DecodeError::ShortRead,
{
    let mut inner_reader = BitReader::new(buf.as_slice());
    T::decode_endian(&mut inner_reader, endian)
}

/// Decodes a payload from a byte whose low half is `v` and whose high half is
/// zero, read from its second half.
fn decode_half_octet<T: Payload>(v: u8) -> (r: Result<T, DecodeError>)
    requires
        v < 16,
    ensures
        r.is_ok() == T::parses(half_octet_buf(v as nat), 4),
        r matches Ok(x) ==> x.parsed_from(half_octet_buf(v as nat), 4),
{
    let mut buf: Vec<u8> = Vec::new();
    buf.push(v);
    proof {
        assert(buf@ =~= half_octet_buf(v as nat));
    }
    let mut inner_reader = BitReader::new(buf.as_slice());
    inner_reader.skip_bits(4)?;
    T::decode(&mut inner_reader)
}

proof fn lemma_nibble_bound(d: Seq<u8>, p: nat)
    ensures
        bits_val(d, p, 4) < 16,
{
    lemma_bits_val_bound(d, p, 4);
    reveal_with_fuel(pow2, 5);
}

/// One decoded information element, in the container format it had, with its
/// value kept as raw bytes.
#[derive(Clone, Debug)]
pub enum IeValue {
    V1(Type1V<NoneType>),
    TV1(Type1TV<NoneType>),
    T2(Type2),
    V3(Type3V<Layer3Buffer>),
    TV3(Type3TV<Layer3Buffer>),
    LV4(Type4LV<Layer3Buffer>),
    TLV4(Type4TLV<Layer3Buffer>),
    LVE6(Type6LVE<Layer3Buffer>),
    TLVE6(Type6TLVE<Layer3Buffer>),
}

/// `b` holds the `n` bytes at bit `p`.
pub open spec fn raw_at(b: Option<Layer3Buffer>, d: Seq<u8>, p: nat, n: nat) -> bool {
    b matches Some(x) && x.buf@ == bytes_at(d, p, n)
}

/// `v` is what an IE of format `f` decodes to at `p`.
pub open spec fn ie_matches(d: Seq<u8>, p: nat, f: IeFormat, v: IeValue) -> bool {
    match (f, v) {
        (IeFormat::V1, IeValue::V1(x)) => x.v == bits_val(d, p, 4),
        (IeFormat::TV1(t), IeValue::TV1(x)) => x.tag == t && if nibble_hit(d, p, t) {
            x.v == bits_val(d, p + 4, 4) && x.inner is Some
        } else {
            x.v == 0 && x.inner is None
        },
        (IeFormat::T2(t), IeValue::T2(x)) => x.tag == t && x.present == tag_hit(d, p, t),
        (IeFormat::V3(n), IeValue::V3(x)) => x.inner.buf@ == bytes_at(d, p, n as nat),
        (IeFormat::TV3(t, n), IeValue::TV3(x)) => x.tag == t && if tag_hit(d, p, t) {
            raw_at(x.inner, d, p + 8, n as nat)
        } else {
            x.inner is None
        },
        (IeFormat::LV4, IeValue::LV4(x)) => {
            &&& x.length == bits_val(d, p, 8)
            &&& x.inner.buf@ == bytes_at(d, p + 8, x.length as nat)
        },
        (IeFormat::TLV4(t), IeValue::TLV4(x)) => x.tag == t && if tag_hit(d, p, t) {
            x.length == bits_val(d, p + 8, 8) && raw_at(x.inner, d, p + 16, x.length as nat)
        } else {
            x.length == 0 && x.inner is None
        },
        (IeFormat::LVE6, IeValue::LVE6(x)) => {
            &&& x.length == bits_val(d, p, 16)
            &&& x.inner.buf@ == bytes_at(d, p + 16, x.length as nat)
        },
        (IeFormat::TLVE6(t), IeValue::TLVE6(x)) => x.tag == t && if tag_hit(d, p, t) {
            x.length == bits_val(d, p + 8, 16) && raw_at(x.inner, d, p + 24, x.length as nat)
        } else {
            x.length == 0 && x.inner is None
        },
        _ => false,
    }
}

/// A raw payload decoded from a whole sub-buffer holds all of it.
proof fn lemma_whole_buffer(d: Seq<u8>, p: nat, n: nat)
    ensures
        bytes_at(bytes_at(d, p, n), 0, (remaining(bytes_at(d, p, n), 0) / 8) as nat) == bytes_at(d, p, n),
{
    let s = bytes_at(d, p, n);
    assert((remaining(s, 0) / 8) as nat == s.len());
    lemma_aligned_bytes(s, 0, s.len());
    assert(s.subrange(0, s.len() as int) =~= s);
}

/// Decodes one IE of format `f`, its value as raw bytes.
pub fn decode_ie(reader: &mut BitReader, f: IeFormat) -> (r: Result<IeValue, DecodeError>)
    requires
        old(reader).wf(),
    ensures
        final(reader).wf(),
        final(reader).data() == old(reader).data(),
        r.is_ok() == ie_ok(old(reader).data(), old(reader).pos(), f),
        r matches Err(e) ==> e == DecodeError::ShortRead,
        r matches Ok(v) ==> ie_matches(old(reader).data(), old(reader).pos(), f, v),
        r is Ok ==> final(reader).pos() == ie_next(old(reader).data(), old(reader).pos(), f),
{
    let ghost d = reader.data();
    let ghost p = reader.pos();
    match f {
        IeFormat::V1 => Ok(IeValue::V1(Type1V::from_reader_with_ctx(reader)?)),
        IeFormat::TV1(t) => Ok(IeValue::TV1(Type1TV::from_reader_with_ctx(reader, Tag(t))?)),
        IeFormat::T2(t) => Ok(IeValue::T2(Type2::from_reader_with_ctx(reader, Tag(t))?)),
        IeFormat::V3(n) => {
            let x = Type3V::from_reader_with_ctx(reader, n)?;
            proof {
                lemma_whole_buffer(d, p, n as nat);
            }
            Ok(IeValue::V3(x))
        },
        IeFormat::TV3(t, n) => {
            let x = Type3TV::from_reader_with_ctx(reader, n, Tag(t))?;
            proof {
                lemma_whole_buffer(d, p + 8, n as nat);
            }
            Ok(IeValue::TV3(x))
        },
        IeFormat::LV4 => {
            let x = Type4LV::from_reader_with_ctx(reader)?;
            proof {
                lemma_whole_buffer(d, p + 8, x.length as nat);
            }
            Ok(IeValue::LV4(x))
        },
        IeFormat::TLV4(t) => {
            let x = Type4TLV::from_reader_with_ctx(reader, Tag(t))?;
            proof {
                lemma_whole_buffer(d, p + 16, x.length as nat);
            }
            Ok(IeValue::TLV4(x))
        },
        IeFormat::LVE6 => {
            let x = Type6LVE::from_reader_with_ctx(reader)?;
            proof {
                lemma_whole_buffer(d, p + 16, x.length as nat);
            }
            Ok(IeValue::LVE6(x))
        },
        IeFormat::TLVE6(t) => {
            let x = Type6TLVE::from_reader_with_ctx(reader, Tag(t))?;
            proof {
                lemma_whole_buffer(d, p + 24, x.length as nat);
            }
            Ok(IeValue::TLVE6(x))
        },
    }
}

} // verus!
