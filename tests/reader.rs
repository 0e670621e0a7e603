use pycrate_rs::layer3::{
    check_tag, Endian, IdentityType, Layer3Buffer, NoneType, Tag, Type1TV, Type1V, Type2, Type3TV, Type3V, Type4LV, Type4TLV, Type6LVE, Type6TLVE,
};
use pycrate_rs::reader::{BitReader, DecodeError};

fn ramp(n: usize) -> Vec<u8> {
    (0..n).map(|i| (i * 7 + 3) as u8).collect()
}

#[test]
fn read_bytes_longer_than_sixteen() {
    for len in [17usize, 100, 1000] {
        let data = ramp(len + 5);
        let mut r = BitReader::new(&data);
        assert_eq!(r.read_u8().unwrap(), data[0]);
        let got = r.read_bytes(len).unwrap();
        assert_eq!(got.len(), len);
        assert_eq!(&got[..], &data[1..1 + len]);
        assert_eq!(r.read_u8().unwrap(), data[1 + len]);
    }
}

#[test]
fn read_bytes_short() {
    let data = ramp(10);
    let mut r = BitReader::new(&data);
    let before = r.bookmark();
    assert_eq!(r.read_bytes(11).unwrap_err(), DecodeError::ShortRead);
    assert_eq!(r.bookmark(), before);
    assert_eq!(r.read_bytes(10).unwrap(), data);
    assert!(r.end());
}

#[test]
fn read_bytes_off_byte_boundary() {
    let data = vec![0xab, 0xcd, 0xef];
    let mut r = BitReader::new(&data);
    assert_eq!(r.read_bits(4).unwrap(), 0xa);
    assert_eq!(r.read_bytes(2).unwrap(), vec![0xbc, 0xde]);
    assert_eq!(r.read_bits(4).unwrap(), 0xf);
    assert!(r.end());
}

#[test]
fn reads_move_forward() {
    let data = vec![0b1011_0010, 0x12, 0x34, 0x56];
    let mut r = BitReader::new(&data);
    let mut last = r.bookmark();
    assert_eq!(r.read_bits(1).unwrap(), 1);
    assert_eq!(r.read_bits(3).unwrap(), 0b011);
    assert!(r.bookmark() != last);
    last = r.bookmark();
    r.skip_bits(4).unwrap();
    assert!(r.bookmark() != last);
    assert_eq!(r.read_bits(16).unwrap(), 0x1234);
    assert_eq!(r.skip_bits(9).unwrap_err(), DecodeError::ShortRead);
    assert_eq!(r.read_bits(8).unwrap(), 0x56);
    assert!(r.end());
    assert_eq!(r.read_bits(1).unwrap_err(), DecodeError::ShortRead);
}

#[test]
fn seek_back_to_bookmark() {
    let data = vec![0x01, 0x02, 0x03];
    let mut r = BitReader::new(&data);
    r.read_u8().unwrap();
    let mark = r.bookmark();
    assert_eq!(r.read_u8().unwrap(), 0x02);
    r.seek_absolute(mark);
    assert_eq!(r.read_u8().unwrap(), 0x02);
}

#[test]
fn lv_advances_past_its_length() {
    let data = vec![0x03, 0xaa, 0xbb, 0xcc, 0x99];
    let mut r = BitReader::new(&data);
    let v = Type4LV::<Layer3Buffer>::from_reader_with_ctx(&mut r).unwrap();
    assert_eq!(v.length, 3);
    assert_eq!(v.inner.buf, vec![0xaa, 0xbb, 0xcc]);
    assert_eq!(r.read_u8().unwrap(), 0x99);
}

#[test]
fn lv_empty_value() {
    let data = vec![0x00, 0x42];
    let mut r = BitReader::new(&data);
    let v = Type4LV::<Layer3Buffer>::from_reader_with_ctx(&mut r).unwrap();
    assert_eq!(v.length, 0);
    assert!(v.inner.buf.is_empty());
    assert_eq!(r.read_u8().unwrap(), 0x42);
}

#[test]
fn lve_big_endian_length() {
    let mut data = vec![0x01, 0x02];
    data.extend(ramp(258));
    data.push(0x77);
    let mut r = BitReader::new(&data);
    let v = Type6LVE::<Layer3Buffer>::from_reader_with_ctx(&mut r).unwrap();
    assert_eq!(v.length, 258);
    assert_eq!(v.inner.buf, ramp(258));
    assert_eq!(r.read_u8().unwrap(), 0x77);
}

#[test]
fn lve_length_past_end() {
    let data = vec![0x00, 0x05, 0x01];
    let mut r = BitReader::new(&data);
    assert_eq!(Type6LVE::<Layer3Buffer>::from_reader_with_ctx(&mut r).unwrap_err(), DecodeError::ShortRead);
}

#[test]
fn tlv_and_tlve_present() {
    let data = vec![0x27, 0x02, 0x80, 0x21, 0x7b, 0x00, 0x01, 0x05, 0x11];
    let mut r = BitReader::new(&data);
    let a = Type4TLV::<Layer3Buffer>::from_reader_with_ctx(&mut r, Tag(0x27)).unwrap();
    assert_eq!(a.length, 2);
    assert_eq!(a.inner.unwrap().buf, vec![0x80, 0x21]);
    let b = Type6TLVE::<Layer3Buffer>::from_reader_with_ctx(&mut r, Tag(0x7b)).unwrap();
    assert_eq!(b.length, 1);
    assert_eq!(b.inner.unwrap().buf, vec![0x05]);
    assert_eq!(r.read_u8().unwrap(), 0x11);
}

#[test]
fn optional_mismatch_rewinds() {
    let data = vec![0x53, 0x01, 0x02];
    let mut r = BitReader::new(&data);
    let before = r.bookmark();
    let a = Type4TLV::<Layer3Buffer>::from_reader_with_ctx(&mut r, Tag(0x27)).unwrap();
    assert!(a.inner.is_none());
    assert_eq!(a.length, 0);
    assert_eq!(a.tag, 0x27);
    assert_eq!(r.bookmark(), before);
    let b = Type6TLVE::<Layer3Buffer>::from_reader_with_ctx(&mut r, Tag(0x7b)).unwrap();
    assert!(b.inner.is_none());
    assert_eq!(r.bookmark(), before);
    let c = Type3TV::<Layer3Buffer>::from_reader_with_ctx(&mut r, 1, Tag(0x54)).unwrap();
    assert!(c.inner.is_none());
    assert_eq!(r.bookmark(), before);
    let d = Type1TV::<NoneType>::from_reader_with_ctx(&mut r, Tag(0x9)).unwrap();
    assert!(d.inner.is_none());
    assert_eq!(d.v, 0);
    assert_eq!(r.bookmark(), before);
    assert_eq!(check_tag(&mut r, Tag(0x01)), Ok(false));
    assert_eq!(r.bookmark(), before);
    // the right tag is taken
    let e = Type3TV::<Layer3Buffer>::from_reader_with_ctx(&mut r, 1, Tag(0x53)).unwrap();
    assert_eq!(e.inner.unwrap().buf, vec![0x01]);
    assert_eq!(r.read_u8().unwrap(), 0x02);
}

#[test]
fn optional_at_end_is_absent() {
    let data: Vec<u8> = vec![];
    let mut r = BitReader::new(&data);
    assert!(Type4TLV::<Layer3Buffer>::from_reader_with_ctx(&mut r, Tag(0x27)).unwrap().inner.is_none());
    assert!(Type1TV::<NoneType>::from_reader_with_ctx(&mut r, Tag(0xa)).unwrap().inner.is_none());
    assert_eq!(Type1V::<NoneType>::from_reader_with_ctx(&mut r).unwrap_err(), DecodeError::ShortRead);
}

#[test]
fn type1_half_octets() {
    let data = vec![0x9c, 0x5e];
    let mut r = BitReader::new(&data);
    let t = Type1TV::<NoneType>::from_reader_with_ctx(&mut r, Tag(0x9)).unwrap();
    assert_eq!(t.tag, 0x9);
    assert_eq!(t.v, 0xc);
    assert_eq!(t.inner, Some(NoneType));
    assert_eq!(Type1V::<NoneType>::from_reader_with_ctx(&mut r).unwrap().v, 0x5);
    assert_eq!(Type1V::<NoneType>::from_reader_with_ctx(&mut r).unwrap().v, 0xe);
}

#[test]
fn fixed_length_value() {
    let data = ramp(20);
    let mut r = BitReader::new(&data);
    let v = Type3V::<Layer3Buffer>::from_reader_with_ctx(&mut r, 16).unwrap();
    assert_eq!(v.inner.buf, data[..16].to_vec());
    assert_eq!(Type3V::<Layer3Buffer>::from_reader_with_ctx(&mut r, 5).unwrap_err(), DecodeError::ShortRead);
}

#[test]
fn outer_reader_skips_what_the_payload_leaves() {
    let data = vec![0x04, 0xde, 0xad, 0xbe, 0xef, 0x42, 0xaa, 0xbb, 0x00, 0x02, 0x55, 0x66, 0x43];
    let mut r = BitReader::new(&data);
    let v = Type4LV::<NoneType>::from_reader_with_ctx(&mut r).unwrap();
    assert_eq!(v.length, 4);
    assert_eq!(r.read_u8().unwrap(), 0x42);
    let w = Type3V::<NoneType>::from_reader_with_ctx(&mut r, 2).unwrap();
    assert_eq!(w.inner, NoneType);
    let x = Type6LVE::<NoneType>::from_reader_with_ctx(&mut r).unwrap();
    assert_eq!(x.length, 2);
    assert_eq!(r.read_u8().unwrap(), 0x43);
}

#[test]
fn type2_presence() {
    let data = vec![0xa1, 0x33];
    let mut r = BitReader::new(&data);
    let before = r.bookmark();
    let missing = Type2::from_reader_with_ctx(&mut r, Tag(0xa2)).unwrap();
    assert!(!missing.present);
    assert_eq!(r.bookmark(), before);
    let there = Type2::from_reader_with_ctx(&mut r, Tag(0xa1)).unwrap();
    assert!(there.present);
    assert_eq!(r.read_u8().unwrap(), 0x33);
}

#[test]
fn raw_payload_takes_every_byte() {
    let data = vec![0x10, 0x20, 0x30];
    let mut r = BitReader::new(&data);
    assert_eq!(r.whole_bytes_left(), 3);
    r.read_bits(4).unwrap();
    assert_eq!(r.whole_bytes_left(), 2);
    assert!(r.has_bits(20));
    assert!(!r.has_bits(21));
    assert!(r.has_bytes(2));
    assert!(!r.has_bytes(3));
}

#[test]
fn type1_tv_on_last_half_octet() {
    let data = vec![0x15];
    let mut r = BitReader::new(&data);
    assert_eq!(Type1V::<NoneType>::from_reader_with_ctx(&mut r).unwrap().v, 1);
    let before = r.bookmark();
    let other = Type1TV::<NoneType>::from_reader_with_ctx(&mut r, Tag(0x9)).unwrap();
    assert!(other.inner.is_none());
    assert_eq!(r.bookmark(), before);
    assert_eq!(Type1TV::<NoneType>::from_reader_with_ctx(&mut r, Tag(0x5)).unwrap_err(), DecodeError::ShortRead);
}

#[test]
fn seek_relative_and_peek() {
    let data = vec![0x11, 0x22, 0x33];
    let mut r = BitReader::new(&data);
    assert_eq!(r.peek_u8().unwrap(), 0x11);
    assert_eq!(r.read_u8().unwrap(), 0x11);
    assert_eq!(r.seek_relative(-2).unwrap_err(), DecodeError::OutOfRange);
    r.seek_relative(-1).unwrap();
    assert_eq!(r.read_u8().unwrap(), 0x11);
    r.seek_relative(1).unwrap();
    assert_eq!(r.peek_u8().unwrap(), 0x33);
    assert_eq!(r.seek_relative(2).unwrap_err(), DecodeError::OutOfRange);
    r.seek_relative(1).unwrap();
    assert!(r.end());
    assert_eq!(r.peek_u8().unwrap_err(), DecodeError::ShortRead);
    assert_eq!(r.seek_relative(isize::MIN).unwrap_err(), DecodeError::OutOfRange);
    assert_eq!(r.seek_relative(isize::MAX).unwrap_err(), DecodeError::OutOfRange);
}

#[test]
fn tlv_hands_byte_order_to_payload() {
    let data = vec![0x5e, 0x02, 0x12, 0x34, 0x5e, 0x03, 0x12, 0x34, 0x56, 0x99];
    let mut r = BitReader::new(&data);
    let be = Type4TLV::<u16>::from_reader_with_endian(&mut r, Endian::Big, Tag(0x5e)).unwrap();
    assert_eq!(be.inner, Some(0x1234));
    // a longer value: the payload reads its two bytes and the rest is skipped
    let le = Type4TLV::<u16>::from_reader_with_endian(&mut r, Endian::Little, Tag(0x5e)).unwrap();
    assert_eq!(le.length, 3);
    assert_eq!(le.inner, Some(0x3412));
    assert_eq!(r.read_u8().unwrap(), 0x99);
}

#[test]
fn tlv_with_byte_order_absent_and_short() {
    let data = vec![0x27, 0x01, 0x12];
    let mut r = BitReader::new(&data);
    let before = r.bookmark();
    let other = Type4TLV::<u16>::from_reader_with_endian(&mut r, Endian::Big, Tag(0x5e)).unwrap();
    assert!(other.inner.is_none());
    assert_eq!(r.bookmark(), before);
    // one byte is too few for the payload
    assert_eq!(
        Type4TLV::<u16>::from_reader_with_endian(&mut r, Endian::Little, Tag(0x27)).unwrap_err(),
        DecodeError::ShortRead
    );
}

#[test]
fn tag_into_byte_and_buffer_equality() {
    let b: u8 = Tag(0x5c).into();
    assert_eq!(b, 0x5c);
    assert_eq!(u8::from(Tag(0x09)), 0x09);
    let buf = Layer3Buffer { buf: vec![1, 2, 3] };
    assert!(buf == vec![1, 2, 3]);
    assert!(buf != vec![1, 2]);
    assert!(buf != vec![1, 2, 4]);
}

#[test]
fn identity_type_half_octet() {
    // the body of an identity request: spare half octet, then identity type 1
    let data = vec![0x01];
    let mut r = BitReader::new(&data);
    assert_eq!(Type1V::<NoneType>::from_reader_with_ctx(&mut r).unwrap().v, 0);
    let t = Type1V::<IdentityType>::from_reader_with_ctx(&mut r).unwrap();
    assert_eq!(t.v, 1);
    assert_eq!(t.inner, IdentityType::IMSI);
    assert!(r.end());
    for (b, want) in [(0x02u8, IdentityType::IMEI), (0x03, IdentityType::IMEISV), (0x04, IdentityType::TMSI)] {
        let d = vec![b];
        let mut r = BitReader::new(&d);
        r.skip_bits(4).unwrap();
        assert_eq!(Type1V::<IdentityType>::from_reader_with_ctx(&mut r).unwrap().inner, want);
    }
}

#[test]
fn identity_type_reserved_rejected() {
    let data = vec![0x07];
    let mut r = BitReader::new(&data);
    r.skip_bits(4).unwrap();
    assert_eq!(Type1V::<IdentityType>::from_reader_with_ctx(&mut r).unwrap_err(), DecodeError::UnknownValue(7));
    let tv = vec![0x90];
    let mut r = BitReader::new(&tv);
    assert_eq!(
        Type1TV::<IdentityType>::from_reader_with_ctx(&mut r, Tag(0x9)).unwrap_err(),
        DecodeError::UnknownValue(0)
    );
    // inside a length-prefixed value, the payload's own failure comes out
    let lv = vec![0x01, 0x05];
    let mut r = BitReader::new(&lv);
    assert_eq!(Type4LV::<IdentityType>::from_reader_with_ctx(&mut r).unwrap_err(), DecodeError::UnknownValue(0));
}
