use pycrate_rs::emm::{EMMKind, EMMType};
use pycrate_rs::esm::ESMType;
use pycrate_rs::header::{ProtocolDiscriminator, SecHdrType};
use pycrate_rs::hex::unhexlify;
use pycrate_rs::layer3::IeValue;
use pycrate_rs::nas::{NASMessage, ParseError};
use pycrate_rs::reader::DecodeError;

fn parse_hex(s: &str) -> Result<NASMessage, ParseError> {
    NASMessage::parse(&unhexlify(s))
}

fn emm(r: Result<NASMessage, ParseError>) -> pycrate_rs::emm::EMMMessage {
    match r {
        Ok(NASMessage::EMMMessage(m)) => m,
        other => panic!("not an EMM message: {:?}", other),
    }
}

fn buf_of(v: &IeValue) -> Vec<u8> {
    match v {
        IeValue::LV4(x) => x.inner.buf.clone(),
        IeValue::LVE6(x) => x.inner.buf.clone(),
        IeValue::V3(x) => x.inner.buf.clone(),
        IeValue::TV3(x) => x.inner.as_ref().expect("present").buf.clone(),
        IeValue::TLV4(x) => x.inner.as_ref().expect("present").buf.clone(),
        IeValue::TLVE6(x) => x.inner.as_ref().expect("present").buf.clone(),
        other => panic!("no buffer in {:?}", other),
    }
}

fn absent(v: &IeValue) -> bool {
    match v {
        IeValue::TV1(x) => x.inner.is_none(),
        IeValue::T2(x) => !x.present,
        IeValue::TV3(x) => x.inner.is_none(),
        IeValue::TLV4(x) => x.inner.is_none(),
        IeValue::TLVE6(x) => x.inner.is_none(),
        _ => false,
    }
}

#[test]
fn identity_request_imsi() {
    let m = emm(parse_hex("075501"));
    assert_eq!(m.kind, EMMKind::EMMIdentityRequest);
    assert_eq!(m.ies.len(), 2);
    match (&m.ies[0], &m.ies[1]) {
        (IeValue::V1(spare), IeValue::V1(identity_type)) => {
            assert_eq!(spare.v, 0);
            assert_eq!(identity_type.v, 1);
        },
        other => panic!("unexpected IEs {:?}", other),
    }
}

#[test]
fn attach_request_mandatory_fields() {
    let hex = "07412208391185184409309005f07000001000040201d0115c0a003103e5e03e";
    let m = emm(parse_hex(hex));
    assert_eq!(m.kind, EMMKind::EMMAttachRequest);
    match (&m.ies[0], &m.ies[1]) {
        (IeValue::V1(ksi), IeValue::V1(attach_type)) => {
            assert_eq!(ksi.v, 2);
            assert_eq!(attach_type.v, 2);
        },
        other => panic!("unexpected IEs {:?}", other),
    }
    match &m.ies[2] {
        IeValue::LV4(id) => {
            assert_eq!(id.length, 8);
            assert_eq!(id.inner.buf, vec![0x39, 0x11, 0x85, 0x18, 0x44, 0x09, 0x30, 0x90]);
            // odd-length identity of type IMSI
            assert_eq!(id.inner.buf[0] & 0x0f, 0x09);
        },
        other => panic!("unexpected IE {:?}", other),
    }
    assert_eq!(buf_of(&m.ies[3]), vec![0xf0, 0x70, 0x00, 0x00, 0x10]);
    match &m.ies[4] {
        IeValue::LVE6(esm) => {
            assert_eq!(esm.length, 4);
            assert_eq!(esm.inner.buf, vec![0x02, 0x01, 0xd0, 0x11]);
        },
        other => panic!("unexpected IE {:?}", other),
    }
    assert!(absent(&m.ies[5]));
    assert!(absent(&m.ies[6]));
    assert!(absent(&m.ies[7]));
    assert_eq!(buf_of(&m.ies[8]), vec![0x0a, 0x00]);
    assert_eq!(buf_of(&m.ies[9]), vec![0xe5, 0xe0, 0x3e]);
    for ie in &m.ies[10..] {
        assert!(absent(ie));
    }
    // the ESM container holds a message of its own
    match NASMessage::parse(&buf_of(&m.ies[4])) {
        Ok(NASMessage::ESMMessage(esm)) => assert_eq!(esm.msg_type, ESMType::PDNConnectivityRequest),
        other => panic!("unexpected {:?}", other),
    }
}

#[test]
fn encrypted_integrity_protected() {
    assert!(matches!(parse_hex("17a3b2c1d000"), Err(ParseError::EncryptedNASMessage)));
}

#[test]
fn encrypted_ciphered() {
    assert!(matches!(parse_hex("27ffffffff05"), Err(ParseError::EncryptedNASMessage)));
}

#[test]
fn encrypted_every_security_header() {
    for sh in [1u8, 2, 3, 4, 12, 5, 15] {
        // bytes after the header would not decode: they are never looked at
        let data = vec![(sh << 4) | 7, 0x41];
        assert!(matches!(NASMessage::parse(&data), Err(ParseError::EncryptedNASMessage)));
    }
}

#[test]
fn unsupported_gcc() {
    assert_eq!(
        parse_hex("0012").unwrap_err(),
        ParseError::UnsupportedNASProtocol(ProtocolDiscriminator::GCC)
    );
}

#[test]
fn unsupported_other_protocols() {
    assert_eq!(
        parse_hex("0801").unwrap_err(),
        ParseError::UnsupportedNASProtocol(ProtocolDiscriminator::GMM)
    );
    assert_eq!(
        parse_hex("1f").unwrap_err(),
        ParseError::UnsupportedNASProtocol(ProtocolDiscriminator::Testing)
    );
}

#[test]
fn unsupported_every_other_half_octet() {
    for pd in 0u8..16 {
        if pd == 2 || pd == 7 {
            continue;
        }
        match NASMessage::parse(&[0x30 | pd, 0x41, 0x00]) {
            Err(ParseError::UnsupportedNASProtocol(p)) => assert_eq!(p.id(), pd),
            other => panic!("unexpected {:?}", other),
        }
    }
    assert_eq!(
        parse_hex("0d00").unwrap_err(),
        ParseError::UnsupportedNASProtocol(ProtocolDiscriminator::Reserved)
    );
    assert_eq!(
        parse_hex("05").unwrap_err(),
        ParseError::UnsupportedNASProtocol(ProtocolDiscriminator::MM)
    );
}

#[test]
fn esm_information_request() {
    match parse_hex("0245d9") {
        Ok(NASMessage::ESMMessage(m)) => {
            assert_eq!(m.msg_type, ESMType::InformationRequest);
            assert_eq!(m.eps_bearer_identity, 0);
            assert_eq!(m.pti, 0x45);
            assert!(m.ies.is_empty());
        },
        other => panic!("unexpected {:?}", other),
    }
}

#[test]
fn esm_pdn_connectivity_request() {
    match parse_hex("520bd0112803696d73") {
        Ok(NASMessage::ESMMessage(m)) => {
            assert_eq!(m.msg_type, ESMType::PDNConnectivityRequest);
            assert_eq!(m.eps_bearer_identity, 5);
            assert_eq!(m.pti, 0x0b);
            assert_eq!(m.ies.len(), 9);
            assert!(absent(&m.ies[2]));
            assert_eq!(buf_of(&m.ies[3]), vec![0x69, 0x6d, 0x73]);
        },
        other => panic!("unexpected {:?}", other),
    }
}

#[test]
fn decode_errors() {
    assert_eq!(parse_hex("").unwrap_err(), ParseError::Decode(DecodeError::ShortRead));
    assert_eq!(parse_hex("07").unwrap_err(), ParseError::Decode(DecodeError::ShortRead));
    assert_eq!(parse_hex("0201").unwrap_err(), ParseError::Decode(DecodeError::ShortRead));
    assert_eq!(parse_hex("0740").unwrap_err(), ParseError::Decode(DecodeError::UnknownEMMType(0x40)));
    assert_eq!(parse_hex("0200c0").unwrap_err(), ParseError::Decode(DecodeError::UnknownESMType(0xc0)));
    // an attach request with nothing after its type
    assert_eq!(parse_hex("0741").unwrap_err(), ParseError::Decode(DecodeError::ShortRead));
    // a length that runs past the end
    assert_eq!(parse_hex("075605aabb").unwrap_err(), ParseError::Decode(DecodeError::ShortRead));
}

#[test]
fn detach_request_mo() {
    let m = emm(parse_hex("0745090bf612f4100001c000000123"));
    assert_eq!(m.kind, EMMKind::EMMDetachRequestMO);
    assert_eq!(buf_of(&m.ies[2]).len(), 11);
}

#[test]
fn detach_request_mt_with_cause() {
    let m = emm(parse_hex("0745035302"));
    assert_eq!(m.kind, EMMKind::EMMDetachRequestMT);
    assert_eq!(buf_of(&m.ies[2]), vec![0x02]);
}

#[test]
fn detach_request_mt_without_cause() {
    let m = emm(parse_hex("074503"));
    assert_eq!(m.kind, EMMKind::EMMDetachRequestMT);
    assert!(absent(&m.ies[2]));
}

#[test]
fn detach_request_neither() {
    assert_eq!(parse_hex("0745").unwrap_err(), ParseError::Decode(DecodeError::ShortRead));
}

#[test]
fn optional_ies_tried_once_in_order() {
    // EMM information with a short name before a full name: the full name is
    // tried first and skipped, and not tried again later
    let m = emm(parse_hex("076145024142430241424302"));
    assert_eq!(m.kind, EMMKind::EMMInformation);
    assert!(absent(&m.ies[0]));
    assert_eq!(buf_of(&m.ies[1]), vec![0x41, 0x42]);
}

#[test]
fn extra_bytes_after_message_are_left() {
    let m = emm(parse_hex("075501ffff"));
    assert_eq!(m.kind, EMMKind::EMMIdentityRequest);
}

#[test]
fn enum_round_trips() {
    let mut n: usize = 0;
    for b in 0..=255u8 {
        if let Some(t) = EMMType::from_id(b) {
            assert_eq!(t.id(), b);
            n += 1;
        }
    }
    assert_eq!(n, 32);
    n = 0;
    for b in 0..=255u8 {
        if let Some(t) = ESMType::from_id(b) {
            assert_eq!(t.id(), b);
            n += 1;
        }
    }
    assert_eq!(n, 27);
    n = 0;
    for b in 0..=255u8 {
        if let Some(t) = ProtocolDiscriminator::from_id(b) {
            assert_eq!(t.id(), b);
            n += 1;
        }
    }
    assert_eq!(n, 18);
    n = 0;
    for b in 0..=255u8 {
        if let Some(t) = SecHdrType::from_id(b) {
            assert_eq!(t.id(), b);
            n += 1;
        }
    }
    assert_eq!(n, 6);
    assert_eq!(EMMType::UplinkGenericNASTransport.id(), 105);
    assert_eq!(ESMType::from_id(235), Some(ESMType::DataTransport));
    assert_eq!(ProtocolDiscriminator::FiveGMM.id(), 126);
}

#[test]
fn unhexlify_pairs() {
    assert_eq!(unhexlify("075501"), vec![0x07, 0x55, 0x01]);
    assert_eq!(unhexlify("aBf0"), vec![0xab, 0xf0]);
    assert_eq!(unhexlify(""), Vec::<u8>::new());
}
