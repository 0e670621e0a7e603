use vstd::prelude::*;

use crate::emm::{emm_choice, emm_schema, parse_emm_nas, EMMKind, EMMMessage, EMMType};
use crate::esm::{esm_schema, parse_esm_nas, ESMMessage, ESMType};
use crate::header::{ProtocolDiscriminator, SecHdrType};
use crate::reader::{lemma_aligned_byte, lemma_aligned_nibbles, BitReader, DecodeError};
use crate::schema::{schema_matches, schema_ok};

verus! {

/// Why a NAS message was not decoded.
#[derive(Clone, Copy, Debug, PartialEq, Eq, Structural)]
pub enum ParseError {
    /// An EMM message under a security header other than "no security".
    EncryptedNASMessage,
    /// A protocol other than EMM and ESM.
    UnsupportedNASProtocol(ProtocolDiscriminator),
    /// Malformed bytes: a short read or an unknown value.
    Decode(DecodeError),
}

/// A decoded NAS message.
#[derive(Clone, Debug)]
pub enum NASMessage {
    EMMMessage(EMMMessage),
    ESMMessage(ESMMessage),
}

/// What parsing an EMM message of type `t`, whose body starts at byte 2, gives.
pub open spec fn emm_parse_result(d: Seq<u8>, t: EMMType, r: Result<NASMessage, ParseError>) -> bool {
    &&& r.is_ok() == emm_choice(d, 16, t) is Some
    &&& r matches Ok(msg) ==> {
        &&& msg matches NASMessage::EMMMessage(m)
        &&& emm_choice(d, 16, t) == Some(m.kind)
        &&& schema_matches(d, 16, emm_schema(m.kind), m.ies@)
    }
    &&& r is Err ==> r == Err::<NASMessage, ParseError>(ParseError::Decode(DecodeError::ShortRead))
}

/// What parsing an ESM message of type `t`, whose body starts at byte 3, gives.
pub open spec fn esm_parse_result(d: Seq<u8>, t: ESMType, r: Result<NASMessage, ParseError>) -> bool {
    &&& r.is_ok() == schema_ok(d, 24, esm_schema(t))
    &&& r matches Ok(msg) ==> {
        &&& msg matches NASMessage::ESMMessage(m)
        &&& m.msg_type == t
        &&& m.eps_bearer_identity == d[0] >> 4u8
        &&& m.pti == d[1]
        &&& schema_matches(d, 24, esm_schema(t), m.ies@)
    }
    &&& r is Err ==> r == Err::<NASMessage, ParseError>(ParseError::Decode(DecodeError::ShortRead))
}

/// What parsing the bytes `d` as a NAS message gives.
pub open spec fn parse_result(d: Seq<u8>, r: Result<NASMessage, ParseError>) -> bool {
    if d.len() == 0 {
        r == Err::<NASMessage, ParseError>(ParseError::Decode(DecodeError::ShortRead))
    } else {
        let sec_or_ebi = d[0] >> 4u8;
        let pd = d[0] & 15u8;
        if pd == 7 {
            if sec_or_ebi != 0 {
                r == Err::<NASMessage, ParseError>(ParseError::EncryptedNASMessage)
            } else if d.len() < 2 {
                r == Err::<NASMessage, ParseError>(ParseError::Decode(DecodeError::ShortRead))
            } else {
                match EMMType::spec_from_id(d[1]) {
                    None => r == Err::<NASMessage, ParseError>(
                        ParseError::Decode(DecodeError::UnknownEMMType(d[1])),
                    ),
                    Some(t) => emm_parse_result(d, t, r),
                }
            }
        } else if pd == 2 {
            if d.len() < 3 {
                r == Err::<NASMessage, ParseError>(ParseError::Decode(DecodeError::ShortRead))
            } else {
                match ESMType::spec_from_id(d[2]) {
                    None => r == Err::<NASMessage, ParseError>(
                        ParseError::Decode(DecodeError::UnknownESMType(d[2])),
                    ),
                    Some(t) => esm_parse_result(d, t, r),
                }
            }
        } else {
            r matches Err(ParseError::UnsupportedNASProtocol(p)) && p.spec_id() == pd
        }
    }
}

impl NASMessage {
    /// Decodes one NAS message from its bytes, with no framing around them.
    pub fn parse(data: &[u8]) -> (r: Result<NASMessage, ParseError>)
        ensures
            parse_result(data@, r),
    {
        let ghost d = data@;
        let mut reader = BitReader::new(data);
        proof {
            if d.len() > 0 {
                lemma_aligned_nibbles(d, 0);
                let b0 = d[0];
                assert(b0 >> 4u8 < 16u8 && b0 & 15u8 < 16u8) by (bit_vector);
            }
        }
        let sec_hdr_or_bearer_id = match reader.read_bits(4) {
            Ok(v) => v as u8,
            Err(e) => return Err(ParseError::Decode(e)),
        };
        let pd_raw = match reader.read_bits(4) {
            Ok(v) => v as u8,
            Err(e) => return Err(ParseError::Decode(e)),
        };
        proof {
            ProtocolDiscriminator::lemma_half_octet(pd_raw);
            ProtocolDiscriminator::lemma_from_id_round_trip(pd_raw);
        }
        // every half octet names a protocol
        let pd = match ProtocolDiscriminator::from_id(pd_raw) {
            Some(pd) => pd,
            None => unreached(),
        };
        match pd {
            ProtocolDiscriminator::EMM => {
                if sec_hdr_or_bearer_id != SecHdrType::NoSecurity.id() {
                    return Err(ParseError::EncryptedNASMessage);
                }
                let type_byte = match reader.read_u8() {
                    Ok(v) => v,
                    Err(e) => return Err(ParseError::Decode(e)),
                };
                proof {
                    lemma_aligned_byte(d, 1);
                }
                let emm_type = match EMMType::from_id(type_byte) {
                    Some(t) => t,
                    None => return Err(ParseError::Decode(DecodeError::UnknownEMMType(type_byte))),
                };
                match parse_emm_nas(emm_type, reader) {
                    Ok(m) => Ok(NASMessage::EMMMessage(m)),
                    Err(e) => Err(ParseError::Decode(e)),
                }
            },
            ProtocolDiscriminator::ESM => {
                let pti = match reader.read_u8() {
                    Ok(v) => v,
                    Err(e) => return Err(ParseError::Decode(e)),
                };
                let type_byte = match reader.read_u8() {
                    Ok(v) => v,
                    Err(e) => return Err(ParseError::Decode(e)),
                };
                proof {
                    lemma_aligned_byte(d, 1);
                    lemma_aligned_byte(d, 2);
                }
                let esm_type = match ESMType::from_id(type_byte) {
                    Some(t) => t,
                    None => return Err(ParseError::Decode(DecodeError::UnknownESMType(type_byte))),
                };
                match parse_esm_nas(esm_type, sec_hdr_or_bearer_id, pti, reader) {
                    Ok(m) => Ok(NASMessage::ESMMessage(m)),
                    Err(e) => Err(ParseError::Decode(e)),
                }
            },
            p => Err(ParseError::UnsupportedNASProtocol(p)),
        }
    }
}

/// An EMM message whose security header is anything but "no security" is
/// reported as encrypted, whatever the bytes after the first one hold.
pub proof fn lemma_encrypted_short_circuit(d: Seq<u8>, r: Result<NASMessage, ParseError>)
    requires
        d.len() > 0,
        d[0] & 15u8 == 7,
        d[0] >> 4u8 != 0,
        parse_result(d, r),
    ensures
        r == Err::<NASMessage, ParseError>(ParseError::EncryptedNASMessage),
{
}

/// A DetachRequest is the mobile-originated message where that layout decodes;
/// otherwise the mobile-terminated one where that decodes; otherwise a decode error.
pub proof fn lemma_detach_request_choice(d: Seq<u8>, r: Result<NASMessage, ParseError>)
    requires
        d.len() >= 2,
        d[0] == 7,
        d[1] == 69,
        parse_result(d, r),
    ensures
        schema_ok(d, 16, emm_schema(EMMKind::EMMDetachRequestMO)) ==> (r matches Ok(
            NASMessage::EMMMessage(m),
        ) && m.kind == EMMKind::EMMDetachRequestMO),
        !schema_ok(d, 16, emm_schema(EMMKind::EMMDetachRequestMO)) && schema_ok(
            d,
            16,
            emm_schema(EMMKind::EMMDetachRequestMT),
        ) ==> (r matches Ok(NASMessage::EMMMessage(m)) && m.kind == EMMKind::EMMDetachRequestMT),
        !schema_ok(d, 16, emm_schema(EMMKind::EMMDetachRequestMO)) && !schema_ok(
            d,
            16,
            emm_schema(EMMKind::EMMDetachRequestMT),
        ) ==> r == Err::<NASMessage, ParseError>(ParseError::Decode(DecodeError::ShortRead)),
{
    assert(7u8 >> 4u8 == 0 && 7u8 & 15u8 == 7) by (bit_vector);
}

} // verus!
