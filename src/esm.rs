use vstd::prelude::*;

use crate::layer3::IeFormat::{LV4, LVE6, TLV4, TLVE6, TV1, TV3, V1, V3};
use crate::layer3::{IeFormat, IeValue};
use crate::reader::{BitReader, DecodeError};
use crate::schema::{decode_schema, schema_matches, schema_ok};

verus! {

/// ESM message types (the third byte of an ESM message).
#[derive(Clone, Copy, Debug, PartialEq, Eq, Structural)]
pub enum ESMType {
    ActDefaultEPSBearerCtxtRequest,
    ActDefaultEPSBearerCtxtAccept,
    ActDefaultEPSBearerCtxtReject,
    ActDediEPSBearerCtxtRequest,
    ActDediEPSBearerCtxtAccept,
    ActDediEPSBearerCtxtReject,
    ModifyEPSBearerCtxtRequest,
    ModifyEPSBearerCtxtAccept,
    ModifyEPSBearerCtxtReject,
    DeactEPSBearerCtxtRequest,
    DeactEPSBearerCtxtAccept,
    PDNConnectivityRequest,
    PDNConnectivityReject,
    PDNDisconnectRequest,
    PDNDisconnectReject,
    BearerResourceAllocRequest,
    BearerResourceAllocReject,
    BearerResourceModifRequest,
    BearerResourceModifReject,
    InformationRequest,
    InformationResponse,
    Notification,
    DummyMessage,
    Status,
    RemoteUEReport,
    RemoteUEResponse,
    DataTransport,
}

impl ESMType {
    /// The value this variant is coded as.
    pub open spec fn spec_id(self) -> u8 {
        match self {
            ESMType::ActDefaultEPSBearerCtxtRequest => 193,
            ESMType::ActDefaultEPSBearerCtxtAccept => 194,
            ESMType::ActDefaultEPSBearerCtxtReject => 195,
            ESMType::ActDediEPSBearerCtxtRequest => 197,
            ESMType::ActDediEPSBearerCtxtAccept => 198,
            ESMType::ActDediEPSBearerCtxtReject => 199,
            ESMType::ModifyEPSBearerCtxtRequest => 201,
            ESMType::ModifyEPSBearerCtxtAccept => 202,
            ESMType::ModifyEPSBearerCtxtReject => 203,
            ESMType::DeactEPSBearerCtxtRequest => 205,
            ESMType::DeactEPSBearerCtxtAccept => 206,
            ESMType::PDNConnectivityRequest => 208,
            ESMType::PDNConnectivityReject => 209,
            ESMType::PDNDisconnectRequest => 210,
            ESMType::PDNDisconnectReject => 211,
            ESMType::BearerResourceAllocRequest => 212,
            ESMType::BearerResourceAllocReject => 213,
            ESMType::BearerResourceModifRequest => 214,
            ESMType::BearerResourceModifReject => 215,
            ESMType::InformationRequest => 217,
            ESMType::InformationResponse => 218,
            ESMType::Notification => 219,
            ESMType::DummyMessage => 220,
            ESMType::Status => 232,
            ESMType::RemoteUEReport => 233,
            ESMType::RemoteUEResponse => 234,
            ESMType::DataTransport => 235,
        }
    }

    /// The variant coded as `b`, if any.
    pub open spec fn spec_from_id(b: u8) -> Option<ESMType> {
        match b {
            193 => Some(ESMType::ActDefaultEPSBearerCtxtRequest),
            194 => Some(ESMType::ActDefaultEPSBearerCtxtAccept),
            195 => Some(ESMType::ActDefaultEPSBearerCtxtReject),
            197 => Some(ESMType::ActDediEPSBearerCtxtRequest),
            198 => Some(ESMType::ActDediEPSBearerCtxtAccept),
            199 => Some(ESMType::ActDediEPSBearerCtxtReject),
            201 => Some(ESMType::ModifyEPSBearerCtxtRequest),
            202 => Some(ESMType::ModifyEPSBearerCtxtAccept),
            203 => Some(ESMType::ModifyEPSBearerCtxtReject),
            205 => Some(ESMType::DeactEPSBearerCtxtRequest),
            206 => Some(ESMType::DeactEPSBearerCtxtAccept),
            208 => Some(ESMType::PDNConnectivityRequest),
            209 => Some(ESMType::PDNConnectivityReject),
            210 => Some(ESMType::PDNDisconnectRequest),
            211 => Some(ESMType::PDNDisconnectReject),
            212 => Some(ESMType::BearerResourceAllocRequest),
            213 => Some(ESMType::BearerResourceAllocReject),
            214 => Some(ESMType::BearerResourceModifRequest),
            215 => Some(ESMType::BearerResourceModifReject),
            217 => Some(ESMType::InformationRequest),
            218 => Some(ESMType::InformationResponse),
            219 => Some(ESMType::Notification),
            220 => Some(ESMType::DummyMessage),
            232 => Some(ESMType::Status),
            233 => Some(ESMType::RemoteUEReport),
            234 => Some(ESMType::RemoteUEResponse),
            235 => Some(ESMType::DataTransport),
            _ => None,
        }
    }

    pub fn id(&self) -> (r: u8)
        ensures
            r == self.spec_id(),
    {
        match self {
            ESMType::ActDefaultEPSBearerCtxtRequest => 193,
            ESMType::ActDefaultEPSBearerCtxtAccept => 194,
            ESMType::ActDefaultEPSBearerCtxtReject => 195,
            ESMType::ActDediEPSBearerCtxtRequest => 197,
            ESMType::ActDediEPSBearerCtxtAccept => 198,
            ESMType::ActDediEPSBearerCtxtReject => 199,
            ESMType::ModifyEPSBearerCtxtRequest => 201,
            ESMType::ModifyEPSBearerCtxtAccept => 202,
            ESMType::ModifyEPSBearerCtxtReject => 203,
            ESMType::DeactEPSBearerCtxtRequest => 205,
            ESMType::DeactEPSBearerCtxtAccept => 206,
            ESMType::PDNConnectivityRequest => 208,
            ESMType::PDNConnectivityReject => 209,
            ESMType::PDNDisconnectRequest => 210,
            ESMType::PDNDisconnectReject => 211,
            ESMType::BearerResourceAllocRequest => 212,
            ESMType::BearerResourceAllocReject => 213,
            ESMType::BearerResourceModifRequest => 214,
            ESMType::BearerResourceModifReject => 215,
            ESMType::InformationRequest => 217,
            ESMType::InformationResponse => 218,
            ESMType::Notification => 219,
            ESMType::DummyMessage => 220,
            ESMType::Status => 232,
            ESMType::RemoteUEReport => 233,
            ESMType::RemoteUEResponse => 234,
            ESMType::DataTransport => 235,
        }
    }

    pub fn from_id(b: u8) -> (r: Option<ESMType>)
        ensures
            r == ESMType::spec_from_id(b),
    {
        match b {
            193 => Some(ESMType::ActDefaultEPSBearerCtxtRequest),
            194 => Some(ESMType::ActDefaultEPSBearerCtxtAccept),
            195 => Some(ESMType::ActDefaultEPSBearerCtxtReject),
            197 => Some(ESMType::ActDediEPSBearerCtxtRequest),
            198 => Some(ESMType::ActDediEPSBearerCtxtAccept),
            199 => Some(ESMType::ActDediEPSBearerCtxtReject),
            201 => Some(ESMType::ModifyEPSBearerCtxtRequest),
            202 => Some(ESMType::ModifyEPSBearerCtxtAccept),
            203 => Some(ESMType::ModifyEPSBearerCtxtReject),
            205 => Some(ESMType::DeactEPSBearerCtxtRequest),
            206 => Some(ESMType::DeactEPSBearerCtxtAccept),
            208 => Some(ESMType::PDNConnectivityRequest),
            209 => Some(ESMType::PDNConnectivityReject),
            210 => Some(ESMType::PDNDisconnectRequest),
            211 => Some(ESMType::PDNDisconnectReject),
            212 => Some(ESMType::BearerResourceAllocRequest),
            213 => Some(ESMType::BearerResourceAllocReject),
            214 => Some(ESMType::BearerResourceModifRequest),
            215 => Some(ESMType::BearerResourceModifReject),
            217 => Some(ESMType::InformationRequest),
            218 => Some(ESMType::InformationResponse),
            219 => Some(ESMType::Notification),
            220 => Some(ESMType::DummyMessage),
            232 => Some(ESMType::Status),
            233 => Some(ESMType::RemoteUEReport),
            234 => Some(ESMType::RemoteUEResponse),
            235 => Some(ESMType::DataTransport),
            _ => None,
        }
    }

    /// Every variant comes back from the value it is coded as.
    pub proof fn lemma_id_round_trip(self)
        ensures
            ESMType::spec_from_id(self.spec_id()) == Some(self),
    {
    }

    /// A value that decodes to a variant is the value that variant is coded as.
    pub proof fn lemma_from_id_round_trip(b: u8)
        ensures
            ESMType::spec_from_id(b) matches Some(t) ==> t.spec_id() == b,
    {
    }
}

/// The IEs of each ESM message, in order: mandatory ones, then the optional
/// ones with their tags (TS 24.301, clause 8.3).
pub open spec fn esm_schema(k: ESMType) -> Seq<IeFormat> {
    match k {
        ESMType::ActDefaultEPSBearerCtxtRequest => seq![
            LV4, LV4, LV4, TLV4(0x5D), TLV4(0x30), TV3(0x32, 1), TV1(0x8), TLV4(0x34), TLV4(0x5E),
            TV3(0x58, 1), TLV4(0x27), TV1(0xB), TV1(0xC), TLV4(0x33), TLV4(0x66), TV1(0x9),
            TLVE6(0x7B), TLV4(0x6E),
        ],
        ESMType::ActDefaultEPSBearerCtxtAccept => seq![TLV4(0x27), TLVE6(0x7B)],
        ESMType::ActDefaultEPSBearerCtxtReject => seq![V3(1), TLV4(0x27), TLVE6(0x7B)],
        ESMType::ActDediEPSBearerCtxtRequest => seq![
            V1, V1, LV4, LV4, TLV4(0x5D), TLV4(0x30), TV3(0x32, 1), TV1(0x8), TLV4(0x34),
            TLV4(0x27), TV1(0xC), TLV4(0x33), TLVE6(0x7B),
        ],
        ESMType::ActDediEPSBearerCtxtAccept => seq![TLV4(0x27), TLV4(0x33), TLVE6(0x7B)],
        ESMType::ActDediEPSBearerCtxtReject => seq![V3(1), TLV4(0x27), TLV4(0x33), TLVE6(0x7B)],
        ESMType::ModifyEPSBearerCtxtRequest => seq![
            TLV4(0x5B), TLV4(0x36), TLV4(0x30), TV3(0x32, 1), TV1(0x8), TLV4(0x34), TLV4(0x5E),
            TLV4(0x27), TV1(0xC), TLV4(0x33), TLV4(0x66), TLVE6(0x7B),
        ],
        ESMType::ModifyEPSBearerCtxtAccept => seq![TLV4(0x27), TLV4(0x33), TLVE6(0x7B)],
        ESMType::ModifyEPSBearerCtxtReject => seq![V3(1), TLV4(0x27), TLV4(0x33), TLVE6(0x7B)],
        ESMType::DeactEPSBearerCtxtRequest => seq![
            V3(1), TLV4(0x27), TLV4(0x37), TV1(0xC), TLV4(0x33), TLVE6(0x7B),
        ],
        ESMType::DeactEPSBearerCtxtAccept => seq![TLV4(0x27), TLVE6(0x7B)],
        ESMType::PDNConnectivityRequest => seq![
            V1, V1, TV1(0xD), TLV4(0x28), TLV4(0x27), TV1(0xC), TLV4(0x33), TLV4(0x66), TLVE6(0x7B),
        ],
        ESMType::PDNConnectivityReject => seq![
            V3(1), TLV4(0x27), TLV4(0x37), TLV4(0x6B), TLV4(0x33), TLVE6(0x7B),
        ],
        ESMType::PDNDisconnectRequest => seq![V1, V1, TLV4(0x27), TLVE6(0x7B)],
        ESMType::PDNDisconnectReject => seq![V3(1), TLV4(0x27), TLVE6(0x7B)],
        ESMType::BearerResourceAllocRequest => seq![
            V1, V1, LV4, LV4, TLV4(0x27), TV1(0xC), TLV4(0x33), TLVE6(0x7B),
        ],
        ESMType::BearerResourceAllocReject => seq![
            V3(1), TLV4(0x27), TLV4(0x37), TLV4(0x6B), TLV4(0x33), TLVE6(0x7B),
        ],
        ESMType::BearerResourceModifRequest => seq![
            V1, V1, LV4, TLV4(0x5B), TV3(0x58, 1), TLV4(0x27), TV1(0xC), TLV4(0x33), TLV4(0x66),
            TLVE6(0x7B),
        ],
        ESMType::BearerResourceModifReject => seq![
            V3(1), TLV4(0x27), TLV4(0x37), TLV4(0x6B), TLV4(0x33), TLVE6(0x7B),
        ],
        ESMType::InformationRequest => seq![],
        ESMType::InformationResponse => seq![TLV4(0x28), TLV4(0x27), TLVE6(0x7B)],
        ESMType::Notification => seq![LV4],
        ESMType::DummyMessage => seq![],
        ESMType::Status => seq![V3(1)],
        ESMType::RemoteUEReport => seq![TLVE6(0x79), TLV4(0x6F)],
        ESMType::RemoteUEResponse => seq![],
        ESMType::DataTransport => seq![LVE6, TV1(0xF)],
    }
}

/// The schema of `k`, to decode with.
pub fn esm_schema_of(k: ESMType) -> (r: Vec<IeFormat>)
    ensures
        r@ == esm_schema(k),
{
    match k {
        ESMType::ActDefaultEPSBearerCtxtRequest => vec![
            LV4, LV4, LV4, TLV4(0x5D), TLV4(0x30), TV3(0x32, 1), TV1(0x8), TLV4(0x34), TLV4(0x5E),
            TV3(0x58, 1), TLV4(0x27), TV1(0xB), TV1(0xC), TLV4(0x33), TLV4(0x66), TV1(0x9),
            TLVE6(0x7B), TLV4(0x6E),
        ],
        ESMType::ActDefaultEPSBearerCtxtAccept => vec![TLV4(0x27), TLVE6(0x7B)],
        ESMType::ActDefaultEPSBearerCtxtReject => vec![V3(1), TLV4(0x27), TLVE6(0x7B)],
        ESMType::ActDediEPSBearerCtxtRequest => vec![
            V1, V1, LV4, LV4, TLV4(0x5D), TLV4(0x30), TV3(0x32, 1), TV1(0x8), TLV4(0x34),
            TLV4(0x27), TV1(0xC), TLV4(0x33), TLVE6(0x7B),
        ],
        ESMType::ActDediEPSBearerCtxtAccept => vec![TLV4(0x27), TLV4(0x33), TLVE6(0x7B)],
        ESMType::ActDediEPSBearerCtxtReject => vec![V3(1), TLV4(0x27), TLV4(0x33), TLVE6(0x7B)],
        ESMType::ModifyEPSBearerCtxtRequest => vec![
            TLV4(0x5B), TLV4(0x36), TLV4(0x30), TV3(0x32, 1), TV1(0x8), TLV4(0x34), TLV4(0x5E),
            TLV4(0x27), TV1(0xC), TLV4(0x33), TLV4(0x66), TLVE6(0x7B),
        ],
        ESMType::ModifyEPSBearerCtxtAccept => vec![TLV4(0x27), TLV4(0x33), TLVE6(0x7B)],
        ESMType::ModifyEPSBearerCtxtReject => vec![V3(1), TLV4(0x27), TLV4(0x33), TLVE6(0x7B)],
        ESMType::DeactEPSBearerCtxtRequest => vec![
            V3(1), TLV4(0x27), TLV4(0x37), TV1(0xC), TLV4(0x33), TLVE6(0x7B),
        ],
        ESMType::DeactEPSBearerCtxtAccept => vec![TLV4(0x27), TLVE6(0x7B)],
        ESMType::PDNConnectivityRequest => vec![
            V1, V1, TV1(0xD), TLV4(0x28), TLV4(0x27), TV1(0xC), TLV4(0x33), TLV4(0x66), TLVE6(0x7B),
        ],
        ESMType::PDNConnectivityReject => vec![
            V3(1), TLV4(0x27), TLV4(0x37), TLV4(0x6B), TLV4(0x33), TLVE6(0x7B),
        ],
        ESMType::PDNDisconnectRequest => vec![V1, V1, TLV4(0x27), TLVE6(0x7B)],
        ESMType::PDNDisconnectReject => vec![V3(1), TLV4(0x27), TLVE6(0x7B)],
        ESMType::BearerResourceAllocRequest => vec![
            V1, V1, LV4, LV4, TLV4(0x27), TV1(0xC), TLV4(0x33), TLVE6(0x7B),
        ],
        ESMType::BearerResourceAllocReject => vec![
            V3(1), TLV4(0x27), TLV4(0x37), TLV4(0x6B), TLV4(0x33), TLVE6(0x7B),
        ],
        ESMType::BearerResourceModifRequest => vec![
            V1, V1, LV4, TLV4(0x5B), TV3(0x58, 1), TLV4(0x27), TV1(0xC), TLV4(0x33), TLV4(0x66),
            TLVE6(0x7B),
        ],
        ESMType::BearerResourceModifReject => vec![
            V3(1), TLV4(0x27), TLV4(0x37), TLV4(0x6B), TLV4(0x33), TLVE6(0x7B),
        ],
        ESMType::InformationRequest => vec![],
        ESMType::InformationResponse => vec![TLV4(0x28), TLV4(0x27), TLVE6(0x7B)],
        ESMType::Notification => vec![LV4],
        ESMType::DummyMessage => vec![],
        ESMType::Status => vec![V3(1)],
        ESMType::RemoteUEReport => vec![TLVE6(0x79), TLV4(0x6F)],
        ESMType::RemoteUEResponse => vec![],
        ESMType::DataTransport => vec![LVE6, TV1(0xF)],
    }
}

/// A decoded ESM message: its type, the header's bearer identity and procedure
/// transaction identity, and its IEs in schema order.
#[derive(Clone, Debug)]
pub struct ESMMessage {
    pub msg_type: ESMType,
    pub eps_bearer_identity: u8,
    pub pti: u8,
    pub ies: Vec<IeValue>,
}

/// What decoding the body of an ESM message of type `t` at `p` gives.
pub open spec fn esm_result(
    d: Seq<u8>,
    p: nat,
    t: ESMType,
    ebi: u8,
    pti: u8,
    r: Result<ESMMessage, DecodeError>,
) -> bool {
    &&& r.is_ok() == schema_ok(d, p, esm_schema(t))
    &&& r matches Ok(m) ==> {
        &&& m.msg_type == t
        &&& m.eps_bearer_identity == ebi
        &&& m.pti == pti
        &&& schema_matches(d, p, esm_schema(t), m.ies@)
    }
    &&& r matches Err(e) ==> e == DecodeError::ShortRead
}

/// Decodes the body of an ESM message of type `esm_type`, which starts at the
/// reader's position; the header's two identities are kept with it.
pub fn parse_esm_nas(esm_type: ESMType, eps_bearer_identity: u8, pti: u8, reader: BitReader) -> (r: Result<
    ESMMessage,
    DecodeError,
>)
    requires
        reader.wf(),
    ensures
        esm_result(reader.data(), reader.pos(), esm_type, eps_bearer_identity, pti, r),
{
    let mut reader = reader;
    let s = esm_schema_of(esm_type);
    let ies = decode_schema(&mut reader, &s)?;
    Ok(ESMMessage { msg_type: esm_type, eps_bearer_identity, pti, ies })
}

} // verus!
