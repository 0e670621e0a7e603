use vstd::prelude::*;

use crate::layer3::IeFormat::{LV4, LVE6, TLV4, TLVE6, TV1, TV3, V1, V3};
use crate::layer3::{IeFormat, IeValue};
use crate::reader::{BitReader, DecodeError};
use crate::schema::{decode_schema, schema_matches, schema_ok};

verus! {

/// EMM message types (the byte after the NAS header).
#[derive(Clone, Copy, Debug, PartialEq, Eq, Structural)]
pub enum EMMType {
    AttachRequest,
    AttachAccept,
    AttachComplete,
    AttachReject,
    DetachRequest,
    DetachAccept,
    TrackingAreaUpdateRequest,
    TrackingAreaUpdateAccept,
    TrackingAreaUpdateComplete,
    TrackingAreaUpdateReject,
    ExtendedServiceRequest,
    ControlPlaneServiceRequest,
    ServiceReject,
    ServiceAccept,
    GUTIReallocationCommand,
    GUTIReallocationComplete,
    AuthenticationRequest,
    AuthenticationResponse,
    AuthenticationReject,
    AuthenticationFailure,
    IdentityRequest,
    IdentityResponse,
    SecurityModeCommand,
    SecurityModeComplete,
    SecurityModeReject,
    EMMStatus,
    EMMInformation,
    DownlinkNASTransport,
    UplinkNASTransport,
    CSServiceNotification,
    DownlinkGenericNASTransport,
    UplinkGenericNASTransport,
}

impl EMMType {
    /// The value this variant is coded as.
    pub open spec fn spec_id(self) -> u8 {
        match self {
            EMMType::AttachRequest => 65,
            EMMType::AttachAccept => 66,
            EMMType::AttachComplete => 67,
            EMMType::AttachReject => 68,
            EMMType::DetachRequest => 69,
            EMMType::DetachAccept => 70,
            EMMType::TrackingAreaUpdateRequest => 72,
            EMMType::TrackingAreaUpdateAccept => 73,
            EMMType::TrackingAreaUpdateComplete => 74,
            EMMType::TrackingAreaUpdateReject => 75,
            EMMType::ExtendedServiceRequest => 76,
            EMMType::ControlPlaneServiceRequest => 77,
            EMMType::ServiceReject => 78,
            EMMType::ServiceAccept => 79,
            EMMType::GUTIReallocationCommand => 80,
            EMMType::GUTIReallocationComplete => 81,
            EMMType::AuthenticationRequest => 82,
            EMMType::AuthenticationResponse => 83,
            EMMType::AuthenticationReject => 84,
            EMMType::AuthenticationFailure => 92,
            EMMType::IdentityRequest => 85,
            EMMType::IdentityResponse => 86,
            EMMType::SecurityModeCommand => 93,
            EMMType::SecurityModeComplete => 94,
            EMMType::SecurityModeReject => 95,
            EMMType::EMMStatus => 96,
            EMMType::EMMInformation => 97,
            EMMType::DownlinkNASTransport => 98,
            EMMType::UplinkNASTransport => 99,
            EMMType::CSServiceNotification => 100,
            EMMType::DownlinkGenericNASTransport => 104,
            EMMType::UplinkGenericNASTransport => 105,
        }
    }

    /// The variant coded as `b`, if any.
    pub open spec fn spec_from_id(b: u8) -> Option<EMMType> {
        match b {
            65 => Some(EMMType::AttachRequest),
            66 => Some(EMMType::AttachAccept),
            67 => Some(EMMType::AttachComplete),
            68 => Some(EMMType::AttachReject),
            69 => Some(EMMType::DetachRequest),
            70 => Some(EMMType::DetachAccept),
            72 => Some(EMMType::TrackingAreaUpdateRequest),
            73 => Some(EMMType::TrackingAreaUpdateAccept),
            74 => Some(EMMType::TrackingAreaUpdateComplete),
            75 => Some(EMMType::TrackingAreaUpdateReject),
            76 => Some(EMMType::ExtendedServiceRequest),
            77 => Some(EMMType::ControlPlaneServiceRequest),
            78 => Some(EMMType::ServiceReject),
            79 => Some(EMMType::ServiceAccept),
            80 => Some(EMMType::GUTIReallocationCommand),
            81 => Some(EMMType::GUTIReallocationComplete),
            82 => Some(EMMType::AuthenticationRequest),
            83 => Some(EMMType::AuthenticationResponse),
            84 => Some(EMMType::AuthenticationReject),
            92 => Some(EMMType::AuthenticationFailure),
            85 => Some(EMMType::IdentityRequest),
            86 => Some(EMMType::IdentityResponse),
            93 => Some(EMMType::SecurityModeCommand),
            94 => Some(EMMType::SecurityModeComplete),
            95 => Some(EMMType::SecurityModeReject),
            96 => Some(EMMType::EMMStatus),
            97 => Some(EMMType::EMMInformation),
            98 => Some(EMMType::DownlinkNASTransport),
            99 => Some(EMMType::UplinkNASTransport),
            100 => Some(EMMType::CSServiceNotification),
            104 => Some(EMMType::DownlinkGenericNASTransport),
            105 => Some(EMMType::UplinkGenericNASTransport),
            _ => None,
        }
    }

    pub fn id(&self) -> (r: u8)
        ensures
            r == self.spec_id(),
    {
        match self {
            EMMType::AttachRequest => 65,
            EMMType::AttachAccept => 66,
            EMMType::AttachComplete => 67,
            EMMType::AttachReject => 68,
            EMMType::DetachRequest => 69,
            EMMType::DetachAccept => 70,
            EMMType::TrackingAreaUpdateRequest => 72,
            EMMType::TrackingAreaUpdateAccept => 73,
            EMMType::TrackingAreaUpdateComplete => 74,
            EMMType::TrackingAreaUpdateReject => 75,
            EMMType::ExtendedServiceRequest => 76,
            EMMType::ControlPlaneServiceRequest => 77,
            EMMType::ServiceReject => 78,
            EMMType::ServiceAccept => 79,
            EMMType::GUTIReallocationCommand => 80,
            EMMType::GUTIReallocationComplete => 81,
            EMMType::AuthenticationRequest => 82,
            EMMType::AuthenticationResponse => 83,
            EMMType::AuthenticationReject => 84,
            EMMType::AuthenticationFailure => 92,
            EMMType::IdentityRequest => 85,
            EMMType::IdentityResponse => 86,
            EMMType::SecurityModeCommand => 93,
            EMMType::SecurityModeComplete => 94,
            EMMType::SecurityModeReject => 95,
            EMMType::EMMStatus => 96,
            EMMType::EMMInformation => 97,
            EMMType::DownlinkNASTransport => 98,
            EMMType::UplinkNASTransport => 99,
            EMMType::CSServiceNotification => 100,
            EMMType::DownlinkGenericNASTransport => 104,
            EMMType::UplinkGenericNASTransport => 105,
        }
    }

    pub fn from_id(b: u8) -> (r: Option<EMMType>)
        ensures
            r == EMMType::spec_from_id(b),
    {
        match b {
            65 => Some(EMMType::AttachRequest),
            66 => Some(EMMType::AttachAccept),
            67 => Some(EMMType::AttachComplete),
            68 => Some(EMMType::AttachReject),
            69 => Some(EMMType::DetachRequest),
            70 => Some(EMMType::DetachAccept),
            72 => Some(EMMType::TrackingAreaUpdateRequest),
            73 => Some(EMMType::TrackingAreaUpdateAccept),
            74 => Some(EMMType::TrackingAreaUpdateComplete),
            75 => Some(EMMType::TrackingAreaUpdateReject),
            76 => Some(EMMType::ExtendedServiceRequest),
            77 => Some(EMMType::ControlPlaneServiceRequest),
            78 => Some(EMMType::ServiceReject),
            79 => Some(EMMType::ServiceAccept),
            80 => Some(EMMType::GUTIReallocationCommand),
            81 => Some(EMMType::GUTIReallocationComplete),
            82 => Some(EMMType::AuthenticationRequest),
            83 => Some(EMMType::AuthenticationResponse),
            84 => Some(EMMType::AuthenticationReject),
            92 => Some(EMMType::AuthenticationFailure),
            85 => Some(EMMType::IdentityRequest),
            86 => Some(EMMType::IdentityResponse),
            93 => Some(EMMType::SecurityModeCommand),
            94 => Some(EMMType::SecurityModeComplete),
            95 => Some(EMMType::SecurityModeReject),
            96 => Some(EMMType::EMMStatus),
            97 => Some(EMMType::EMMInformation),
            98 => Some(EMMType::DownlinkNASTransport),
            99 => Some(EMMType::UplinkNASTransport),
            100 => Some(EMMType::CSServiceNotification),
            104 => Some(EMMType::DownlinkGenericNASTransport),
            105 => Some(EMMType::UplinkGenericNASTransport),
            _ => None,
        }
    }

    /// Every variant comes back from the value it is coded as.
    pub proof fn lemma_id_round_trip(self)
        ensures
            EMMType::spec_from_id(self.spec_id()) == Some(self),
    {
    }

    /// A value that decodes to a variant is the value that variant is coded as.
    pub proof fn lemma_from_id_round_trip(b: u8)
        ensures
            EMMType::spec_from_id(b) matches Some(t) ==> t.spec_id() == b,
    {
    }
}

/// The EMM message layouts: one per message type, with DetachRequest in its
/// mobile-originated and mobile-terminated forms.
#[derive(Clone, Copy, Debug, PartialEq, Eq, Structural)]
pub enum EMMKind {
    EMMAttachRequest,
    EMMAttachAccept,
    EMMAttachComplete,
    EMMAttachReject,
    EMMDetachRequestMT,
    EMMDetachRequestMO,
    EMMDetachAccept,
    EMMTrackingAreaUpdateRequest,
    EMMTrackingAreaUpdateAccept,
    EMMTrackingAreaUpdateComplete,
    EMMTrackingAreaUpdateReject,
    EMMExtServiceRequest,
    EMMCPServiceRequest,
    EMMServiceReject,
    EMMServiceAccept,
    EMMGUTIReallocCommand,
    EMMGUTIReallocComplete,
    EMMAuthenticationRequest,
    EMMAuthenticationResponse,
    EMMAuthenticationReject,
    EMMAuthenticationFailure,
    EMMIdentityRequest,
    EMMIdentityResponse,
    EMMSecurityModeCommand,
    EMMSecurityModeComplete,
    EMMSecurityModeReject,
    EMMStatus,
    EMMInformation,
    EMMDLNASTransport,
    EMMULNASTransport,
    EMMCSServiceNotification,
    EMMDLGenericNASTransport,
    EMMULGenericNASTransport,
}

/// The layout a message type decodes with; DetachRequest is tried as MO first.
pub open spec fn emm_kind_of(t: EMMType) -> EMMKind {
    match t {
        EMMType::AttachRequest => EMMKind::EMMAttachRequest,
        EMMType::AttachAccept => EMMKind::EMMAttachAccept,
        EMMType::AttachComplete => EMMKind::EMMAttachComplete,
        EMMType::AttachReject => EMMKind::EMMAttachReject,
        EMMType::DetachRequest => EMMKind::EMMDetachRequestMO,
        EMMType::DetachAccept => EMMKind::EMMDetachAccept,
        EMMType::TrackingAreaUpdateRequest => EMMKind::EMMTrackingAreaUpdateRequest,
        EMMType::TrackingAreaUpdateAccept => EMMKind::EMMTrackingAreaUpdateAccept,
        EMMType::TrackingAreaUpdateComplete => EMMKind::EMMTrackingAreaUpdateComplete,
        EMMType::TrackingAreaUpdateReject => EMMKind::EMMTrackingAreaUpdateReject,
        EMMType::ExtendedServiceRequest => EMMKind::EMMExtServiceRequest,
        EMMType::ControlPlaneServiceRequest => EMMKind::EMMCPServiceRequest,
        EMMType::ServiceReject => EMMKind::EMMServiceReject,
        EMMType::ServiceAccept => EMMKind::EMMServiceAccept,
        EMMType::GUTIReallocationCommand => EMMKind::EMMGUTIReallocCommand,
        EMMType::GUTIReallocationComplete => EMMKind::EMMGUTIReallocComplete,
        EMMType::AuthenticationRequest => EMMKind::EMMAuthenticationRequest,
        EMMType::AuthenticationResponse => EMMKind::EMMAuthenticationResponse,
        EMMType::AuthenticationReject => EMMKind::EMMAuthenticationReject,
        EMMType::AuthenticationFailure => EMMKind::EMMAuthenticationFailure,
        EMMType::IdentityRequest => EMMKind::EMMIdentityRequest,
        EMMType::IdentityResponse => EMMKind::EMMIdentityResponse,
        EMMType::SecurityModeCommand => EMMKind::EMMSecurityModeCommand,
        EMMType::SecurityModeComplete => EMMKind::EMMSecurityModeComplete,
        EMMType::SecurityModeReject => EMMKind::EMMSecurityModeReject,
        EMMType::EMMStatus => EMMKind::EMMStatus,
        EMMType::EMMInformation => EMMKind::EMMInformation,
        EMMType::DownlinkNASTransport => EMMKind::EMMDLNASTransport,
        EMMType::UplinkNASTransport => EMMKind::EMMULNASTransport,
        EMMType::CSServiceNotification => EMMKind::EMMCSServiceNotification,
        EMMType::DownlinkGenericNASTransport => EMMKind::EMMDLGenericNASTransport,
        EMMType::UplinkGenericNASTransport => EMMKind::EMMULGenericNASTransport,
    }
}

fn kind_of(t: EMMType) -> (r: EMMKind)
    ensures
        r == emm_kind_of(t),
{
    match t {
        EMMType::AttachRequest => EMMKind::EMMAttachRequest,
        EMMType::AttachAccept => EMMKind::EMMAttachAccept,
        EMMType::AttachComplete => EMMKind::EMMAttachComplete,
        EMMType::AttachReject => EMMKind::EMMAttachReject,
        EMMType::DetachRequest => EMMKind::EMMDetachRequestMO,
        EMMType::DetachAccept => EMMKind::EMMDetachAccept,
        EMMType::TrackingAreaUpdateRequest => EMMKind::EMMTrackingAreaUpdateRequest,
        EMMType::TrackingAreaUpdateAccept => EMMKind::EMMTrackingAreaUpdateAccept,
        EMMType::TrackingAreaUpdateComplete => EMMKind::EMMTrackingAreaUpdateComplete,
        EMMType::TrackingAreaUpdateReject => EMMKind::EMMTrackingAreaUpdateReject,
        EMMType::ExtendedServiceRequest => EMMKind::EMMExtServiceRequest,
        EMMType::ControlPlaneServiceRequest => EMMKind::EMMCPServiceRequest,
        EMMType::ServiceReject => EMMKind::EMMServiceReject,
        EMMType::ServiceAccept => EMMKind::EMMServiceAccept,
        EMMType::GUTIReallocationCommand => EMMKind::EMMGUTIReallocCommand,
        EMMType::GUTIReallocationComplete => EMMKind::EMMGUTIReallocComplete,
        EMMType::AuthenticationRequest => EMMKind::EMMAuthenticationRequest,
        EMMType::AuthenticationResponse => EMMKind::EMMAuthenticationResponse,
        EMMType::AuthenticationReject => EMMKind::EMMAuthenticationReject,
        EMMType::AuthenticationFailure => EMMKind::EMMAuthenticationFailure,
        EMMType::IdentityRequest => EMMKind::EMMIdentityRequest,
        EMMType::IdentityResponse => EMMKind::EMMIdentityResponse,
        EMMType::SecurityModeCommand => EMMKind::EMMSecurityModeCommand,
        EMMType::SecurityModeComplete => EMMKind::EMMSecurityModeComplete,
        EMMType::SecurityModeReject => EMMKind::EMMSecurityModeReject,
        EMMType::EMMStatus => EMMKind::EMMStatus,
        EMMType::EMMInformation => EMMKind::EMMInformation,
        EMMType::DownlinkNASTransport => EMMKind::EMMDLNASTransport,
        EMMType::UplinkNASTransport => EMMKind::EMMULNASTransport,
        EMMType::CSServiceNotification => EMMKind::EMMCSServiceNotification,
        EMMType::DownlinkGenericNASTransport => EMMKind::EMMDLGenericNASTransport,
        EMMType::UplinkGenericNASTransport => EMMKind::EMMULGenericNASTransport,
    }
}

/// The IEs of each EMM message, in order: mandatory ones, then the optional
/// ones with their tags (TS 24.301, clause 8.2).
pub open spec fn emm_schema(k: EMMKind) -> Seq<IeFormat> {
    match k {
        EMMKind::EMMAttachRequest => seq![
            V1, V1, LV4, LV4, LVE6, TV3(0x19, 3), TLV4(0x50), TV3(0x52, 5), TV3(0x5C, 2),
            TLV4(0x31), TV3(0x13, 5), TV1(0x9), TLV4(0x11), TLV4(0x20), TLV4(0x40), TV1(0xF),
            TLV4(0x5D), TV1(0xD), TV1(0xE), TV1(0xC), TLV4(0x10), TLV4(0x6A), TLV4(0x5E),
            TLV4(0x6E), TLV4(0x6F),
        ],
        EMMKind::EMMAttachAccept => seq![
            V1, V1, V3(1), LV4, LVE6, TLV4(0x50), TV3(0x13, 5), TLV4(0x23), TV3(0x53, 1),
            TV3(0x17, 1), TV3(0x59, 1), TLV4(0x4A), TLV4(0x34), TLV4(0x64), TV1(0xF), TLV4(0x5E),
            TLV4(0x6A), TLV4(0x6E),
        ],
        EMMKind::EMMAttachComplete => seq![LVE6],
        EMMKind::EMMAttachReject => seq![V3(1), TLVE6(0x78), TLV4(0x5F), TLV4(0x16), TV1(0xA)],
        EMMKind::EMMDetachRequestMT => seq![V1, V1, TV3(0x53, 1)],
        EMMKind::EMMDetachRequestMO => seq![V1, V1, LV4],
        EMMKind::EMMDetachAccept => seq![],
        EMMKind::EMMTrackingAreaUpdateRequest => seq![
            V1, V1, LV4, TV1(0xB), TV1(0x8), TV3(0x19, 3), TLV4(0x50), TV3(0x55, 4), TLV4(0x58),
            TV3(0x52, 5), TV3(0x5C, 2), TV1(0xA), TLV4(0x57), TLV4(0x31), TV3(0x13, 5), TV1(0x9),
            TLV4(0x11), TLV4(0x20), TLV4(0x40), TV1(0xF), TLV4(0x5D), TV1(0xE), TV1(0xD), TV1(0xC),
            TLV4(0x10), TLV4(0x6A), TLV4(0x5E), TLV4(0x6E), TLV4(0x6F),
        ],
        EMMKind::EMMTrackingAreaUpdateAccept => seq![
            V1, V1, TV3(0x5A, 1), TLV4(0x50), TLV4(0x54), TLV4(0x57), TV3(0x13, 5), TLV4(0x23),
            TV3(0x53, 1), TV3(0x17, 1), TV3(0x59, 1), TLV4(0x4A), TLV4(0x34), TLV4(0x64), TV1(0xF),
            TLV4(0x5E), TLV4(0x6A), TLV4(0x6E),
        ],
        EMMKind::EMMTrackingAreaUpdateComplete => seq![],
        EMMKind::EMMTrackingAreaUpdateReject => seq![V3(1), TLV4(0x5F), TV1(0xA)],
        EMMKind::EMMExtServiceRequest => seq![V1, V1, LV4, TV1(0xB), TLV4(0x57), TV1(0xD)],
        EMMKind::EMMCPServiceRequest => seq![V1, V1, TLVE6(0x78), TLV4(0x67), TLV4(0x57), TV1(0xD)],
        EMMKind::EMMServiceReject => seq![V3(1), TV3(0x5B, 1), TLV4(0x5F), TLV4(0x6B)],
        EMMKind::EMMServiceAccept => seq![TLV4(0x57), TLV4(0x6B)],
        EMMKind::EMMGUTIReallocCommand => seq![LV4, TLV4(0x54), TLV4(0x65)],
        EMMKind::EMMGUTIReallocComplete => seq![],
        EMMKind::EMMAuthenticationRequest => seq![V1, V1, V3(16), LV4],
        EMMKind::EMMAuthenticationResponse => seq![LV4],
        EMMKind::EMMAuthenticationReject => seq![],
        EMMKind::EMMAuthenticationFailure => seq![V3(1), TLV4(0x30)],
        EMMKind::EMMIdentityRequest => seq![V1, V1],
        EMMKind::EMMIdentityResponse => seq![LV4],
        EMMKind::EMMSecurityModeCommand => seq![
            V3(1), V1, V1, LV4, TV1(0xC), TV3(0x55, 4), TV3(0x56, 4), TLV4(0x4F), TLV4(0x6F),
        ],
        EMMKind::EMMSecurityModeComplete => seq![TLV4(0x23), TLVE6(0x79)],
        EMMKind::EMMSecurityModeReject => seq![V3(1)],
        EMMKind::EMMStatus => seq![V3(1)],
        EMMKind::EMMInformation => seq![
            TLV4(0x43), TLV4(0x45), TV3(0x46, 1), TV3(0x47, 7), TLV4(0x49),
        ],
        EMMKind::EMMDLNASTransport => seq![LV4],
        EMMKind::EMMULNASTransport => seq![LV4],
        EMMKind::EMMCSServiceNotification => seq![
            V3(1), TLV4(0x60), TV3(0x61, 1), TV3(0x62, 1), TLV4(0x63),
        ],
        EMMKind::EMMDLGenericNASTransport => seq![V3(1), LVE6, TLV4(0x65)],
        EMMKind::EMMULGenericNASTransport => seq![V3(1), LVE6, TLV4(0x65)],
    }
}

/// The schema of `k`, to decode with.
pub fn emm_schema_of(k: EMMKind) -> (r: Vec<IeFormat>)
    ensures
        r@ == emm_schema(k),
{
    match k {
        EMMKind::EMMAttachRequest => vec![
            V1, V1, LV4, LV4, LVE6, TV3(0x19, 3), TLV4(0x50), TV3(0x52, 5), TV3(0x5C, 2),
            TLV4(0x31), TV3(0x13, 5), TV1(0x9), TLV4(0x11), TLV4(0x20), TLV4(0x40), TV1(0xF),
            TLV4(0x5D), TV1(0xD), TV1(0xE), TV1(0xC), TLV4(0x10), TLV4(0x6A), TLV4(0x5E),
            TLV4(0x6E), TLV4(0x6F),
        ],
        EMMKind::EMMAttachAccept => vec![
            V1, V1, V3(1), LV4, LVE6, TLV4(0x50), TV3(0x13, 5), TLV4(0x23), TV3(0x53, 1),
            TV3(0x17, 1), TV3(0x59, 1), TLV4(0x4A), TLV4(0x34), TLV4(0x64), TV1(0xF), TLV4(0x5E),
            TLV4(0x6A), TLV4(0x6E),
        ],
        EMMKind::EMMAttachComplete => vec![LVE6],
        EMMKind::EMMAttachReject => vec![V3(1), TLVE6(0x78), TLV4(0x5F), TLV4(0x16), TV1(0xA)],
        EMMKind::EMMDetachRequestMT => vec![V1, V1, TV3(0x53, 1)],
        EMMKind::EMMDetachRequestMO => vec![V1, V1, LV4],
        EMMKind::EMMDetachAccept => vec![],
        EMMKind::EMMTrackingAreaUpdateRequest => vec![
            V1, V1, LV4, TV1(0xB), TV1(0x8), TV3(0x19, 3), TLV4(0x50), TV3(0x55, 4), TLV4(0x58),
            TV3(0x52, 5), TV3(0x5C, 2), TV1(0xA), TLV4(0x57), TLV4(0x31), TV3(0x13, 5), TV1(0x9),
            TLV4(0x11), TLV4(0x20), TLV4(0x40), TV1(0xF), TLV4(0x5D), TV1(0xE), TV1(0xD), TV1(0xC),
            TLV4(0x10), TLV4(0x6A), TLV4(0x5E), TLV4(0x6E), TLV4(0x6F),
        ],
        EMMKind::EMMTrackingAreaUpdateAccept => vec![
            V1, V1, TV3(0x5A, 1), TLV4(0x50), TLV4(0x54), TLV4(0x57), TV3(0x13, 5), TLV4(0x23),
            TV3(0x53, 1), TV3(0x17, 1), TV3(0x59, 1), TLV4(0x4A), TLV4(0x34), TLV4(0x64), TV1(0xF),
            TLV4(0x5E), TLV4(0x6A), TLV4(0x6E),
        ],
        EMMKind::EMMTrackingAreaUpdateComplete => vec![],
        EMMKind::EMMTrackingAreaUpdateReject => vec![V3(1), TLV4(0x5F), TV1(0xA)],
        EMMKind::EMMExtServiceRequest => vec![V1, V1, LV4, TV1(0xB), TLV4(0x57), TV1(0xD)],
        EMMKind::EMMCPServiceRequest => vec![V1, V1, TLVE6(0x78), TLV4(0x67), TLV4(0x57), TV1(0xD)],
        EMMKind::EMMServiceReject => vec![V3(1), TV3(0x5B, 1), TLV4(0x5F), TLV4(0x6B)],
        EMMKind::EMMServiceAccept => vec![TLV4(0x57), TLV4(0x6B)],
        EMMKind::EMMGUTIReallocCommand => vec![LV4, TLV4(0x54), TLV4(0x65)],
        EMMKind::EMMGUTIReallocComplete => vec![],
        EMMKind::EMMAuthenticationRequest => vec![V1, V1, V3(16), LV4],
        EMMKind::EMMAuthenticationResponse => vec![LV4],
        EMMKind::EMMAuthenticationReject => vec![],
        EMMKind::EMMAuthenticationFailure => vec![V3(1), TLV4(0x30)],
        EMMKind::EMMIdentityRequest => vec![V1, V1],
        EMMKind::EMMIdentityResponse => vec![LV4],
        EMMKind::EMMSecurityModeCommand => vec![
            V3(1), V1, V1, LV4, TV1(0xC), TV3(0x55, 4), TV3(0x56, 4), TLV4(0x4F), TLV4(0x6F),
        ],
        EMMKind::EMMSecurityModeComplete => vec![TLV4(0x23), TLVE6(0x79)],
        EMMKind::EMMSecurityModeReject => vec![V3(1)],
        EMMKind::EMMStatus => vec![V3(1)],
        EMMKind::EMMInformation => vec![
            TLV4(0x43), TLV4(0x45), TV3(0x46, 1), TV3(0x47, 7), TLV4(0x49),
        ],
        EMMKind::EMMDLNASTransport => vec![LV4],
        EMMKind::EMMULNASTransport => vec![LV4],
        EMMKind::EMMCSServiceNotification => vec![
            V3(1), TLV4(0x60), TV3(0x61, 1), TV3(0x62, 1), TLV4(0x63),
        ],
        EMMKind::EMMDLGenericNASTransport => vec![V3(1), LVE6, TLV4(0x65)],
        EMMKind::EMMULGenericNASTransport => vec![V3(1), LVE6, TLV4(0x65)],
    }
}

/// A decoded EMM message: its layout and its IEs in schema order.
#[derive(Clone, Debug)]
pub struct EMMMessage {
    pub kind: EMMKind,
    pub ies: Vec<IeValue>,
}

/// The layout that a message of type `t` at `p` is decoded with, if any decodes.
/// A DetachRequest is the MO layout where that decodes, else the MT layout.
pub open spec fn emm_choice(d: Seq<u8>, p: nat, t: EMMType) -> Option<EMMKind> {
    if t == EMMType::DetachRequest {
        if schema_ok(d, p, emm_schema(EMMKind::EMMDetachRequestMO)) {
            Some(EMMKind::EMMDetachRequestMO)
        } else if schema_ok(d, p, emm_schema(EMMKind::EMMDetachRequestMT)) {
            Some(EMMKind::EMMDetachRequestMT)
        } else {
            None
        }
    } else if schema_ok(d, p, emm_schema(emm_kind_of(t))) {
        Some(emm_kind_of(t))
    } else {
        None
    }
}

/// What decoding the body of an EMM message of type `t` at `p` gives.
pub open spec fn emm_result(d: Seq<u8>, p: nat, t: EMMType, r: Result<EMMMessage, DecodeError>) -> bool {
    &&& r.is_ok() == emm_choice(d, p, t) is Some
    &&& r matches Ok(m) ==> emm_choice(d, p, t) == Some(m.kind) && schema_matches(
        d,
        p,
        emm_schema(m.kind),
        m.ies@,
    )
    &&& r matches Err(e) ==> e == DecodeError::ShortRead
}

/// Decodes the body of an EMM message of type `emm_type`, which starts at the
/// reader's position.
pub fn parse_emm_nas(emm_type: EMMType, reader: BitReader) -> (r: Result<EMMMessage, DecodeError>)
    requires
        reader.wf(),
    ensures
        emm_result(reader.data(), reader.pos(), emm_type, r),
{
    let mut reader = reader;
    match emm_type {
        // MO and MT DetachRequests share a type: try MO, then from the same
        // place MT
        EMMType::DetachRequest => {
            let mark = reader.bookmark();
            proof {
                reader.lemma_wf();
            }
            let mo = emm_schema_of(EMMKind::EMMDetachRequestMO);
            match decode_schema(&mut reader, &mo) {
                Ok(ies) => Ok(EMMMessage { kind: EMMKind::EMMDetachRequestMO, ies }),
                Err(_) => {
                    reader.seek_absolute(mark);
                    let mt = emm_schema_of(EMMKind::EMMDetachRequestMT);
                    let ies = decode_schema(&mut reader, &mt)?;
                    Ok(EMMMessage { kind: EMMKind::EMMDetachRequestMT, ies })
                },
            }
        },
        _ => {
            let kind = kind_of(emm_type);
            let s = emm_schema_of(kind);
            let ies = decode_schema(&mut reader, &s)?;
            Ok(EMMMessage { kind, ies })
        },
    }
}

} // verus!
