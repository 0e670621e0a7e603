use vstd::prelude::*;

verus! {

/// EMM security header types (the high half octet of an EMM message).
#[derive(Clone, Copy, Debug, PartialEq, Eq, Structural)]
pub enum SecHdrType {
    NoSecurity,
    IntegrityProtected,
    IntegrityProtectedAndCiphered,
    IntegrityProtectedNewEPS,
    IntegrityProtectedAndCipheredNewEPS,
    SecurityHeaderForServiceRequest,
}

impl SecHdrType {
    /// The value this variant is coded as.
    pub open spec fn spec_id(self) -> u8 {
        match self {
            SecHdrType::NoSecurity => 0,
            SecHdrType::IntegrityProtected => 1,
            SecHdrType::IntegrityProtectedAndCiphered => 2,
            SecHdrType::IntegrityProtectedNewEPS => 3,
            SecHdrType::IntegrityProtectedAndCipheredNewEPS => 4,
            SecHdrType::SecurityHeaderForServiceRequest => 12,
        }
    }

    /// The variant coded as `b`, if any.
    pub open spec fn spec_from_id(b: u8) -> Option<SecHdrType> {
        match b {
            0 => Some(SecHdrType::NoSecurity),
            1 => Some(SecHdrType::IntegrityProtected),
            2 => Some(SecHdrType::IntegrityProtectedAndCiphered),
            3 => Some(SecHdrType::IntegrityProtectedNewEPS),
            4 => Some(SecHdrType::IntegrityProtectedAndCipheredNewEPS),
            12 => Some(SecHdrType::SecurityHeaderForServiceRequest),
            _ => None,
        }
    }

    pub fn id(&self) -> (r: u8)
        ensures
            r == self.spec_id(),
    {
        match self {
            SecHdrType::NoSecurity => 0,
            SecHdrType::IntegrityProtected => 1,
            SecHdrType::IntegrityProtectedAndCiphered => 2,
            SecHdrType::IntegrityProtectedNewEPS => 3,
            SecHdrType::IntegrityProtectedAndCipheredNewEPS => 4,
            SecHdrType::SecurityHeaderForServiceRequest => 12,
        }
    }

    pub fn from_id(b: u8) -> (r: Option<SecHdrType>)
        ensures
            r == SecHdrType::spec_from_id(b),
    {
        match b {
            0 => Some(SecHdrType::NoSecurity),
            1 => Some(SecHdrType::IntegrityProtected),
            2 => Some(SecHdrType::IntegrityProtectedAndCiphered),
            3 => Some(SecHdrType::IntegrityProtectedNewEPS),
            4 => Some(SecHdrType::IntegrityProtectedAndCipheredNewEPS),
            12 => Some(SecHdrType::SecurityHeaderForServiceRequest),
            _ => None,
        }
    }

    /// Every variant comes back from the value it is coded as.
    pub proof fn lemma_id_round_trip(self)
        ensures
            SecHdrType::spec_from_id(self.spec_id()) == Some(self),
    {
    }

    /// A value that decodes to a variant is the value that variant is coded as.
    pub proof fn lemma_from_id_round_trip(b: u8)
        ensures
            SecHdrType::spec_from_id(b) matches Some(t) ==> t.spec_id() == b,
    {
    }
}

/// Protocol discriminators (the low half octet of a NAS message).
#[derive(Clone, Copy, Debug, PartialEq, Eq, Structural)]
pub enum ProtocolDiscriminator {
    GCC,
    BCC,
    ESM,
    CC,
    GTTP,
    MM,
    RRM,
    EMM,
    GMM,
    SMS,
    SM,
    SS,
    LCS,
    Reserved,
    ExtendedProtDisc,
    Testing,
    FiveGSM,
    FiveGMM,
}

impl ProtocolDiscriminator {
    /// The value this variant is coded as.
    pub open spec fn spec_id(self) -> u8 {
        match self {
            ProtocolDiscriminator::GCC => 0,
            ProtocolDiscriminator::BCC => 1,
            ProtocolDiscriminator::ESM => 2,
            ProtocolDiscriminator::CC => 3,
            ProtocolDiscriminator::GTTP => 4,
            ProtocolDiscriminator::MM => 5,
            ProtocolDiscriminator::RRM => 6,
            ProtocolDiscriminator::EMM => 7,
            ProtocolDiscriminator::GMM => 8,
            ProtocolDiscriminator::SMS => 9,
            ProtocolDiscriminator::SM => 10,
            ProtocolDiscriminator::SS => 11,
            ProtocolDiscriminator::LCS => 12,
            ProtocolDiscriminator::Reserved => 13,
            ProtocolDiscriminator::ExtendedProtDisc => 14,
            ProtocolDiscriminator::Testing => 15,
            ProtocolDiscriminator::FiveGSM => 46,
            ProtocolDiscriminator::FiveGMM => 126,
        }
    }

    /// The variant coded as `b`, if any.
    pub open spec fn spec_from_id(b: u8) -> Option<ProtocolDiscriminator> {
        match b {
            0 => Some(ProtocolDiscriminator::GCC),
            1 => Some(ProtocolDiscriminator::BCC),
            2 => Some(ProtocolDiscriminator::ESM),
            3 => Some(ProtocolDiscriminator::CC),
            4 => Some(ProtocolDiscriminator::GTTP),
            5 => Some(ProtocolDiscriminator::MM),
            6 => Some(ProtocolDiscriminator::RRM),
            7 => Some(ProtocolDiscriminator::EMM),
            8 => Some(ProtocolDiscriminator::GMM),
            9 => Some(ProtocolDiscriminator::SMS),
            10 => Some(ProtocolDiscriminator::SM),
            11 => Some(ProtocolDiscriminator::SS),
            12 => Some(ProtocolDiscriminator::LCS),
            13 => Some(ProtocolDiscriminator::Reserved),
            14 => Some(ProtocolDiscriminator::ExtendedProtDisc),
            15 => Some(ProtocolDiscriminator::Testing),
            46 => Some(ProtocolDiscriminator::FiveGSM),
            126 => Some(ProtocolDiscriminator::FiveGMM),
            _ => None,
        }
    }

    pub fn id(&self) -> (r: u8)
        ensures
            r == self.spec_id(),
    {
        match self {
            ProtocolDiscriminator::GCC => 0,
            ProtocolDiscriminator::BCC => 1,
            ProtocolDiscriminator::ESM => 2,
            ProtocolDiscriminator::CC => 3,
            ProtocolDiscriminator::GTTP => 4,
            ProtocolDiscriminator::MM => 5,
            ProtocolDiscriminator::RRM => 6,
            ProtocolDiscriminator::EMM => 7,
            ProtocolDiscriminator::GMM => 8,
            ProtocolDiscriminator::SMS => 9,
            ProtocolDiscriminator::SM => 10,
            ProtocolDiscriminator::SS => 11,
            ProtocolDiscriminator::LCS => 12,
            ProtocolDiscriminator::Reserved => 13,
            ProtocolDiscriminator::ExtendedProtDisc => 14,
            ProtocolDiscriminator::Testing => 15,
            ProtocolDiscriminator::FiveGSM => 46,
            ProtocolDiscriminator::FiveGMM => 126,
        }
    }

    pub fn from_id(b: u8) -> (r: Option<ProtocolDiscriminator>)
        ensures
            r == ProtocolDiscriminator::spec_from_id(b),
    {
        match b {
            0 => Some(ProtocolDiscriminator::GCC),
            1 => Some(ProtocolDiscriminator::BCC),
            2 => Some(ProtocolDiscriminator::ESM),
            3 => Some(ProtocolDiscriminator::CC),
            4 => Some(ProtocolDiscriminator::GTTP),
            5 => Some(ProtocolDiscriminator::MM),
            6 => Some(ProtocolDiscriminator::RRM),
            7 => Some(ProtocolDiscriminator::EMM),
            8 => Some(ProtocolDiscriminator::GMM),
            9 => Some(ProtocolDiscriminator::SMS),
            10 => Some(ProtocolDiscriminator::SM),
            11 => Some(ProtocolDiscriminator::SS),
            12 => Some(ProtocolDiscriminator::LCS),
            13 => Some(ProtocolDiscriminator::Reserved),
            14 => Some(ProtocolDiscriminator::ExtendedProtDisc),
            15 => Some(ProtocolDiscriminator::Testing),
            46 => Some(ProtocolDiscriminator::FiveGSM),
            126 => Some(ProtocolDiscriminator::FiveGMM),
            _ => None,
        }
    }

    /// Every variant comes back from the value it is coded as.
    pub proof fn lemma_id_round_trip(self)
        ensures
            ProtocolDiscriminator::spec_from_id(self.spec_id()) == Some(self),
    {
    }

    /// A value that decodes to a variant is the value that variant is coded as.
    pub proof fn lemma_from_id_round_trip(b: u8)
        ensures
            ProtocolDiscriminator::spec_from_id(b) matches Some(t) ==> t.spec_id() == b,
    {
    }
}

impl ProtocolDiscriminator {
    /// Every half-octet value is the code of a protocol.
    pub proof fn lemma_half_octet(b: u8)
        requires
            b < 16,
        ensures
            ProtocolDiscriminator::spec_from_id(b) is Some,
    {
    }
}

/// The first octet of an EMM message.
#[derive(Clone, Copy, Debug, PartialEq, Eq, Structural)]
pub struct NASHeader {
    pub sec_hdr: SecHdrType,
    pub protocol_discriminator: ProtocolDiscriminator,
}

} // verus!
