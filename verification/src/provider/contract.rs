//! Bounds of the provider contract and its construction errors.

use vstd::prelude::*;

verus! {

/// Maximum size, in UTF-8 bytes, of an opaque profile identifier or policy version.
pub const MAX_OPAQUE_ID_BYTES: usize = 256;

/// Maximum provider retry hint, in seconds.
pub const MAX_RETRY_AFTER_SECONDS: u32 = 3_600;

/// Maximum freshness window accepted from an authorization provider.
pub const MAX_PROVIDER_FRESHNESS_SECONDS: u64 = 86_400;

/// Maximum deadline accepted for one authorization-provider call, in nanoseconds (one minute).
pub const MAX_PROVIDER_TIMEOUT_NANOS: u64 = 60_000_000_000;

/// Invalid provider request or response construction.
#[derive(Clone, Copy, PartialEq, Eq, Structural, Debug)]
pub enum ProviderContractError {
    /// A capability set was empty.
    EmptyCapabilitySet,
    /// The authorization profile identifier was empty.
    EmptyProfileId,
    /// The authorization profile identifier exceeded its size bound.
    ProfileIdTooLong,
    /// The policy version was empty.
    EmptyPolicyVersion,
    /// The policy version exceeded its size bound.
    PolicyVersionTooLong,
    /// Provider decision issue time was zero.
    InvalidIssuedAt,
    /// Provider freshness did not follow issue time.
    InvalidFreshnessBound,
    /// Provider freshness exceeded the public maximum window.
    FreshnessWindowTooLong,
    /// Retry metadata was zero or exceeded its public bound.
    InvalidRetryAfter,
    /// Provider call deadline was zero or exceeded its public bound.
    InvalidProviderTimeout,
    /// Correlation identifier was nil.
    InvalidCorrelationId,
    /// Direct evidence contained delegated authority.
    DirectRequestHasOwner,
    /// Verified evidence belonged to different authorization domains.
    AuthorizationDomainMismatch,
    /// Verified assertion and Nostr proof authorized different transports.
    TransportMismatch,
    /// Assertion was not yet valid at server time.
    AssertionNotYetValid,
    /// Assertion was expired at server time.
    AssertionExpired,
    /// Assertion key attestation named another actor.
    KeyAttestationMismatch,
    /// Direct assertion omitted a key attestation.
    MissingKeyAttestation,
    /// Delegated request lacked verified delegation.
    DelegationRequired,
    /// Delegated request named another bound owner.
    DelegatedOwnerMismatch,
    /// Delegation was expired at server time.
    DelegationExpired,
}

impl ProviderContractError {
    /// Number that ends the stable code of each error.
    pub open spec fn code_number(self) -> nat {
        match self {
            ProviderContractError::EmptyCapabilitySet => 1,
            ProviderContractError::EmptyProfileId => 2,
            ProviderContractError::ProfileIdTooLong => 3,
            ProviderContractError::EmptyPolicyVersion => 4,
            ProviderContractError::PolicyVersionTooLong => 5,
            ProviderContractError::InvalidIssuedAt => 6,
            ProviderContractError::InvalidFreshnessBound => 7,
            ProviderContractError::InvalidRetryAfter => 8,
            ProviderContractError::DirectRequestHasOwner => 9,
            ProviderContractError::AuthorizationDomainMismatch => 10,
            ProviderContractError::TransportMismatch => 11,
            ProviderContractError::AssertionNotYetValid => 12,
            ProviderContractError::AssertionExpired => 13,
            ProviderContractError::KeyAttestationMismatch => 14,
            ProviderContractError::DelegationRequired => 15,
            ProviderContractError::DelegatedOwnerMismatch => 16,
            ProviderContractError::DelegationExpired => 17,
            ProviderContractError::InvalidProviderTimeout => 18,
            ProviderContractError::InvalidCorrelationId => 19,
            ProviderContractError::MissingKeyAttestation => 20,
            ProviderContractError::FreshnessWindowTooLong => 21,
        }
    }

    /// Text of the stable code of each error.
    pub open spec fn code_text(self) -> Seq<char> {
        match self {
            ProviderContractError::EmptyCapabilitySet => "authorization_provider_contract_001"@,
            ProviderContractError::EmptyProfileId => "authorization_provider_contract_002"@,
            ProviderContractError::ProfileIdTooLong => "authorization_provider_contract_003"@,
            ProviderContractError::EmptyPolicyVersion => "authorization_provider_contract_004"@,
            ProviderContractError::PolicyVersionTooLong => "authorization_provider_contract_005"@,
            ProviderContractError::InvalidIssuedAt => "authorization_provider_contract_006"@,
            ProviderContractError::InvalidFreshnessBound => "authorization_provider_contract_007"@,
            ProviderContractError::InvalidRetryAfter => "authorization_provider_contract_008"@,
            ProviderContractError::DirectRequestHasOwner => "authorization_provider_contract_009"@,
            ProviderContractError::AuthorizationDomainMismatch => "authorization_provider_contract_010"@,
            ProviderContractError::TransportMismatch => "authorization_provider_contract_011"@,
            ProviderContractError::AssertionNotYetValid => "authorization_provider_contract_012"@,
            ProviderContractError::AssertionExpired => "authorization_provider_contract_013"@,
            ProviderContractError::KeyAttestationMismatch => "authorization_provider_contract_014"@,
            ProviderContractError::DelegationRequired => "authorization_provider_contract_015"@,
            ProviderContractError::DelegatedOwnerMismatch => "authorization_provider_contract_016"@,
            ProviderContractError::DelegationExpired => "authorization_provider_contract_017"@,
            ProviderContractError::InvalidProviderTimeout => "authorization_provider_contract_018"@,
            ProviderContractError::InvalidCorrelationId => "authorization_provider_contract_019"@,
            ProviderContractError::MissingKeyAttestation => "authorization_provider_contract_020"@,
            ProviderContractError::FreshnessWindowTooLong => "authorization_provider_contract_021"@,
        }
    }

    /// Stable provider-neutral audit and metric code.
    pub fn code(self) -> (r: &'static str)
        ensures
            r@ == self.code_text(),
    {
        match self {
            ProviderContractError::EmptyCapabilitySet => "authorization_provider_contract_001",
            ProviderContractError::EmptyProfileId => "authorization_provider_contract_002",
            ProviderContractError::ProfileIdTooLong => "authorization_provider_contract_003",
            ProviderContractError::EmptyPolicyVersion => "authorization_provider_contract_004",
            ProviderContractError::PolicyVersionTooLong => "authorization_provider_contract_005",
            ProviderContractError::InvalidIssuedAt => "authorization_provider_contract_006",
            ProviderContractError::InvalidFreshnessBound => "authorization_provider_contract_007",
            ProviderContractError::InvalidRetryAfter => "authorization_provider_contract_008",
            ProviderContractError::DirectRequestHasOwner => "authorization_provider_contract_009",
            ProviderContractError::AuthorizationDomainMismatch => "authorization_provider_contract_010",
            ProviderContractError::TransportMismatch => "authorization_provider_contract_011",
            ProviderContractError::AssertionNotYetValid => "authorization_provider_contract_012",
            ProviderContractError::AssertionExpired => "authorization_provider_contract_013",
            ProviderContractError::KeyAttestationMismatch => "authorization_provider_contract_014",
            ProviderContractError::DelegationRequired => "authorization_provider_contract_015",
            ProviderContractError::DelegatedOwnerMismatch => "authorization_provider_contract_016",
            ProviderContractError::DelegationExpired => "authorization_provider_contract_017",
            ProviderContractError::InvalidProviderTimeout => "authorization_provider_contract_018",
            ProviderContractError::InvalidCorrelationId => "authorization_provider_contract_019",
            ProviderContractError::MissingKeyAttestation => "authorization_provider_contract_020",
            ProviderContractError::FreshnessWindowTooLong => "authorization_provider_contract_021",
        }
    }
}

} // verus!
