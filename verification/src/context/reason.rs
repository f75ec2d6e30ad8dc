//! Stable reasons for allowed decisions and errors for rejected finalization.

use vstd::prelude::*;
use crate::redaction::{redacted_tuple, redacted_tuple_text};

verus! {

/// Stable reason for an allowed authorization decision.
#[derive(Clone, Copy, PartialEq, Eq, Structural)]
pub enum AuthorizationReason {
    /// Only the configured Nostr proof was required.
    NostrOnly,
    /// An existing direct federated binding matched.
    ///
    /// Enrollment policy governs creation of new bindings. Resolution of an
    /// existing active binding, including future lease checks, is a separate
    /// lifecycle decision.
    ExistingBinding,
    /// A direct binding was created under attested-key enrollment.
    EnrolledAttestedKey,
    /// A direct binding was created under trust-on-first-use enrollment.
    EnrolledTofu,
    /// A verified delegate derived authority from a bound owner.
    DelegatedOwnerBinding,
}

impl AuthorizationReason {
    /// Text of the stable code of each reason.
    pub open spec fn code_text(self) -> Seq<char> {
        match self {
            AuthorizationReason::NostrOnly => "authorization_allow_001"@,
            AuthorizationReason::ExistingBinding => "authorization_allow_002"@,
            AuthorizationReason::EnrolledAttestedKey => "authorization_allow_003"@,
            AuthorizationReason::EnrolledTofu => "authorization_allow_004"@,
            AuthorizationReason::DelegatedOwnerBinding => "authorization_allow_005"@,
        }
    }

    /// Stable audit and metric code for this decision.
    pub fn code(self) -> (r: &'static str)
        ensures
            r@ == self.code_text(),
    {
        match self {
            AuthorizationReason::NostrOnly => "authorization_allow_001",
            AuthorizationReason::ExistingBinding => "authorization_allow_002",
            AuthorizationReason::EnrolledAttestedKey => "authorization_allow_003",
            AuthorizationReason::EnrolledTofu => "authorization_allow_004",
            AuthorizationReason::DelegatedOwnerBinding => "authorization_allow_005",
        }
    }
}

/// Invalid authorization-context construction.
#[derive(Clone, Copy, PartialEq, Eq, Structural, Debug)]
pub enum AuthContextError {
    /// Issuer was empty.
    EmptyIssuer,
    /// Subject was empty.
    EmptySubject,
    /// Binding version was zero.
    InvalidBindingVersion,
    /// Binding identifier was the nil UUID.
    InvalidBindingId,
    /// Assertion expiry was not a valid Unix timestamp.
    InvalidAssertionExpiry,
    /// Delegation expiry was not a valid Unix timestamp.
    InvalidDelegationExpiry,
    /// Admission expiry was not a valid Unix timestamp.
    InvalidAdmissionExpiry,
    /// Assertion had expired when authorization was evaluated.
    AssertionExpired,
    /// Assertion was used before its validated not-before bound.
    AssertionNotYetValid,
    /// Required key-attestation evidence was absent.
    KeyAttestationRequired,
    /// Key-attestation evidence named a different Nostr actor.
    KeyAttestationMismatch,
    /// Owner admission was no longer current when authorization was evaluated.
    OwnerAdmissionExpired,
    /// Resolved policy required federated identity, but none was supplied.
    FederatedIdentityRequired,
    /// Federated authorization was supplied for a domain that does not use it.
    UnexpectedFederatedAuthorization,
    /// Delegation had expired when authorization was evaluated.
    DelegationExpired,
    /// Owner and delegate were the same key.
    SelfDelegation,
    /// Direct authorization reason did not match its enrollment policy or source.
    InvalidAuthorizationReason,
    /// Binding belonged to a different server-resolved authorization domain.
    BindingDomainMismatch,
    /// Nostr proof was verified for a different authorization domain.
    NostrProofDomainMismatch,
    /// Federated policy was resolved for a different authorization domain.
    PolicyDomainMismatch,
    /// Community admission was resolved for a different authorization domain.
    CommunityAccessDomainMismatch,
    /// Assertion was verified for a different authorization domain.
    AssertionDomainMismatch,
    /// Assertion was verified for a different transport.
    AssertionTransportMismatch,
    /// Owner admission was resolved for a different authorization domain.
    OwnerAdmissionDomainMismatch,
    /// Owner admission represented a different bound principal.
    OwnerAdmissionPrincipalMismatch,
    /// Validated assertion principal did not match the active binding.
    AssertionPrincipalMismatch,
    /// Proof method was not valid for the transport being authorized.
    TransportProofMismatch,
    /// Direct federated authorization was attached to a delegated Nostr actor.
    DirectAuthorizationHasOwner,
    /// Direct binding key did not match the authenticated actor.
    DirectBindingKeyMismatch,
    /// Delegated authorization named a different actor.
    DelegateKeyMismatch,
    /// Delegated federated authorization lacked verified Nostr delegation.
    DelegationRequired,
    /// Delegated authorization did not match the verified Nostr owner.
    DelegatedOwnerMismatch,
}

impl AuthContextError {
    /// Text of the stable code of each error.
    pub open spec fn code_text(self) -> Seq<char> {
        match self {
            AuthContextError::EmptyIssuer => "federated_principal_empty_issuer"@,
            AuthContextError::EmptySubject => "federated_principal_empty_subject"@,
            AuthContextError::InvalidBindingVersion => "federated_binding_invalid_version"@,
            AuthContextError::InvalidBindingId => "federated_binding_invalid_id"@,
            AuthContextError::InvalidAssertionExpiry => "federated_assertion_invalid_expiry"@,
            AuthContextError::InvalidDelegationExpiry => "delegation_invalid_expiry"@,
            AuthContextError::InvalidAdmissionExpiry => "owner_admission_invalid_expiry"@,
            AuthContextError::AssertionExpired => "federated_assertion_expired"@,
            AuthContextError::AssertionNotYetValid => "federated_assertion_not_yet_valid"@,
            AuthContextError::KeyAttestationRequired => "federated_key_attestation_required"@,
            AuthContextError::KeyAttestationMismatch => "federated_key_attestation_mismatch"@,
            AuthContextError::OwnerAdmissionExpired => "owner_admission_expired"@,
            AuthContextError::FederatedIdentityRequired => "federated_identity_required"@,
            AuthContextError::UnexpectedFederatedAuthorization => "federated_authorization_unexpected"@,
            AuthContextError::DelegationExpired => "delegation_expired"@,
            AuthContextError::SelfDelegation => "delegation_self_reference"@,
            AuthContextError::InvalidAuthorizationReason => "federated_binding_invalid_reason"@,
            AuthContextError::BindingDomainMismatch => "federated_binding_domain_mismatch"@,
            AuthContextError::NostrProofDomainMismatch => "nostr_proof_domain_mismatch"@,
            AuthContextError::PolicyDomainMismatch => "federated_policy_domain_mismatch"@,
            AuthContextError::CommunityAccessDomainMismatch => "community_access_domain_mismatch"@,
            AuthContextError::AssertionDomainMismatch => "federated_assertion_domain_mismatch"@,
            AuthContextError::AssertionTransportMismatch => "federated_assertion_transport_mismatch"@,
            AuthContextError::OwnerAdmissionDomainMismatch => "owner_admission_domain_mismatch"@,
            AuthContextError::OwnerAdmissionPrincipalMismatch => "owner_admission_principal_mismatch"@,
            AuthContextError::AssertionPrincipalMismatch => "federated_assertion_principal_mismatch"@,
            AuthContextError::TransportProofMismatch => "nostr_transport_proof_mismatch"@,
            AuthContextError::DirectAuthorizationHasOwner => "federated_direct_has_owner"@,
            AuthContextError::DirectBindingKeyMismatch => "federated_direct_key_mismatch"@,
            AuthContextError::DelegateKeyMismatch => "federated_delegate_key_mismatch"@,
            AuthContextError::DelegationRequired => "federated_delegation_required"@,
            AuthContextError::DelegatedOwnerMismatch => "federated_delegated_owner_mismatch"@,
        }
    }

    /// Stable audit and metric code for this rejected finalization.
    pub fn code(self) -> (r: &'static str)
        ensures
            r@ == self.code_text(),
    {
        match self {
            AuthContextError::EmptyIssuer => "federated_principal_empty_issuer",
            AuthContextError::EmptySubject => "federated_principal_empty_subject",
            AuthContextError::InvalidBindingVersion => "federated_binding_invalid_version",
            AuthContextError::InvalidBindingId => "federated_binding_invalid_id",
            AuthContextError::InvalidAssertionExpiry => "federated_assertion_invalid_expiry",
            AuthContextError::InvalidDelegationExpiry => "delegation_invalid_expiry",
            AuthContextError::InvalidAdmissionExpiry => "owner_admission_invalid_expiry",
            AuthContextError::AssertionExpired => "federated_assertion_expired",
            AuthContextError::AssertionNotYetValid => "federated_assertion_not_yet_valid",
            AuthContextError::KeyAttestationRequired => "federated_key_attestation_required",
            AuthContextError::KeyAttestationMismatch => "federated_key_attestation_mismatch",
            AuthContextError::OwnerAdmissionExpired => "owner_admission_expired",
            AuthContextError::FederatedIdentityRequired => "federated_identity_required",
            AuthContextError::UnexpectedFederatedAuthorization => "federated_authorization_unexpected",
            AuthContextError::DelegationExpired => "delegation_expired",
            AuthContextError::SelfDelegation => "delegation_self_reference",
            AuthContextError::InvalidAuthorizationReason => "federated_binding_invalid_reason",
            AuthContextError::BindingDomainMismatch => "federated_binding_domain_mismatch",
            AuthContextError::NostrProofDomainMismatch => "nostr_proof_domain_mismatch",
            AuthContextError::PolicyDomainMismatch => "federated_policy_domain_mismatch",
            AuthContextError::CommunityAccessDomainMismatch => "community_access_domain_mismatch",
            AuthContextError::AssertionDomainMismatch => "federated_assertion_domain_mismatch",
            AuthContextError::AssertionTransportMismatch => "federated_assertion_transport_mismatch",
            AuthContextError::OwnerAdmissionDomainMismatch => "owner_admission_domain_mismatch",
            AuthContextError::OwnerAdmissionPrincipalMismatch => "owner_admission_principal_mismatch",
            AuthContextError::AssertionPrincipalMismatch => "federated_assertion_principal_mismatch",
            AuthContextError::TransportProofMismatch => "nostr_transport_proof_mismatch",
            AuthContextError::DirectAuthorizationHasOwner => "federated_direct_has_owner",
            AuthContextError::DirectBindingKeyMismatch => "federated_direct_key_mismatch",
            AuthContextError::DelegateKeyMismatch => "federated_delegate_key_mismatch",
            AuthContextError::DelegationRequired => "federated_delegation_required",
            AuthContextError::DelegatedOwnerMismatch => "federated_delegated_owner_mismatch",
        }
    }
}


/// The error whose stable code is `code`, told apart by the code's length and
/// at most two of its characters.
pub open spec fn error_of_code(code: Seq<char>) -> Option<AuthContextError> {
    if code.len() == 18 {
        Some(AuthContextError::DelegationExpired)
    } else if code.len() == 23 {
        Some(AuthContextError::OwnerAdmissionExpired)
    } else if code.len() == 25 {
        if code[11] == 'i' {
            Some(AuthContextError::InvalidDelegationExpiry)
        } else if code[11] == 's' {
            Some(AuthContextError::SelfDelegation)
        } else {
            None
        }
    } else if code.len() == 26 {
        Some(AuthContextError::DirectAuthorizationHasOwner)
    } else if code.len() == 27 {
        if code[10] == 'a' {
            Some(AuthContextError::AssertionExpired)
        } else if code[10] == 'i' {
            Some(AuthContextError::FederatedIdentityRequired)
        } else if code[10] == 'f' {
            Some(AuthContextError::NostrProofDomainMismatch)
        } else {
            None
        }
    } else if code.len() == 28 {
        Some(AuthContextError::InvalidBindingId)
    } else if code.len() == 29 {
        if code[11] == 'i' {
            Some(AuthContextError::DirectBindingKeyMismatch)
        } else if code[11] == 'e' {
            Some(AuthContextError::DelegationRequired)
        } else {
            None
        }
    } else if code.len() == 30 {
        if code[0] == 'o' {
            Some(AuthContextError::InvalidAdmissionExpiry)
        } else if code[0] == 'n' {
            Some(AuthContextError::TransportProofMismatch)
        } else {
            None
        }
    } else if code.len() == 31 {
        if code[0] == 'o' {
            Some(AuthContextError::OwnerAdmissionDomainMismatch)
        } else if code[0] == 'f' {
            Some(AuthContextError::DelegateKeyMismatch)
        } else {
            None
        }
    } else if code.len() == 32 {
        if code[11] == 'r' {
            Some(AuthContextError::EmptyIssuer)
        } else if code[11] == 'i' {
            Some(AuthContextError::InvalidAuthorizationReason)
        } else if code[11] == 'o' {
            Some(AuthContextError::PolicyDomainMismatch)
        } else if code[11] == 'c' {
            Some(AuthContextError::CommunityAccessDomainMismatch)
        } else {
            None
        }
    } else if code.len() == 33 {
        if code[18] == 'l' {
            Some(AuthContextError::EmptySubject)
        } else if code[18] == 'i' {
            Some(AuthContextError::InvalidBindingVersion)
        } else if code[18] == 'n' {
            Some(AuthContextError::AssertionNotYetValid)
        } else if code[18] == 'd' {
            Some(AuthContextError::BindingDomainMismatch)
        } else {
            None
        }
    } else if code.len() == 34 {
        if code[10] == 'a' && code[26] == 'd' {
            Some(AuthContextError::InvalidAssertionExpiry)
        } else if code[10] == 'k' && code[26] == 'r' {
            Some(AuthContextError::KeyAttestationRequired)
        } else if code[10] == 'k' && code[26] == 'm' {
            Some(AuthContextError::KeyAttestationMismatch)
        } else if code[10] == 'a' && code[26] == 'e' {
            Some(AuthContextError::UnexpectedFederatedAuthorization)
        } else if code[10] == 's' && code[26] == 'm' {
            Some(AuthContextError::OwnerAdmissionPrincipalMismatch)
        } else if code[10] == 'd' && code[26] == 'm' {
            Some(AuthContextError::DelegatedOwnerMismatch)
        } else {
            None
        }
    } else if code.len() == 35 {
        Some(AuthContextError::AssertionDomainMismatch)
    } else if code.len() == 38 {
        if code[20] == 't' {
            Some(AuthContextError::AssertionTransportMismatch)
        } else if code[20] == 'p' {
            Some(AuthContextError::AssertionPrincipalMismatch)
        } else {
            None
        }
    } else {
        None
    }
}

/// Every error's stable code reads back as that error.
pub proof fn lemma_error_code_identifies_error(e: AuthContextError)
    ensures
        error_of_code(e.code_text()) == Some(e),
{
    match e {
        AuthContextError::EmptyIssuer => {
            reveal_strlit("federated_principal_empty_issuer");
        },
        AuthContextError::EmptySubject => {
            reveal_strlit("federated_principal_empty_subject");
        },
        AuthContextError::InvalidBindingVersion => {
            reveal_strlit("federated_binding_invalid_version");
        },
        AuthContextError::InvalidBindingId => {
            reveal_strlit("federated_binding_invalid_id");
        },
        AuthContextError::InvalidAssertionExpiry => {
            reveal_strlit("federated_assertion_invalid_expiry");
        },
        AuthContextError::InvalidDelegationExpiry => {
            reveal_strlit("delegation_invalid_expiry");
        },
        AuthContextError::InvalidAdmissionExpiry => {
            reveal_strlit("owner_admission_invalid_expiry");
        },
        AuthContextError::AssertionExpired => {
            reveal_strlit("federated_assertion_expired");
        },
        AuthContextError::AssertionNotYetValid => {
            reveal_strlit("federated_assertion_not_yet_valid");
        },
        AuthContextError::KeyAttestationRequired => {
            reveal_strlit("federated_key_attestation_required");
        },
        AuthContextError::KeyAttestationMismatch => {
            reveal_strlit("federated_key_attestation_mismatch");
        },
        AuthContextError::OwnerAdmissionExpired => {
            reveal_strlit("owner_admission_expired");
        },
        AuthContextError::FederatedIdentityRequired => {
            reveal_strlit("federated_identity_required");
        },
        AuthContextError::UnexpectedFederatedAuthorization => {
            reveal_strlit("federated_authorization_unexpected");
        },
        AuthContextError::DelegationExpired => {
            reveal_strlit("delegation_expired");
        },
        AuthContextError::SelfDelegation => {
            reveal_strlit("delegation_self_reference");
        },
        AuthContextError::InvalidAuthorizationReason => {
            reveal_strlit("federated_binding_invalid_reason");
        },
        AuthContextError::BindingDomainMismatch => {
            reveal_strlit("federated_binding_domain_mismatch");
        },
        AuthContextError::NostrProofDomainMismatch => {
            reveal_strlit("nostr_proof_domain_mismatch");
        },
        AuthContextError::PolicyDomainMismatch => {
            reveal_strlit("federated_policy_domain_mismatch");
        },
        AuthContextError::CommunityAccessDomainMismatch => {
            reveal_strlit("community_access_domain_mismatch");
        },
        AuthContextError::AssertionDomainMismatch => {
            reveal_strlit("federated_assertion_domain_mismatch");
        },
        AuthContextError::AssertionTransportMismatch => {
            reveal_strlit("federated_assertion_transport_mismatch");
        },
        AuthContextError::OwnerAdmissionDomainMismatch => {
            reveal_strlit("owner_admission_domain_mismatch");
        },
        AuthContextError::OwnerAdmissionPrincipalMismatch => {
            reveal_strlit("owner_admission_principal_mismatch");
        },
        AuthContextError::AssertionPrincipalMismatch => {
            reveal_strlit("federated_assertion_principal_mismatch");
        },
        AuthContextError::TransportProofMismatch => {
            reveal_strlit("nostr_transport_proof_mismatch");
        },
        AuthContextError::DirectAuthorizationHasOwner => {
            reveal_strlit("federated_direct_has_owner");
        },
        AuthContextError::DirectBindingKeyMismatch => {
            reveal_strlit("federated_direct_key_mismatch");
        },
        AuthContextError::DelegateKeyMismatch => {
            reveal_strlit("federated_delegate_key_mismatch");
        },
        AuthContextError::DelegationRequired => {
            reveal_strlit("federated_delegation_required");
        },
        AuthContextError::DelegatedOwnerMismatch => {
            reveal_strlit("federated_delegated_owner_mismatch");
        },
    }
}

/// Distinct authorization-context errors have distinct stable codes.
pub proof fn lemma_error_codes_distinct(a: AuthContextError, b: AuthContextError)
    requires
        a != b,
    ensures
        a.code_text() != b.code_text(),
{
    lemma_error_code_identifies_error(a);
    lemma_error_code_identifies_error(b);
}

impl AuthorizationReason {
    /// Redaction-safe rendering: the contents are hidden.
    pub fn redacted_debug(&self) -> (r: String)
        ensures
            r@ == redacted_tuple_text("AuthorizationReason"@),
    {
        redacted_tuple("AuthorizationReason")
    }
}

} // verus!
