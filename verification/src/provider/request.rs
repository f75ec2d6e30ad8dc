//! Provider requests derived from server-verified identity evidence.

use vstd::prelude::*;
use crate::redaction::{names_view, redacted_struct, redacted_struct_text, redacted_tuple, redacted_tuple_text};

use super::capability::{AuthorizationCapability, CapabilitySet};
use super::contract::ProviderContractError;
use super::opaque::AuthorizationProfileId;
use crate::context::binding::{BindingVersion, BindingView, VersionedBindingRef};
use crate::context::evidence::{
    delegation_expired_at, AssertionView, AuthMethod, AuthTransport, FederatedPrincipal,
    NostrProofView, VerifiedFederatedAssertion, VerifiedNostrProof,
};
use crate::ids::{CommunityId, PublicKey};

verus! {

/// Authority whose provider admission is requested.
#[derive(Clone, Copy, PartialEq, Eq, Structural)]
pub enum AuthorizationAuthority {
    /// The authenticated actor matches the admitted principal's key attestation.
    Direct,
    /// The authenticated actor derives authority from a bound owner.
    Delegated {
        /// Cryptographically verified and actively bound owner key.
        owner_pubkey: PublicKey,
        /// Stable identifier (UUID value) of the active owner binding.
        binding_id: u128,
        /// Exact active owner-binding version used for this decision.
        binding_version: BindingVersion,
    },
}

/// Description of how the provider request was derived.
#[derive(Clone, Copy, PartialEq, Eq, Structural)]
pub enum DecisionSource {
    /// Current verified assertion for the authenticated actor.
    DirectAssertion,
    /// Current active binding for a cryptographically verified owner.
    DelegatedOwnerBinding,
}

/// What a provider request carries.
pub struct RequestView {
    pub authorization_domain: CommunityId,
    pub transport: AuthTransport,
    pub actor_pubkey: PublicKey,
    pub proof_method: AuthMethod,
    pub authority: AuthorizationAuthority,
    pub principal: (Seq<char>, Seq<char>),
    pub profile_id: Seq<char>,
    pub requested_capabilities: Seq<AuthorizationCapability>,
    pub correlation_id: u128,
    pub decision_source: DecisionSource,
    pub evidence_valid_until: Option<u64>,
}

/// Provider request derived from server-verified identity evidence.
pub struct AuthorizationRequest {
    authorization_domain: CommunityId,
    transport: AuthTransport,
    actor_pubkey: PublicKey,
    proof_method: AuthMethod,
    authority: AuthorizationAuthority,
    principal: FederatedPrincipal,
    profile_id: AuthorizationProfileId,
    requested_capabilities: CapabilitySet,
    correlation_id: u128,
    decision_source: DecisionSource,
    evidence_valid_until: Option<u64>,
}

impl View for AuthorizationRequest {
    type V = RequestView;

    closed spec fn view(&self) -> RequestView {
        RequestView {
            authorization_domain: self.authorization_domain,
            transport: self.transport,
            actor_pubkey: self.actor_pubkey,
            proof_method: self.proof_method,
            authority: self.authority,
            principal: self.principal@,
            profile_id: self.profile_id@,
            requested_capabilities: self.requested_capabilities@,
            correlation_id: self.correlation_id,
            decision_source: self.decision_source,
            evidence_valid_until: self.evidence_valid_until,
        }
    }
}

/// First failing check of a direct request, in order.
pub open spec fn spec_direct_request_error(
    proof: NostrProofView,
    assertion: AssertionView,
    correlation_id: u128,
    now: u64,
) -> Option<ProviderContractError> {
    if correlation_id == 0 {
        Some(ProviderContractError::InvalidCorrelationId)
    } else if proof.verified_delegation is Some {
        Some(ProviderContractError::DirectRequestHasOwner)
    } else if proof.authorization_domain != assertion.authorization_domain {
        Some(ProviderContractError::AuthorizationDomainMismatch)
    } else if proof.authorized_transport != assertion.authorized_transport {
        Some(ProviderContractError::TransportMismatch)
    } else if assertion.key_attestation is None {
        Some(ProviderContractError::MissingKeyAttestation)
    } else if assertion.key_attestation->0@ != proof.actor_pubkey {
        Some(ProviderContractError::KeyAttestationMismatch)
    } else if assertion.not_before matches Some(nb) && now < nb@ {
        Some(ProviderContractError::AssertionNotYetValid)
    } else if now >= assertion.expires_at@ {
        Some(ProviderContractError::AssertionExpired)
    } else {
        None
    }
}

/// The request that a successful direct construction produces.
pub open spec fn spec_direct_request(
    proof: NostrProofView,
    assertion: AssertionView,
    profile_id: Seq<char>,
    requested: Seq<AuthorizationCapability>,
    correlation_id: u128,
) -> RequestView {
    RequestView {
        authorization_domain: proof.authorization_domain,
        transport: proof.authorized_transport,
        actor_pubkey: proof.actor_pubkey,
        proof_method: proof.proof_method,
        authority: AuthorizationAuthority::Direct,
        principal: assertion.principal,
        profile_id,
        requested_capabilities: requested,
        correlation_id,
        decision_source: DecisionSource::DirectAssertion,
        evidence_valid_until: Some(assertion.expires_at@),
    }
}

/// First failing check of a delegated request, in order.
pub open spec fn spec_delegated_request_error(
    proof: NostrProofView,
    owner: BindingView,
    correlation_id: u128,
    now: u64,
) -> Option<ProviderContractError> {
    if correlation_id == 0 {
        Some(ProviderContractError::InvalidCorrelationId)
    } else if proof.authorization_domain != owner.authorization_domain {
        Some(ProviderContractError::AuthorizationDomainMismatch)
    } else if proof.verified_delegation is None {
        Some(ProviderContractError::DelegationRequired)
    } else if proof.verified_delegation->0@.owner_pubkey != owner.bound_pubkey {
        Some(ProviderContractError::DelegatedOwnerMismatch)
    } else if delegation_expired_at(proof.verified_delegation->0@.expires_at, now) {
        Some(ProviderContractError::DelegationExpired)
    } else {
        None
    }
}

/// The request that a successful delegated construction produces.
pub open spec fn spec_delegated_request(
    proof: NostrProofView,
    owner: BindingView,
    profile_id: Seq<char>,
    requested: Seq<AuthorizationCapability>,
    correlation_id: u128,
) -> RequestView {
    RequestView {
        authorization_domain: proof.authorization_domain,
        transport: proof.authorized_transport,
        actor_pubkey: proof.actor_pubkey,
        proof_method: proof.proof_method,
        authority: AuthorizationAuthority::Delegated {
            owner_pubkey: owner.bound_pubkey,
            binding_id: owner.binding_id,
            binding_version: owner.binding_version,
        },
        principal: owner.principal,
        profile_id,
        requested_capabilities: requested,
        correlation_id,
        decision_source: DecisionSource::DelegatedOwnerBinding,
        evidence_valid_until: match proof.verified_delegation->0@.expires_at {
            Some(e) => Some(e@),
            None => None,
        },
    }
}

impl AuthorizationRequest {
    /// Build a direct request from a current key-attested assertion and Nostr proof.
    ///
    /// An unattested assertion is insufficient. `correlation_id` is a UUID
    /// value; `now_unix_seconds` must come from the server clock.
    pub fn direct(
        proof: &VerifiedNostrProof,
        assertion: &VerifiedFederatedAssertion,
        profile_id: AuthorizationProfileId,
        requested_capabilities: CapabilitySet,
        correlation_id: u128,
        now_unix_seconds: u64,
    ) -> (r: Result<Self, ProviderContractError>)
        ensures
            r is Ok <==> spec_direct_request_error(proof@, assertion@, correlation_id, now_unix_seconds) is None,
            r matches Err(e) ==> spec_direct_request_error(
                proof@,
                assertion@,
                correlation_id,
                now_unix_seconds,
            ) == Some(e),
            r matches Ok(request) ==> request@ == spec_direct_request(
                proof@,
                assertion@,
                profile_id@,
                requested_capabilities@,
                correlation_id,
            ),
    {
        if correlation_id == 0 {
            return Err(ProviderContractError::InvalidCorrelationId);
        }
        if proof.verified_delegation().is_some() {
            return Err(ProviderContractError::DirectRequestHasOwner);
        }
        if proof.authorization_domain() != assertion.authorization_domain() {
            return Err(ProviderContractError::AuthorizationDomainMismatch);
        }
        if proof.authorized_transport() != assertion.authorized_transport() {
            return Err(ProviderContractError::TransportMismatch);
        }
        let key_attestation = match assertion.key_attestation() {
            Some(attestation) => attestation,
            None => {
                return Err(ProviderContractError::MissingKeyAttestation);
            },
        };
        if key_attestation.pubkey() != proof.actor_pubkey() {
            return Err(ProviderContractError::KeyAttestationMismatch);
        }
        if let Some(bound) = assertion.not_before() {
            if bound.is_not_yet_valid_at(now_unix_seconds) {
                return Err(ProviderContractError::AssertionNotYetValid);
            }
        }
        if assertion.expires_at().is_expired_at(now_unix_seconds) {
            return Err(ProviderContractError::AssertionExpired);
        }
        Ok(
            AuthorizationRequest {
                authorization_domain: proof.authorization_domain(),
                transport: proof.authorized_transport(),
                actor_pubkey: proof.actor_pubkey(),
                proof_method: proof.proof_method(),
                authority: AuthorizationAuthority::Direct,
                principal: assertion.principal().clone(),
                profile_id,
                requested_capabilities,
                correlation_id,
                decision_source: DecisionSource::DirectAssertion,
                evidence_valid_until: Some(assertion.expires_at().unix_seconds()),
            },
        )
    }

    /// Build a delegated request for a cryptographically verified bound owner.
    ///
    /// This path does not require an owner assertion: the provider resolves
    /// current admission for the exact issuer-qualified bound owner.
    pub fn delegated(
        proof: &VerifiedNostrProof,
        owner: &VersionedBindingRef,
        profile_id: AuthorizationProfileId,
        requested_capabilities: CapabilitySet,
        correlation_id: u128,
        now_unix_seconds: u64,
    ) -> (r: Result<Self, ProviderContractError>)
        ensures
            r is Ok <==> spec_delegated_request_error(proof@, owner@, correlation_id, now_unix_seconds) is None,
            r matches Err(e) ==> spec_delegated_request_error(
                proof@,
                owner@,
                correlation_id,
                now_unix_seconds,
            ) == Some(e),
            r matches Ok(request) ==> request@ == spec_delegated_request(
                proof@,
                owner@,
                profile_id@,
                requested_capabilities@,
                correlation_id,
            ),
    {
        if correlation_id == 0 {
            return Err(ProviderContractError::InvalidCorrelationId);
        }
        if proof.authorization_domain() != owner.authorization_domain() {
            return Err(ProviderContractError::AuthorizationDomainMismatch);
        }
        let delegation = match proof.verified_delegation() {
            Some(delegation) => delegation,
            None => {
                return Err(ProviderContractError::DelegationRequired);
            },
        };
        if delegation.owner_pubkey() != owner.bound_pubkey() {
            return Err(ProviderContractError::DelegatedOwnerMismatch);
        }
        if let Some(bound) = delegation.expires_at() {
            if bound.is_expired_at(now_unix_seconds) {
                return Err(ProviderContractError::DelegationExpired);
            }
        }
        let evidence_valid_until = match delegation.expires_at() {
            Some(bound) => Some(bound.unix_seconds()),
            None => None,
        };
        Ok(
            AuthorizationRequest {
                authorization_domain: proof.authorization_domain(),
                transport: proof.authorized_transport(),
                actor_pubkey: proof.actor_pubkey(),
                proof_method: proof.proof_method(),
                authority: AuthorizationAuthority::Delegated {
                    owner_pubkey: owner.bound_pubkey(),
                    binding_id: owner.binding_id(),
                    binding_version: owner.binding_version(),
                },
                principal: owner.principal().clone(),
                profile_id,
                requested_capabilities,
                correlation_id,
                decision_source: DecisionSource::DelegatedOwnerBinding,
                evidence_valid_until,
            },
        )
    }

    /// Server-resolved authorization domain.
    pub fn authorization_domain(&self) -> (r: CommunityId)
        ensures
            r == self@.authorization_domain,
    {
        self.authorization_domain
    }

    /// Exact protected transport authorized by the verified proof.
    pub fn transport(&self) -> (r: AuthTransport)
        ensures
            r == self@.transport,
    {
        self.transport
    }

    /// Authenticated Nostr actor.
    pub fn actor_pubkey(&self) -> (r: PublicKey)
        ensures
            r == self@.actor_pubkey,
    {
        self.actor_pubkey
    }

    /// Cryptographic proof method used for the actor.
    pub fn proof_method(&self) -> (r: AuthMethod)
        ensures
            r == self@.proof_method,
    {
        self.proof_method
    }

    /// Direct or delegated authority whose admission is requested.
    pub fn authority(&self) -> (r: &AuthorizationAuthority)
        ensures
            *r == self@.authority,
    {
        &self.authority
    }

    /// Exact issuer-qualified principal whose admission is requested.
    pub fn principal(&self) -> (r: &FederatedPrincipal)
        ensures
            r@ == self@.principal,
    {
        &self.principal
    }

    /// Server-resolved provider profile.
    pub fn profile_id(&self) -> (r: &AuthorizationProfileId)
        ensures
            r@ == self@.profile_id,
    {
        &self.profile_id
    }

    /// Portable capabilities requested for this decision.
    pub fn requested_capabilities(&self) -> (r: &CapabilitySet)
        ensures
            r@ == self@.requested_capabilities,
    {
        &self.requested_capabilities
    }

    /// Correlation identifier (UUID value) for this request.
    pub fn correlation_id(&self) -> (r: u128)
        ensures
            r == self@.correlation_id,
    {
        self.correlation_id
    }

    /// Verified source from which this request was derived.
    pub fn decision_source(&self) -> (r: DecisionSource)
        ensures
            r == self@.decision_source,
    {
        self.decision_source
    }

    /// Earliest validity bound supplied by verified assertion or delegation evidence.
    pub fn evidence_valid_until(&self) -> (r: Option<u64>)
        ensures
            r == self@.evidence_valid_until,
    {
        self.evidence_valid_until
    }
}

impl AuthorizationAuthority {
    /// Redaction-safe rendering: the contents are hidden.
    pub fn redacted_debug(&self) -> (r: String)
        ensures
            r@ == redacted_tuple_text("AuthorizationAuthority"@),
    {
        redacted_tuple("AuthorizationAuthority")
    }
}

impl DecisionSource {
    /// Redaction-safe rendering: the contents are hidden.
    pub fn redacted_debug(&self) -> (r: String)
        ensures
            r@ == redacted_tuple_text("DecisionSource"@),
    {
        redacted_tuple("DecisionSource")
    }
}

impl AuthorizationRequest {
    /// Redaction-safe rendering: field names only, every value hidden.
    pub fn redacted_debug(&self) -> (r: String)
        ensures
            r@ == redacted_struct_text(
                "AuthorizationRequest"@,
                seq![
                    "authorization_domain"@,
                    "actor_pubkey"@,
                    "proof_method"@,
                    "authority"@,
                    "principal"@,
                    "profile_id"@,
                    "requested_capabilities"@,
                    "correlation_id"@,
                    "decision_source"@,
                    "evidence_valid_until"@,
                ],
            ),
    {
        let fields: [&str; 10] = [
            "authorization_domain",
            "actor_pubkey",
            "proof_method",
            "authority",
            "principal",
            "profile_id",
            "requested_capabilities",
            "correlation_id",
            "decision_source",
            "evidence_valid_until",
        ];
        let r = redacted_struct("AuthorizationRequest", fields.as_slice());
        assert(names_view(fields@) =~= seq![
            "authorization_domain"@,
            "actor_pubkey"@,
            "proof_method"@,
            "authority"@,
            "principal"@,
            "profile_id"@,
            "requested_capabilities"@,
            "correlation_id"@,
            "decision_source"@,
            "evidence_valid_until"@,
        ]);
        r
    }
}

} // verus!
