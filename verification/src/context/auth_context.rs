//! Finalization of the immutable V1 authorization context.
//!
//! Authentication adapters produce this context after verifying Nostr proof.
//! Federated identity is optional, but when present it remains distinct from
//! the Nostr authority that signed the request.

use vstd::prelude::*;
use crate::redaction::{redacted_tuple, redacted_tuple_text};

use super::binding::{
    BindingSource, BindingView, EnrollmentMode, FederatedIdentityRequirement, PolicyView,
    ResolvedFederatedPolicy, VersionedBindingRef,
};
use super::evidence::{
    authority_of_proof, channel_ids_view, delegation_expired_at, scope_names,
    spec_transport_accepts_proof, transport_accepts_proof, AssertionView, AuthMethod, AuthTransport,
    AuthorizedCommunityAccess, CommunityAccessView, NostrAuthority, NostrAuthorityView,
    NostrProofView, OwnerAdmissionView, Scope, TenantContext, VerifiedFederatedAssertion,
    VerifiedNostrProof, VerifiedOwnerAdmission,
};
use super::reason::{AuthContextError, AuthorizationReason};
use crate::ids::{CommunityId, PublicKey};
use crate::text::str_eq;

verus! {

/// Version of the authorization-context contract.
#[derive(Clone, Copy, PartialEq, Eq, Structural, Debug)]
pub enum AuthContextVersion {
    /// Initial shared authorization-context contract.
    V1,
}

/// Federated authorization attached to a Nostr-authenticated actor.
pub enum FederatedAuthorization {
    /// This deployment does not require federated identity.
    NotRequired,
    /// The actor directly owns the active federated binding.
    Direct {
        /// Active identity-to-key binding, carrying its lifecycle result.
        binding: VersionedBindingRef,
        /// Current assertion accepted by the configured verifier.
        assertion: VerifiedFederatedAssertion,
    },
    /// The actor is delegated by the owner of an active federated binding.
    Delegated {
        /// Owner's active binding.
        owner: VersionedBindingRef,
        /// Current admission resolved for the bound owner.
        admission: VerifiedOwnerAdmission,
    },
}

/// What a federated authorization records.
pub enum FederatedAuthorizationView {
    NotRequired,
    Direct { binding: BindingView, assertion: AssertionView },
    Delegated { owner: BindingView, admission: OwnerAdmissionView },
}

impl View for FederatedAuthorization {
    type V = FederatedAuthorizationView;

    open spec fn view(&self) -> FederatedAuthorizationView {
        match self {
            FederatedAuthorization::NotRequired => FederatedAuthorizationView::NotRequired,
            FederatedAuthorization::Direct { binding, assertion } => {
                FederatedAuthorizationView::Direct { binding: binding@, assertion: assertion@ }
            },
            FederatedAuthorization::Delegated { owner, admission } => {
                FederatedAuthorizationView::Delegated { owner: owner@, admission: admission@ }
            },
        }
    }
}

/// Server-verified inputs consumed by the V1 authorization finalizer.
pub struct AuthContextInput {
    tenant: TenantContext,
    correlation_id: u128,
    nostr_proof: VerifiedNostrProof,
    community_access: AuthorizedCommunityAccess,
}

/// What the finalizer's inputs record.
pub struct AuthContextInputView {
    pub tenant: CommunityId,
    pub correlation_id: u128,
    pub nostr_proof: NostrProofView,
    pub community_access: CommunityAccessView,
}

impl View for AuthContextInput {
    type V = AuthContextInputView;

    closed spec fn view(&self) -> AuthContextInputView {
        AuthContextInputView {
            tenant: self.tenant@,
            correlation_id: self.correlation_id,
            nostr_proof: self.nostr_proof@,
            community_access: self.community_access@,
        }
    }
}

impl AuthContextInput {
    /// Collect evidence after cryptographic authentication and community
    /// admission have both succeeded. `correlation_id` is a UUID value.
    pub fn new(
        tenant: TenantContext,
        correlation_id: u128,
        nostr_proof: VerifiedNostrProof,
        community_access: AuthorizedCommunityAccess,
    ) -> (r: Self)
        ensures
            r@ == (AuthContextInputView {
                tenant: tenant@,
                correlation_id,
                nostr_proof: nostr_proof@,
                community_access: community_access@,
            }),
    {
        AuthContextInput { tenant, correlation_id, nostr_proof, community_access }
    }
}

/// Initial shared authorization-context contract.
pub struct AuthContextV1 {
    tenant: TenantContext,
    correlation_id: u128,
    transport: AuthTransport,
    nostr: NostrAuthority,
    federated_policy: ResolvedFederatedPolicy,
    federated: FederatedAuthorization,
    scopes: Vec<Scope>,
    channel_ids: Option<Vec<u128>>,
}

/// Versioned result of successful request or connection authorization.
///
/// It has no default or deserialization path: only [`AuthContext::finalize_v1`]
/// builds one.
pub enum AuthContext {
    /// Initial shared authorization-context contract.
    V1(AuthContextV1),
}

/// What a finalized context records.
pub struct AuthContextView {
    pub tenant: CommunityId,
    pub correlation_id: u128,
    pub transport: AuthTransport,
    pub nostr: NostrAuthorityView,
    pub federated_policy: PolicyView,
    pub federated: FederatedAuthorizationView,
    pub scopes: Seq<Seq<char>>,
    pub channel_ids: Option<Seq<u128>>,
}

impl View for AuthContext {
    type V = AuthContextView;

    closed spec fn view(&self) -> AuthContextView {
        match self {
            AuthContext::V1(c) => AuthContextView {
                tenant: c.tenant@,
                correlation_id: c.correlation_id,
                transport: c.transport,
                nostr: c.nostr@,
                federated_policy: c.federated_policy@,
                federated: c.federated@,
                scopes: scope_names(c.scopes@),
                channel_ids: channel_ids_view(c.channel_ids),
            },
        }
    }
}

/// Time check of a direct assertion at `now`: not before its bound, and not
/// at or after its expiry.
pub open spec fn spec_assertion_time_error(assertion: AssertionView, now: u64) -> Option<
    AuthContextError,
> {
    if assertion.not_before matches Some(nb) && now < nb@ {
        Some(AuthContextError::AssertionNotYetValid)
    } else if now >= assertion.expires_at@ {
        Some(AuthContextError::AssertionExpired)
    } else {
        None
    }
}

/// Which direct decision reasons the enrollment mode and binding source admit.
/// An attested-key source also admits a TOFU decision: the stored source is
/// never downgraded.
pub open spec fn spec_direct_reason_is_valid(
    reason: AuthorizationReason,
    enrollment_mode: EnrollmentMode,
    binding_source: BindingSource,
) -> bool {
    match reason {
        AuthorizationReason::ExistingBinding => true,
        AuthorizationReason::EnrolledAttestedKey => enrollment_mode == EnrollmentMode::AttestedKey
            && binding_source == BindingSource::AttestedKey,
        AuthorizationReason::EnrolledTofu => enrollment_mode == EnrollmentMode::Tofu && (
        binding_source == BindingSource::Tofu || binding_source == BindingSource::AttestedKey),
        _ => false,
    }
}

/// Key-attestation check of a direct binding: a present attestation must name
/// the actor; one is required when enrollment relied on an attested key.
pub open spec fn spec_key_attestation_error(
    reason: AuthorizationReason,
    binding_source: BindingSource,
    assertion: AssertionView,
    actor_pubkey: PublicKey,
) -> Option<AuthContextError> {
    let requires_attestation = reason == AuthorizationReason::EnrolledAttestedKey || (reason
        == AuthorizationReason::EnrolledTofu && binding_source == BindingSource::AttestedKey);
    match assertion.key_attestation {
        Some(attestation) => if attestation@ != actor_pubkey {
            Some(AuthContextError::KeyAttestationMismatch)
        } else {
            None
        },
        None => if requires_attestation {
            Some(AuthContextError::KeyAttestationRequired)
        } else {
            None
        },
    }
}

/// First failing check of a direct federated authorization, in order.
pub open spec fn spec_direct_error(
    authorization_domain: CommunityId,
    transport: AuthTransport,
    proof: NostrProofView,
    enrollment_mode: EnrollmentMode,
    binding: BindingView,
    assertion: AssertionView,
    now: u64,
) -> Option<AuthContextError> {
    if binding.authorization_domain != authorization_domain {
        Some(AuthContextError::BindingDomainMismatch)
    } else if assertion.authorization_domain != authorization_domain {
        Some(AuthContextError::AssertionDomainMismatch)
    } else if assertion.authorized_transport != transport {
        Some(AuthContextError::AssertionTransportMismatch)
    } else if assertion.principal != binding.principal {
        Some(AuthContextError::AssertionPrincipalMismatch)
    } else if proof.verified_delegation is Some {
        Some(AuthContextError::DirectAuthorizationHasOwner)
    } else if binding.bound_pubkey != proof.actor_pubkey {
        Some(AuthContextError::DirectBindingKeyMismatch)
    } else if spec_assertion_time_error(assertion, now) is Some {
        spec_assertion_time_error(assertion, now)
    } else if !spec_direct_reason_is_valid(
        binding.resolution_reason,
        enrollment_mode,
        binding.source,
    ) {
        Some(AuthContextError::InvalidAuthorizationReason)
    } else {
        spec_key_attestation_error(
            binding.resolution_reason,
            binding.source,
            assertion,
            proof.actor_pubkey,
        )
    }
}

/// First failing check of a delegated federated authorization, in order.
pub open spec fn spec_delegated_error(
    authorization_domain: CommunityId,
    proof: NostrProofView,
    owner: BindingView,
    admission: OwnerAdmissionView,
    now: u64,
) -> Option<AuthContextError> {
    if owner.authorization_domain != authorization_domain {
        Some(AuthContextError::BindingDomainMismatch)
    } else if admission.authorization_domain != authorization_domain {
        Some(AuthContextError::OwnerAdmissionDomainMismatch)
    } else if admission.principal != owner.principal {
        Some(AuthContextError::OwnerAdmissionPrincipalMismatch)
    } else if proof.verified_delegation is None {
        Some(AuthContextError::DelegationRequired)
    } else if proof.verified_delegation->0@.owner_pubkey != owner.bound_pubkey {
        Some(AuthContextError::DelegatedOwnerMismatch)
    } else if now >= admission.fresh_until@ {
        Some(AuthContextError::OwnerAdmissionExpired)
    } else if delegation_expired_at(proof.verified_delegation->0@.expires_at, now) {
        Some(AuthContextError::DelegationExpired)
    } else {
        None
    }
}

/// First failing check of the federated authorization against the policy.
pub open spec fn spec_federated_error(
    authorization_domain: CommunityId,
    transport: AuthTransport,
    proof: NostrProofView,
    policy: PolicyView,
    authorization: FederatedAuthorizationView,
    now: u64,
) -> Option<AuthContextError> {
    match (policy.requirement, authorization) {
        (FederatedIdentityRequirement::Required(_), FederatedAuthorizationView::NotRequired) => Some(
            AuthContextError::FederatedIdentityRequired,
        ),
        (FederatedIdentityRequirement::NotRequired, FederatedAuthorizationView::NotRequired) => None,
        (FederatedIdentityRequirement::NotRequired, _) => Some(
            AuthContextError::UnexpectedFederatedAuthorization,
        ),
        (
            FederatedIdentityRequirement::Required(mode),
            FederatedAuthorizationView::Direct { binding, assertion },
        ) => spec_direct_error(authorization_domain, transport, proof, mode, binding, assertion, now),
        (
            FederatedIdentityRequirement::Required(_),
            FederatedAuthorizationView::Delegated { owner, admission },
        ) => spec_delegated_error(authorization_domain, proof, owner, admission, now),
    }
}

/// First failing check of V1 finalization, or `None` when it succeeds.
pub open spec fn spec_finalize_error(
    input: AuthContextInputView,
    policy: PolicyView,
    authorization: FederatedAuthorizationView,
    now: u64,
) -> Option<AuthContextError> {
    let domain = input.tenant;
    let proof = input.nostr_proof;
    if proof.authorization_domain != domain {
        Some(AuthContextError::NostrProofDomainMismatch)
    } else if policy.authorization_domain != domain {
        Some(AuthContextError::PolicyDomainMismatch)
    } else if input.community_access.authorization_domain != domain {
        Some(AuthContextError::CommunityAccessDomainMismatch)
    } else if !spec_transport_accepts_proof(proof.authorized_transport, proof.proof_method) {
        Some(AuthContextError::TransportProofMismatch)
    } else {
        spec_federated_error(domain, proof.authorized_transport, proof, policy, authorization, now)
    }
}

/// The context that a successful finalization produces.
pub open spec fn spec_finalized_context(
    input: AuthContextInputView,
    policy: PolicyView,
    authorization: FederatedAuthorizationView,
) -> AuthContextView {
    AuthContextView {
        tenant: input.tenant,
        correlation_id: input.correlation_id,
        transport: input.nostr_proof.authorized_transport,
        nostr: authority_of_proof(input.nostr_proof),
        federated_policy: policy,
        federated: authorization,
        scopes: input.community_access.scopes,
        channel_ids: input.community_access.channel_ids,
    }
}

/// Stable reason of an allowed decision with the given federated authorization.
pub open spec fn spec_authorization_reason(federated: FederatedAuthorizationView) -> AuthorizationReason {
    match federated {
        FederatedAuthorizationView::NotRequired => AuthorizationReason::NostrOnly,
        FederatedAuthorizationView::Direct { binding, .. } => binding.resolution_reason,
        FederatedAuthorizationView::Delegated { .. } => AuthorizationReason::DelegatedOwnerBinding,
    }
}

/// Check a direct assertion's validity window at `now_unix_seconds`.
pub fn validate_assertion_time(assertion: &VerifiedFederatedAssertion, now_unix_seconds: u64) -> (r:
    Result<(), AuthContextError>)
    ensures
        r is Ok <==> spec_assertion_time_error(assertion@, now_unix_seconds) is None,
        r matches Err(e) ==> spec_assertion_time_error(assertion@, now_unix_seconds) == Some(e),
{
    if let Some(not_before) = assertion.not_before() {
        if not_before.is_not_yet_valid_at(now_unix_seconds) {
            return Err(AuthContextError::AssertionNotYetValid);
        }
    }
    if assertion.expires_at().is_expired_at(now_unix_seconds) {
        return Err(AuthContextError::AssertionExpired);
    }
    Ok(())
}

/// Whether a direct decision reason is admitted by the enrollment mode and
/// binding source.
pub fn direct_reason_is_valid(
    reason: AuthorizationReason,
    enrollment_mode: EnrollmentMode,
    binding_source: BindingSource,
) -> (r: bool)
    ensures
        r == spec_direct_reason_is_valid(reason, enrollment_mode, binding_source),
{
    match reason {
        AuthorizationReason::ExistingBinding => true,
        AuthorizationReason::EnrolledAttestedKey => {
            matches!(enrollment_mode, EnrollmentMode::AttestedKey) && matches!(
                binding_source,
                BindingSource::AttestedKey
            )
        },
        AuthorizationReason::EnrolledTofu => {
            matches!(enrollment_mode, EnrollmentMode::Tofu) && matches!(
                binding_source,
                BindingSource::Tofu | BindingSource::AttestedKey
            )
        },
        AuthorizationReason::NostrOnly | AuthorizationReason::DelegatedOwnerBinding => false,
    }
}

fn validate_enrollment_key_attestation(
    reason: AuthorizationReason,
    binding_source: BindingSource,
    assertion: &VerifiedFederatedAssertion,
    actor_pubkey: PublicKey,
) -> (r: Result<(), AuthContextError>)
    ensures
        r is Ok <==> spec_key_attestation_error(reason, binding_source, assertion@, actor_pubkey) is None,
        r matches Err(e) ==> spec_key_attestation_error(reason, binding_source, assertion@, actor_pubkey)
            == Some(e),
{
    let requires_attestation = matches!(reason, AuthorizationReason::EnrolledAttestedKey) || (
    matches!(reason, AuthorizationReason::EnrolledTofu) && matches!(
        binding_source,
        BindingSource::AttestedKey
    ));
    if let Some(attestation) = assertion.key_attestation() {
        if attestation.pubkey() != actor_pubkey {
            return Err(AuthContextError::KeyAttestationMismatch);
        }
        return Ok(());
    }
    if requires_attestation {
        return Err(AuthContextError::KeyAttestationRequired);
    }
    Ok(())
}

fn validate_federated_authorization(
    authorization_domain: CommunityId,
    authorized_transport: AuthTransport,
    nostr_proof: &VerifiedNostrProof,
    federated_policy: &ResolvedFederatedPolicy,
    authorization: &FederatedAuthorization,
    now_unix_seconds: u64,
) -> (r: Result<(), AuthContextError>)
    ensures
        r is Ok <==> spec_federated_error(
            authorization_domain,
            authorized_transport,
            nostr_proof@,
            federated_policy@,
            authorization@,
            now_unix_seconds,
        ) is None,
        r matches Err(e) ==> spec_federated_error(
            authorization_domain,
            authorized_transport,
            nostr_proof@,
            federated_policy@,
            authorization@,
            now_unix_seconds,
        ) == Some(e),
{
    match (federated_policy.requirement(), authorization) {
        (FederatedIdentityRequirement::Required(_), FederatedAuthorization::NotRequired) => {
            return Err(AuthContextError::FederatedIdentityRequired);
        },
        (FederatedIdentityRequirement::NotRequired, FederatedAuthorization::NotRequired) => {},
        (FederatedIdentityRequirement::NotRequired, _) => {
            return Err(AuthContextError::UnexpectedFederatedAuthorization);
        },
        (FederatedIdentityRequirement::Required(_), _) => {},
    }
    let actor_pubkey = nostr_proof.actor_pubkey();
    let verified_delegation = nostr_proof.verified_delegation();
    match authorization {
        FederatedAuthorization::NotRequired => {},
        FederatedAuthorization::Direct { binding, assertion } => {
            if binding.authorization_domain() != authorization_domain {
                return Err(AuthContextError::BindingDomainMismatch);
            }
            if assertion.authorization_domain() != authorization_domain {
                return Err(AuthContextError::AssertionDomainMismatch);
            }
            if assertion.authorized_transport() != authorized_transport {
                return Err(AuthContextError::AssertionTransportMismatch);
            }
            if assertion.principal() != binding.principal() {
                return Err(AuthContextError::AssertionPrincipalMismatch);
            }
            if verified_delegation.is_some() {
                return Err(AuthContextError::DirectAuthorizationHasOwner);
            }
            if binding.bound_pubkey() != actor_pubkey {
                return Err(AuthContextError::DirectBindingKeyMismatch);
            }
            validate_assertion_time(assertion, now_unix_seconds)?;
            let enrollment_mode = match federated_policy.requirement() {
                FederatedIdentityRequirement::Required(mode) => mode,
                FederatedIdentityRequirement::NotRequired => {
                    return Err(AuthContextError::UnexpectedFederatedAuthorization);
                },
            };
            let reason = binding.authorization_reason();
            if !direct_reason_is_valid(reason, enrollment_mode, binding.source()) {
                return Err(AuthContextError::InvalidAuthorizationReason);
            }
            validate_enrollment_key_attestation(reason, binding.source(), assertion, actor_pubkey)?;
        },
        FederatedAuthorization::Delegated { owner, admission } => {
            if owner.authorization_domain() != authorization_domain {
                return Err(AuthContextError::BindingDomainMismatch);
            }
            if admission.authorization_domain() != authorization_domain {
                return Err(AuthContextError::OwnerAdmissionDomainMismatch);
            }
            if admission.principal() != owner.principal() {
                return Err(AuthContextError::OwnerAdmissionPrincipalMismatch);
            }
            let delegation = match verified_delegation {
                Some(delegation) => delegation,
                None => {
                    return Err(AuthContextError::DelegationRequired);
                },
            };
            if delegation.owner_pubkey() != owner.bound_pubkey() {
                return Err(AuthContextError::DelegatedOwnerMismatch);
            }
            if admission.fresh_until().is_expired_at(now_unix_seconds) {
                return Err(AuthContextError::OwnerAdmissionExpired);
            }
            if let Some(expiry) = delegation.expires_at() {
                if expiry.is_expired_at(now_unix_seconds) {
                    return Err(AuthContextError::DelegationExpired);
                }
            }
        },
    }
    Ok(())
}

impl AuthContext {
    /// Validate all authorization evidence and finalize an immutable V1 context.
    ///
    /// `now_unix_seconds` must come from the server clock for the
    /// authorization decision being finalized.
    pub fn finalize_v1(
        input: AuthContextInput,
        federated_policy: ResolvedFederatedPolicy,
        authorization: FederatedAuthorization,
        now_unix_seconds: u64,
    ) -> (r: Result<Self, AuthContextError>)
        ensures
            r is Ok <==> spec_finalize_error(
                input@,
                federated_policy@,
                authorization@,
                now_unix_seconds,
            ) is None,
            r matches Err(e) ==> spec_finalize_error(
                input@,
                federated_policy@,
                authorization@,
                now_unix_seconds,
            ) == Some(e),
            r matches Ok(ctx) ==> ctx@ == spec_finalized_context(
                input@,
                federated_policy@,
                authorization@,
            ),
    {
        let authorization_domain = input.tenant.community();
        let transport = input.nostr_proof.authorized_transport();
        if input.nostr_proof.authorization_domain() != authorization_domain {
            return Err(AuthContextError::NostrProofDomainMismatch);
        }
        if federated_policy.authorization_domain() != authorization_domain {
            return Err(AuthContextError::PolicyDomainMismatch);
        }
        if input.community_access.authorization_domain() != authorization_domain {
            return Err(AuthContextError::CommunityAccessDomainMismatch);
        }
        if !transport_accepts_proof(transport, input.nostr_proof.proof_method()) {
            return Err(AuthContextError::TransportProofMismatch);
        }
        validate_federated_authorization(
            authorization_domain,
            transport,
            &input.nostr_proof,
            &federated_policy,
            &authorization,
            now_unix_seconds,
        )?;
        let nostr = NostrAuthority::new(input.nostr_proof);
        let (scopes, channel_ids) = input.community_access.into_permissions();
        Ok(
            AuthContext::V1(
                AuthContextV1 {
                    tenant: input.tenant,
                    correlation_id: input.correlation_id,
                    transport,
                    nostr,
                    federated_policy,
                    federated: authorization,
                    scopes,
                    channel_ids,
                },
            ),
        )
    }

    /// Contract version represented by this context.
    pub fn version(&self) -> (r: AuthContextVersion)
        ensures
            r == AuthContextVersion::V1,
    {
        match self {
            AuthContext::V1(_) => AuthContextVersion::V1,
        }
    }

    /// Server-resolved tenant for the request or connection.
    pub fn tenant(&self) -> (r: &TenantContext)
        ensures
            r@ == self@.tenant,
    {
        match self {
            AuthContext::V1(context) => &context.tenant,
        }
    }

    /// Request or connection correlation identifier (UUID value).
    pub fn correlation_id(&self) -> (r: u128)
        ensures
            r == self@.correlation_id,
    {
        match self {
            AuthContext::V1(context) => context.correlation_id,
        }
    }

    /// Transport that established this authorization context.
    pub fn transport(&self) -> (r: AuthTransport)
        ensures
            r == self@.transport,
    {
        match self {
            AuthContext::V1(context) => context.transport,
        }
    }

    /// Verified Nostr authority.
    pub fn nostr(&self) -> (r: &NostrAuthority)
        ensures
            r@ == self@.nostr,
    {
        match self {
            AuthContext::V1(context) => &context.nostr,
        }
    }

    /// Authenticated Nostr actor.
    pub fn pubkey(&self) -> (r: PublicKey)
        ensures
            r == self@.nostr.actor_pubkey,
    {
        self.nostr().actor_pubkey()
    }

    /// Proof method used to authenticate the Nostr actor.
    pub fn auth_method(&self) -> (r: AuthMethod)
        ensures
            r == self@.nostr.proof_method,
    {
        self.nostr().proof_method()
    }

    /// Cryptographically verified owner for a delegated Nostr actor.
    pub fn agent_owner_pubkey(&self) -> (r: Option<PublicKey>)
        ensures
            r == self@.nostr.verified_owner_pubkey,
    {
        self.nostr().verified_owner_pubkey()
    }

    /// Federated authorization associated with the Nostr actor.
    pub fn federated_authorization(&self) -> (r: &FederatedAuthorization)
        ensures
            r@ == self@.federated,
    {
        match self {
            AuthContext::V1(context) => &context.federated,
        }
    }

    /// Federated-identity policy resolved for this authorization decision.
    pub fn federated_policy(&self) -> (r: &ResolvedFederatedPolicy)
        ensures
            r@ == self@.federated_policy,
    {
        match self {
            AuthContext::V1(context) => &context.federated_policy,
        }
    }

    /// Stable reason for the successful authorization decision.
    pub fn authorization_reason(&self) -> (r: AuthorizationReason)
        ensures
            r == spec_authorization_reason(self@.federated),
    {
        match self.federated_authorization() {
            FederatedAuthorization::NotRequired => AuthorizationReason::NostrOnly,
            FederatedAuthorization::Direct { binding, .. } => binding.authorization_reason(),
            FederatedAuthorization::Delegated { .. } => AuthorizationReason::DelegatedOwnerBinding,
        }
    }

    /// Permission scopes granted to the context.
    pub fn scopes(&self) -> (r: &[Scope])
        ensures
            scope_names(r@) == self@.scopes,
    {
        match self {
            AuthContext::V1(context) => context.scopes.as_slice(),
        }
    }

    /// Optional channel restriction (UUID values).
    pub fn channel_ids(&self) -> (r: Option<&[u128]>)
        ensures
            match r {
                Some(ids) => self@.channel_ids == Some(ids@),
                None => self@.channel_ids is None,
            },
    {
        match self {
            AuthContext::V1(context) => match &context.channel_ids {
                Some(ids) => Some(ids.as_slice()),
                None => None,
            },
        }
    }

    /// Returns `true` if this context includes the given scope.
    pub fn has_scope(&self, scope: &Scope) -> (r: bool)
        ensures
            r == self@.scopes.contains(scope@),
    {
        let scopes = self.scopes();
        let n = scopes.len();
        let mut i: usize = 0;
        while i < n
            invariant
                n == scopes@.len(),
                scope_names(scopes@) == self@.scopes,
                i <= n,
                forall|j: int| 0 <= j < i ==> scopes@[j]@ != scope@,
            decreases n - i,
        {
            if str_eq(scopes[i].name(), scope.name()) {
                assert(self@.scopes[i as int] == scope@);
                return true;
            }
            i += 1;
        }
        proof {
            if self@.scopes.contains(scope@) {
                let k = choose|k: int| 0 <= k < self@.scopes.len() && self@.scopes[k] == scope@;
                assert(scopes@[k]@ == scope@);
            }
        }
        false
    }
}

impl FederatedAuthorization {
    /// Redaction-safe rendering: the contents are hidden.
    pub fn redacted_debug(&self) -> (r: String)
        ensures
            r@ == redacted_tuple_text("FederatedAuthorization"@),
    {
        redacted_tuple("FederatedAuthorization")
    }
}

} // verus!
