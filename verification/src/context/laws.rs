//! Properties of a finalized authorization context.

use vstd::prelude::*;

use super::auth_context::{
    spec_authorization_reason, spec_finalize_error, spec_finalized_context, AuthContextInputView,
    FederatedAuthorizationView,
};
use super::binding::{BindingSource, EnrollmentMode, FederatedIdentityRequirement, PolicyView};
use super::evidence::{
    delegation_expired_at, spec_transport_accepts_proof, AuthMethod, AuthTransport,
};
use super::reason::AuthorizationReason;

verus! {

/// Everything a successful finalization checked holds of its evidence: all
/// evidence belongs to the tenant's domain and the proof suits the transport;
/// federated authorization is present exactly when the policy requires it;
/// a direct binding matches a current assertion for the same principal and
/// transport, is owned by the undelegated actor, carries a reason its
/// enrollment policy admits, and an attested-key enrollment is backed by an
/// attestation of the actor's key; a delegated owner is the verified
/// delegation's owner, with a fresh admission for the same principal and an
/// unexpired delegation.
pub proof fn lemma_finalized_context_is_consistent(
    input: AuthContextInputView,
    policy: PolicyView,
    authorization: FederatedAuthorizationView,
    now: u64,
)
    requires
        spec_finalize_error(input, policy, authorization, now) is None,
    ensures
        input.nostr_proof.authorization_domain == input.tenant,
        policy.authorization_domain == input.tenant,
        input.community_access.authorization_domain == input.tenant,
        spec_transport_accepts_proof(
            input.nostr_proof.authorized_transport,
            input.nostr_proof.proof_method,
        ),
        (input.nostr_proof.authorized_transport == AuthTransport::RelayWebSocket
            || input.nostr_proof.authorized_transport == AuthTransport::Audio)
            ==> input.nostr_proof.proof_method == AuthMethod::Nip42,
        (input.nostr_proof.authorized_transport == AuthTransport::HttpBridge
            || input.nostr_proof.authorized_transport == AuthTransport::Git
            || input.nostr_proof.authorized_transport == AuthTransport::MediaDownload)
            ==> input.nostr_proof.proof_method == AuthMethod::Nip98,
        input.nostr_proof.authorized_transport == AuthTransport::MediaUpload
            ==> (input.nostr_proof.proof_method == AuthMethod::Nip98
            || input.nostr_proof.proof_method == AuthMethod::Blossom),
        (policy.requirement == FederatedIdentityRequirement::NotRequired) <==> (authorization
            is NotRequired),
        authorization matches FederatedAuthorizationView::Direct { binding, assertion } ==> {
            &&& binding.authorization_domain == input.tenant
            &&& assertion.authorization_domain == input.tenant
            &&& assertion.authorized_transport == input.nostr_proof.authorized_transport
            &&& assertion.principal == binding.principal
            &&& input.nostr_proof.verified_delegation is None
            &&& binding.bound_pubkey == input.nostr_proof.actor_pubkey
            &&& (assertion.not_before matches Some(nb) ==> nb@ <= now)
            &&& now < assertion.expires_at@
            &&& (binding.resolution_reason == AuthorizationReason::ExistingBinding
                || binding.resolution_reason == AuthorizationReason::EnrolledAttestedKey
                || binding.resolution_reason == AuthorizationReason::EnrolledTofu)
            &&& ((binding.resolution_reason == AuthorizationReason::EnrolledAttestedKey || (
            binding.resolution_reason == AuthorizationReason::EnrolledTofu && binding.source
                == BindingSource::AttestedKey)) ==> (assertion.key_attestation matches Some(k)
                && k@ == input.nostr_proof.actor_pubkey))
            &&& (assertion.key_attestation matches Some(k) ==> k@ == input.nostr_proof.actor_pubkey)
            &&& (binding.resolution_reason == AuthorizationReason::EnrolledTofu ==> policy.requirement
                == FederatedIdentityRequirement::Required(EnrollmentMode::Tofu) && (binding.source
                == BindingSource::Tofu || binding.source == BindingSource::AttestedKey))
            &&& (binding.resolution_reason == AuthorizationReason::EnrolledAttestedKey
                ==> policy.requirement == FederatedIdentityRequirement::Required(
                EnrollmentMode::AttestedKey) && binding.source == BindingSource::AttestedKey)
        },
        authorization matches FederatedAuthorizationView::Delegated { owner, admission } ==> {
            &&& owner.authorization_domain == input.tenant
            &&& admission.authorization_domain == input.tenant
            &&& admission.principal == owner.principal
            &&& input.nostr_proof.verified_delegation matches Some(d) && d@.owner_pubkey
                == owner.bound_pubkey && !delegation_expired_at(d@.expires_at, now)
            &&& now < admission.fresh_until@
        },
{
}

/// The stable reason of a finalized context is its binding's authoritative
/// lifecycle result for direct authority, so a binding enrolled in this
/// decision cannot be relabelled as pre-existing; it is `NostrOnly` exactly
/// when the policy did not require federated identity, and
/// `DelegatedOwnerBinding` exactly for delegated authority.
pub proof fn lemma_finalized_reason_is_lifecycle_result(
    input: AuthContextInputView,
    policy: PolicyView,
    authorization: FederatedAuthorizationView,
    now: u64,
)
    requires
        spec_finalize_error(input, policy, authorization, now) is None,
    ensures
        ({
            let reason = spec_authorization_reason(
                spec_finalized_context(input, policy, authorization).federated,
            );
            &&& (reason == AuthorizationReason::NostrOnly) <==> (policy.requirement
                == FederatedIdentityRequirement::NotRequired)
            &&& (reason == AuthorizationReason::DelegatedOwnerBinding) <==> (authorization
                is Delegated)
            &&& (authorization matches FederatedAuthorizationView::Direct { binding, .. } ==> reason
                == binding.resolution_reason)
        }),
{
}

/// Each transport accepts exactly its own proof methods: relay WebSocket
/// sessions and audio joins only NIP-42; HTTP bridge, Git and media download
/// only NIP-98; media upload NIP-98 or Blossom. In particular a NIP-98 proof
/// never authenticates an audio join or a relay session, and a NIP-42 proof
/// never authenticates an HTTP transport.
pub proof fn lemma_transport_proof_methods(transport: AuthTransport, method: AuthMethod)
    ensures
        spec_transport_accepts_proof(transport, method) <==> ({
            ||| (transport == AuthTransport::RelayWebSocket && method == AuthMethod::Nip42)
            ||| (transport == AuthTransport::Audio && method == AuthMethod::Nip42)
            ||| (transport == AuthTransport::HttpBridge && method == AuthMethod::Nip98)
            ||| (transport == AuthTransport::Git && method == AuthMethod::Nip98)
            ||| (transport == AuthTransport::MediaDownload && method == AuthMethod::Nip98)
            ||| (transport == AuthTransport::MediaUpload && method == AuthMethod::Nip98)
            ||| (transport == AuthTransport::MediaUpload && method == AuthMethod::Blossom)
        }),
        !spec_transport_accepts_proof(AuthTransport::Audio, AuthMethod::Nip98),
        !spec_transport_accepts_proof(AuthTransport::RelayWebSocket, AuthMethod::Nip98),
        !spec_transport_accepts_proof(AuthTransport::HttpBridge, AuthMethod::Nip42),
{
}

/// An enrollment made in this decision is admitted only under the policy that
/// allows it: a finalized direct authorization whose binding was enrolled by
/// trust on first use was resolved under a TOFU policy, and one enrolled with
/// an attested key under an attested-key policy, from an attested-key binding.
pub proof fn lemma_enrollment_reason_matches_policy_mode(
    input: AuthContextInputView,
    policy: PolicyView,
    authorization: FederatedAuthorizationView,
    now: u64,
)
    requires
        spec_finalize_error(input, policy, authorization, now) is None,
    ensures
        authorization matches FederatedAuthorizationView::Direct { binding, .. } ==> {
            &&& (binding.resolution_reason == AuthorizationReason::EnrolledTofu
                ==> policy.requirement == FederatedIdentityRequirement::Required(
                EnrollmentMode::Tofu))
            &&& (binding.resolution_reason == AuthorizationReason::EnrolledAttestedKey
                ==> policy.requirement == FederatedIdentityRequirement::Required(
                EnrollmentMode::AttestedKey) && binding.source == BindingSource::AttestedKey)
            &&& (policy.requirement == FederatedIdentityRequirement::Required(
                EnrollmentMode::Provisioned) ==> binding.resolution_reason
                == AuthorizationReason::ExistingBinding)
        },
{
    lemma_finalized_context_is_consistent(input, policy, authorization, now);
}

} // verus!
