use std::time::Duration;

use buzz_auth::context::binding::{BindingSource, BindingVersion, VersionedBindingRef};
use buzz_auth::context::evidence::{
    AssertionExpiry, AssertionNotBefore, AssertionTransport, AuthMethod, AuthTransport,
    DelegationExpiry, FederatedPrincipal, VerifiedFederatedAssertion, VerifiedKeyAttestation,
    VerifiedNostrProof, VerifiedTransportDelegation,
};
use buzz_auth::ids::{CommunityId, PublicKey};
use buzz_auth::provider::capability::{AuthorizationCapability, CapabilitySet};
use buzz_auth::provider::contract::{
    ProviderContractError, MAX_OPAQUE_ID_BYTES, MAX_PROVIDER_FRESHNESS_SECONDS,
    MAX_PROVIDER_TIMEOUT_NANOS, MAX_RETRY_AFTER_SECONDS,
};
use buzz_auth::provider::decision::{
    validate_provider_decision, AuthorizationDenial, AuthorizationDenialReason,
    AuthorizationOutcome, ProviderAllow, ProviderAllowReason, ProviderDecision, ProviderTimeout,
    ProviderUnavailable, ProviderUnavailableReason, RetryAfter,
};
use buzz_auth::provider::opaque::{AuthorizationProfileId, PolicyVersion};
use buzz_auth::provider::request::{AuthorizationAuthority, AuthorizationRequest, DecisionSource};

const NOW: u64 = 100;

fn domain(value: u128) -> CommunityId {
    CommunityId::from_u128(value)
}

fn key(value: u64) -> PublicKey {
    PublicKey::from_words(value, 0x5eed, 0, value)
}

fn principal() -> FederatedPrincipal {
    FederatedPrincipal::new("https://idp.example", "subject-123")
        .expect("synthetic principal is valid")
}

fn profile() -> AuthorizationProfileId {
    AuthorizationProfileId::new("profile-1").expect("synthetic profile is valid")
}

fn policy_version(value: &str) -> PolicyVersion {
    PolicyVersion::new(value).expect("synthetic policy version is valid")
}

fn provider_timeout() -> ProviderTimeout {
    ProviderTimeout::new(Duration::from_secs(1).as_nanos()).expect("synthetic timeout is finite")
}

fn capabilities(values: &[AuthorizationCapability]) -> CapabilitySet {
    CapabilitySet::new(values.to_vec()).expect("synthetic capabilities are non-empty")
}

fn direct_request_with_expiry(
    actor: PublicKey,
    expiry: u64,
    requested: CapabilitySet,
) -> AuthorizationRequest {
    let proof = VerifiedNostrProof::new(
        domain(1),
        AuthTransport::RelayWebSocket,
        actor,
        AuthMethod::Nip42,
        None,
    )
    .expect("synthetic proof is valid");
    let assertion = VerifiedFederatedAssertion::new(
        domain(1),
        AuthTransport::RelayWebSocket,
        principal(),
        Some(VerifiedKeyAttestation::new(actor)),
        AssertionTransport::TrustedProxy,
        None,
        AssertionExpiry::new(expiry).expect("synthetic assertion expiry is valid"),
    );
    match AuthorizationRequest::direct(&proof, &assertion, profile(), requested, 20, NOW) {
        Ok(request) => request,
        Err(_) => panic!("synthetic direct request is valid"),
    }
}

fn direct_request(actor: PublicKey) -> AuthorizationRequest {
    direct_request_with_expiry(
        actor,
        200,
        capabilities(&[AuthorizationCapability::CommunityRead]),
    )
}

fn existing_binding(owner: PublicKey) -> VersionedBindingRef {
    existing_binding_in(1, owner)
}

fn existing_binding_in(domain_value: u128, owner: PublicKey) -> VersionedBindingRef {
    match VersionedBindingRef::new_existing_active_for_test(
        domain(domain_value),
        10,
        principal(),
        owner,
        BindingVersion::initial(),
        BindingSource::Provisioned,
    ) {
        Ok(binding) => binding,
        Err(_) => panic!("synthetic binding is valid"),
    }
}

fn delegated_request(actor: PublicKey, owner: PublicKey, expiry: u64) -> AuthorizationRequest {
    let delegation = VerifiedTransportDelegation::new_unrestricted(
        owner,
        actor,
        Some(DelegationExpiry::new(expiry).expect("synthetic delegation expiry is valid")),
    )
    .expect("synthetic delegation is valid");
    let proof = VerifiedNostrProof::new(
        domain(1),
        AuthTransport::RelayWebSocket,
        actor,
        AuthMethod::Nip42,
        Some(delegation),
    )
    .expect("synthetic delegated proof is valid");
    match AuthorizationRequest::delegated(
        &proof,
        &existing_binding(owner),
        profile(),
        capabilities(&[AuthorizationCapability::CommunityRead]),
        20,
        NOW,
    ) {
        Ok(request) => request,
        Err(_) => panic!("synthetic delegated request is valid"),
    }
}

fn allow_for(
    request: &AuthorizationRequest,
    granted: CapabilitySet,
    version: &str,
    issued_at: u64,
    fresh_until: u64,
) -> ProviderDecision {
    match ProviderAllow::new(
        request.authorization_domain(),
        request.principal().clone(),
        request.profile_id().clone(),
        granted,
        policy_version(version),
        issued_at,
        fresh_until,
    ) {
        Ok(allow) => ProviderDecision::Allow(allow),
        Err(_) => panic!("synthetic provider allow is structurally valid"),
    }
}

fn resolve(request: &AuthorizationRequest, decision: ProviderDecision) -> AuthorizationOutcome {
    validate_provider_decision(request, Some(decision), NOW)
}

#[test]
fn current_allow_returns_request_scoped_snapshot() {
    let actor = key(1);
    let request = direct_request(actor);
    let decision = allow_for(
        &request,
        capabilities(&[
            AuthorizationCapability::CommunityRead,
            AuthorizationCapability::CommunityWrite,
        ]),
        "version-a",
        90,
        180,
    );
    let AuthorizationOutcome::Allow(snapshot) = resolve(&request, decision) else {
        panic!("current provider policy must allow");
    };

    assert!((snapshot.authorization_domain()) == (domain(1)));
    assert!((snapshot.actor_pubkey()) == (actor));
    assert!((snapshot.owner_pubkey()) == (None));
    assert!((snapshot.proof_method()) == (AuthMethod::Nip42));
    assert!(snapshot.principal() == request.principal());
    assert!(snapshot.profile_id() == request.profile_id());
    assert!((snapshot.capabilities().as_slice()) == (&[AuthorizationCapability::CommunityRead]));
    assert!((snapshot.policy_version().as_str()) == ("version-a"));
    assert!((snapshot.issued_at()) == (90));
    assert!((snapshot.fresh_until()) == (180));
    assert!((snapshot.effective_until()) == (180));
    assert!((snapshot.decision_source()) == (DecisionSource::DirectAssertion));
    assert!((snapshot.correlation_id()) == (request.correlation_id()));
    assert!((snapshot.reason()) == (ProviderAllowReason::CurrentPolicy));
}

#[test]
fn explicit_denial_is_preserved() {
    let request = direct_request(key(1));
    let decision = ProviderDecision::Deny(AuthorizationDenial::new(
        AuthorizationDenialReason::ProviderDenied,
    ));
    let AuthorizationOutcome::Deny(denial) = resolve(&request, decision) else {
        panic!("provider denial must fail closed");
    };
    assert!((denial.reason()) == (AuthorizationDenialReason::ProviderDenied));
}

#[test]
fn provider_unavailability_never_falls_back_to_allow() {
    let request = direct_request(key(1));
    let retry_after = RetryAfter::new(30).expect("synthetic retry hint is bounded");
    let decision = ProviderDecision::Unavailable(ProviderUnavailable::new(
        ProviderUnavailableReason::TemporarilyUnavailable,
        Some(retry_after),
    ));
    let AuthorizationOutcome::Unavailable(unavailable) = resolve(&request, decision) else {
        panic!("provider unavailability must remain fail closed");
    };
    assert!((unavailable.reason()) == (ProviderUnavailableReason::TemporarilyUnavailable));
    assert!((unavailable.retry_after()) == (Some(retry_after)));
}

#[test]
fn provider_call_deadline_returns_timeout_unavailability() {
    let request = direct_request(key(1));
    let timeout =
        ProviderTimeout::new(Duration::from_millis(1).as_nanos()).expect("synthetic timeout is finite");
    assert!((timeout.duration()) == (1_000_000));
    // A provider call that did not finish before its deadline yields no decision.
    let AuthorizationOutcome::Unavailable(unavailable) =
        validate_provider_decision(&request, None, NOW)
    else {
        panic!("provider timeout must remain fail closed");
    };
    assert!((unavailable.reason()) == (ProviderUnavailableReason::Timeout));
    assert!((unavailable.retry_after()) == (None));
}

#[test]
fn stale_and_future_provider_decisions_deny() {
    let request = direct_request(key(1));
    let stale = allow_for(
        &request,
        request.requested_capabilities().clone(),
        "version-a",
        80,
        90,
    );
    let AuthorizationOutcome::Deny(stale_denial) = resolve(&request, stale) else {
        panic!("stale decision must deny");
    };
    assert!((stale_denial.reason()) == (AuthorizationDenialReason::StaleDecision));

    let future = allow_for(
        &request,
        request.requested_capabilities().clone(),
        "version-a",
        110,
        180,
    );
    let AuthorizationOutcome::Deny(future_denial) = resolve(&request, future) else {
        panic!("future decision must deny");
    };
    assert!((future_denial.reason()) == (AuthorizationDenialReason::FutureDecision));
}

fn allow_with(
    domain_value: u128,
    principal: FederatedPrincipal,
    profile_id: AuthorizationProfileId,
    granted: CapabilitySet,
) -> ProviderDecision {
    match ProviderAllow::new(
        domain(domain_value),
        principal,
        profile_id,
        granted,
        policy_version("version-a"),
        90,
        180,
    ) {
        Ok(allow) => ProviderDecision::Allow(allow),
        Err(_) => panic!("synthetic provider allow is structurally valid"),
    }
}

#[test]
fn domain_principal_and_capability_mismatches_deny() {
    let request = direct_request(key(1));

    let wrong_domain = allow_with(
        2,
        request.principal().clone(),
        request.profile_id().clone(),
        request.requested_capabilities().clone(),
    );
    let AuthorizationOutcome::Deny(denial) = resolve(&request, wrong_domain) else {
        panic!("cross-domain decision must deny");
    };
    assert!((denial.reason()) == (AuthorizationDenialReason::AuthorizationDomainMismatch));

    let wrong_principal = allow_with(
        1,
        FederatedPrincipal::new("https://idp.example", "other-subject")
            .expect("synthetic principal is valid"),
        request.profile_id().clone(),
        request.requested_capabilities().clone(),
    );
    let AuthorizationOutcome::Deny(denial) = resolve(&request, wrong_principal) else {
        panic!("principal mismatch must deny");
    };
    assert!((denial.reason()) == (AuthorizationDenialReason::PrincipalMismatch));

    let wrong_profile = allow_with(
        1,
        request.principal().clone(),
        AuthorizationProfileId::new("other-profile").expect("synthetic profile is valid"),
        request.requested_capabilities().clone(),
    );
    let AuthorizationOutcome::Deny(denial) = resolve(&request, wrong_profile) else {
        panic!("profile mismatch must deny");
    };
    assert!((denial.reason()) == (AuthorizationDenialReason::AuthorizationProfileMismatch));

    let missing_capability = allow_for(
        &request,
        capabilities(&[AuthorizationCapability::CommunityWrite]),
        "version-a",
        90,
        180,
    );
    let AuthorizationOutcome::Deny(denial) = resolve(&request, missing_capability) else {
        panic!("missing capability must deny");
    };
    assert!((denial.reason()) == (AuthorizationDenialReason::MissingCapability));
}

#[test]
fn assertion_expiry_bounds_provider_freshness() {
    let request = direct_request_with_expiry(
        key(1),
        120,
        capabilities(&[AuthorizationCapability::CommunityRead]),
    );
    let decision = allow_for(
        &request,
        request.requested_capabilities().clone(),
        "version-a",
        90,
        180,
    );
    let AuthorizationOutcome::Allow(snapshot) = resolve(&request, decision) else {
        panic!("current bounded policy must allow");
    };
    assert!((snapshot.fresh_until()) == (180));
    assert!((snapshot.effective_until()) == (120));
}

#[test]
fn delegated_owner_admission_does_not_require_owner_assertion() {
    let actor = key(1);
    let owner = key(2);
    let request = delegated_request(actor, owner, 140);
    assert!(matches!(
        request.authority(),
        AuthorizationAuthority::Delegated { owner_pubkey, .. }
            if *owner_pubkey == owner
    ));
    assert!((request.decision_source()) == (DecisionSource::DelegatedOwnerBinding));

    let decision = allow_for(
        &request,
        request.requested_capabilities().clone(),
        "version-a",
        90,
        180,
    );
    let AuthorizationOutcome::Allow(snapshot) = resolve(&request, decision) else {
        panic!("current owner admission must allow delegated authority");
    };
    assert!((snapshot.effective_until()) == (140));
    assert!((snapshot.actor_pubkey()) == (actor));
    assert!((snapshot.owner_pubkey()) == (Some(owner)));
}

#[test]
fn policy_versions_detect_equality_and_change_without_ordering() {
    let actor = key(1);
    let request_a = direct_request(actor);
    let decision_a = allow_for(
        &request_a,
        request_a.requested_capabilities().clone(),
        "opaque-a",
        90,
        180,
    );
    let AuthorizationOutcome::Allow(snapshot_a) = resolve(&request_a, decision_a) else {
        panic!("current provider policy must allow");
    };

    let request_b = direct_request(actor);
    let decision_b = allow_for(
        &request_b,
        request_b.requested_capabilities().clone(),
        "opaque-b",
        90,
        180,
    );
    let AuthorizationOutcome::Allow(snapshot_b) = resolve(&request_b, decision_b) else {
        panic!("current provider policy must allow");
    };

    assert!(snapshot_a.policy_version() != snapshot_b.policy_version());
    assert!(snapshot_a.policy_version() == &policy_version("opaque-a"));
}

#[test]
fn provider_contract_rejects_malformed_values() {
    assert!(matches!(
        CapabilitySet::new(Vec::new()),
        Err(ProviderContractError::EmptyCapabilitySet)
    ));
    assert!(matches!(
        AuthorizationProfileId::new(""),
        Err(ProviderContractError::EmptyProfileId)
    ));
    assert!(matches!(
        AuthorizationProfileId::new(&"x".repeat(MAX_OPAQUE_ID_BYTES + 1)),
        Err(ProviderContractError::ProfileIdTooLong)
    ));
    assert!(matches!(
        PolicyVersion::new(""),
        Err(ProviderContractError::EmptyPolicyVersion)
    ));
    assert!((RetryAfter::new(0)) == (Err(ProviderContractError::InvalidRetryAfter)));
    assert!((RetryAfter::new(MAX_RETRY_AFTER_SECONDS + 1)) == (Err(ProviderContractError::InvalidRetryAfter)));
    assert!((ProviderTimeout::new(Duration::ZERO.as_nanos())) == (Err(ProviderContractError::InvalidProviderTimeout)));
    assert!((ProviderTimeout::new(
            (Duration::from_nanos(MAX_PROVIDER_TIMEOUT_NANOS) + Duration::from_nanos(1)).as_nanos()
        )) == (Err(ProviderContractError::InvalidProviderTimeout)));
    let allow = |issued_at: u64, fresh_until: u64| {
        ProviderAllow::new(
            domain(1),
            principal(),
            profile(),
            capabilities(&[AuthorizationCapability::CommunityRead]),
            policy_version("version-a"),
            issued_at,
            fresh_until,
        )
    };
    assert!(matches!(
        allow(0, 180),
        Err(ProviderContractError::InvalidIssuedAt)
    ));
    assert!(matches!(
        allow(100, 100),
        Err(ProviderContractError::InvalidFreshnessBound)
    ));
    assert!(matches!(
        allow(100, 100 + MAX_PROVIDER_FRESHNESS_SECONDS + 1),
        Err(ProviderContractError::FreshnessWindowTooLong)
    ));
}

fn direct_request_result(
    proof: &VerifiedNostrProof,
    assertion: &VerifiedFederatedAssertion,
    correlation_id: u128,
) -> Result<AuthorizationRequest, ProviderContractError> {
    AuthorizationRequest::direct(
        proof,
        assertion,
        profile(),
        capabilities(&[AuthorizationCapability::CommunityRead]),
        correlation_id,
        NOW,
    )
}

#[test]
fn request_construction_rechecks_verified_bounds_and_relationships() {
    let actor = key(1);
    let proof = VerifiedNostrProof::new(
        domain(1),
        AuthTransport::RelayWebSocket,
        actor,
        AuthMethod::Nip42,
        None,
    )
    .expect("synthetic proof is valid");
    let expired = VerifiedFederatedAssertion::new(
        domain(1),
        AuthTransport::RelayWebSocket,
        principal(),
        Some(VerifiedKeyAttestation::new(actor)),
        AssertionTransport::TrustedProxy,
        None,
        AssertionExpiry::new(NOW).expect("synthetic expiry is valid"),
    );
    assert!(matches!(
        direct_request_result(&proof, &expired, 0),
        Err(ProviderContractError::InvalidCorrelationId)
    ));
    assert!(matches!(
        direct_request_result(&proof, &expired, 20),
        Err(ProviderContractError::AssertionExpired)
    ));

    let future = VerifiedFederatedAssertion::new(
        domain(1),
        AuthTransport::RelayWebSocket,
        principal(),
        Some(VerifiedKeyAttestation::new(actor)),
        AssertionTransport::TrustedProxy,
        Some(AssertionNotBefore::new(NOW + 1)),
        AssertionExpiry::new(NOW + 20).expect("synthetic expiry is valid"),
    );
    assert!(matches!(
        direct_request_result(&proof, &future, 20),
        Err(ProviderContractError::AssertionNotYetValid)
    ));
}

fn assertion_in_domain(
    domain_value: u128,
    transport: AuthTransport,
    attested_pubkey: Option<PublicKey>,
) -> VerifiedFederatedAssertion {
    VerifiedFederatedAssertion::new(
        domain(domain_value),
        transport,
        principal(),
        attested_pubkey.map(VerifiedKeyAttestation::new),
        AssertionTransport::TrustedProxy,
        None,
        AssertionExpiry::new(NOW + 20).expect("synthetic expiry is valid"),
    )
}

fn delegated_request_from(
    proof: &VerifiedNostrProof,
    binding: &VersionedBindingRef,
    correlation_id: u128,
) -> Result<AuthorizationRequest, ProviderContractError> {
    AuthorizationRequest::delegated(
        proof,
        binding,
        profile(),
        capabilities(&[AuthorizationCapability::CommunityRead]),
        correlation_id,
        NOW,
    )
}

#[test]
fn request_construction_rejects_mismatched_verified_evidence() {
    let actor = key(1);
    let owner = key(2);
    let other = key(3);
    let proof = VerifiedNostrProof::new(
        domain(1),
        AuthTransport::RelayWebSocket,
        actor,
        AuthMethod::Nip42,
        None,
    )
    .expect("synthetic proof is valid");

    assert!(matches!(
        direct_request_result(&proof, &assertion_in_domain(2, AuthTransport::RelayWebSocket, None), 20),
        Err(ProviderContractError::AuthorizationDomainMismatch)
    ));
    assert!(matches!(
        direct_request_result(&proof, &assertion_in_domain(1, AuthTransport::HttpBridge, None), 20),
        Err(ProviderContractError::TransportMismatch)
    ));
    assert!(matches!(
        direct_request_result(
            &proof,
            &assertion_in_domain(1, AuthTransport::RelayWebSocket, Some(other)),
            20
        ),
        Err(ProviderContractError::KeyAttestationMismatch)
    ));
    assert!(matches!(
        direct_request_result(&proof, &assertion_in_domain(1, AuthTransport::RelayWebSocket, None), 20),
        Err(ProviderContractError::MissingKeyAttestation)
    ));

    let delegation = VerifiedTransportDelegation::new_unrestricted(
        owner,
        actor,
        Some(DelegationExpiry::new(NOW + 20).expect("synthetic expiry is valid")),
    )
    .expect("synthetic delegation is valid");
    let delegated_proof = VerifiedNostrProof::new(
        domain(1),
        AuthTransport::RelayWebSocket,
        actor,
        AuthMethod::Nip42,
        Some(delegation),
    )
    .expect("synthetic proof is valid");
    assert!(matches!(
        direct_request_result(
            &delegated_proof,
            &assertion_in_domain(1, AuthTransport::RelayWebSocket, None),
            20
        ),
        Err(ProviderContractError::DirectRequestHasOwner)
    ));

    assert!(matches!(
        delegated_request_from(&delegated_proof, &existing_binding(owner), 0),
        Err(ProviderContractError::InvalidCorrelationId)
    ));
    assert!(matches!(
        delegated_request_from(&proof, &existing_binding(owner), 20),
        Err(ProviderContractError::DelegationRequired)
    ));
    assert!(matches!(
        delegated_request_from(&delegated_proof, &existing_binding(other), 20),
        Err(ProviderContractError::DelegatedOwnerMismatch)
    ));
    assert!(matches!(
        delegated_request_from(&delegated_proof, &existing_binding_in(2, owner), 20),
        Err(ProviderContractError::AuthorizationDomainMismatch)
    ));

    let expired_delegation = VerifiedTransportDelegation::new_unrestricted(
        owner,
        actor,
        Some(DelegationExpiry::new(NOW).expect("synthetic expiry is valid")),
    )
    .expect("synthetic delegation is valid");
    let expired_proof = VerifiedNostrProof::new(
        domain(1),
        AuthTransport::RelayWebSocket,
        actor,
        AuthMethod::Nip42,
        Some(expired_delegation),
    )
    .expect("synthetic proof is valid");
    assert!(matches!(
        delegated_request_from(&expired_proof, &existing_binding(owner), 20),
        Err(ProviderContractError::DelegationExpired)
    ));
}

#[test]
fn provider_trait_is_object_safe_and_codes_are_unique() {
    let mut codes = vec![
        ProviderAllowReason::CurrentPolicy.code(),
        AuthorizationDenialReason::ProviderDenied.code(),
        AuthorizationDenialReason::AuthorizationDomainMismatch.code(),
        AuthorizationDenialReason::PrincipalMismatch.code(),
        AuthorizationDenialReason::AuthorizationProfileMismatch.code(),
        AuthorizationDenialReason::MissingCapability.code(),
        AuthorizationDenialReason::StaleDecision.code(),
        AuthorizationDenialReason::FutureDecision.code(),
        AuthorizationDenialReason::IdentityEvidenceExpired.code(),
        ProviderUnavailableReason::TemporarilyUnavailable.code(),
        ProviderUnavailableReason::Timeout.code(),
        ProviderUnavailableReason::DependencyUnavailable.code(),
    ];
    codes.sort_unstable();
    codes.dedup();
    assert!((codes.len()) == (12));

    let contract_errors = [
        ProviderContractError::EmptyCapabilitySet,
        ProviderContractError::EmptyProfileId,
        ProviderContractError::ProfileIdTooLong,
        ProviderContractError::EmptyPolicyVersion,
        ProviderContractError::PolicyVersionTooLong,
        ProviderContractError::InvalidIssuedAt,
        ProviderContractError::InvalidFreshnessBound,
        ProviderContractError::FreshnessWindowTooLong,
        ProviderContractError::InvalidRetryAfter,
        ProviderContractError::InvalidProviderTimeout,
        ProviderContractError::InvalidCorrelationId,
        ProviderContractError::DirectRequestHasOwner,
        ProviderContractError::AuthorizationDomainMismatch,
        ProviderContractError::TransportMismatch,
        ProviderContractError::AssertionNotYetValid,
        ProviderContractError::AssertionExpired,
        ProviderContractError::KeyAttestationMismatch,
        ProviderContractError::MissingKeyAttestation,
        ProviderContractError::DelegationRequired,
        ProviderContractError::DelegatedOwnerMismatch,
        ProviderContractError::DelegationExpired,
    ];
    let mut contract_codes = contract_errors
        .iter()
        .copied()
        .map(ProviderContractError::code)
        .collect::<Vec<_>>();
    contract_codes.sort_unstable();
    contract_codes.dedup();
    assert!((contract_codes.len()) == (contract_errors.len()));
}

#[test]
fn capability_set_is_sorted_deduplicated_and_order_independent() {
    let a = capabilities(&[
        AuthorizationCapability::AudioJoin,
        AuthorizationCapability::CommunityRead,
        AuthorizationCapability::AudioJoin,
        AuthorizationCapability::Moderate,
    ]);
    let b = capabilities(&[
        AuthorizationCapability::Moderate,
        AuthorizationCapability::CommunityRead,
        AuthorizationCapability::AudioJoin,
    ]);
    assert!((a.as_slice()) == (&[
            AuthorizationCapability::CommunityRead,
            AuthorizationCapability::Moderate,
            AuthorizationCapability::AudioJoin,
        ]));
    assert!((a.as_slice()) == (b.as_slice()));
    let again = CapabilitySet::new(a.as_slice().to_vec()).expect("non-empty");
    assert!((again.as_slice()) == (a.as_slice()));
    assert!(a.contains_all(&capabilities(&[AuthorizationCapability::Moderate])));
    assert!(!a.contains_all(&capabilities(&[AuthorizationCapability::GitRead])));
}

#[test]
fn evidence_bound_at_now_denies_as_identity_evidence_expired() {
    // Delegation valid until 101: at 100 the request is built; validating at 101 expires it.
    let request = delegated_request(key(1), key(2), 101);
    let decision = allow_for(&request, request.requested_capabilities().clone(), "v", 90, 180);
    let AuthorizationOutcome::Deny(denial) = validate_provider_decision(&request, Some(decision), 101)
    else {
        panic!("expired identity evidence must deny");
    };
    assert!((denial.reason()) == (AuthorizationDenialReason::IdentityEvidenceExpired));
}

#[test]
fn opaque_identifiers_accept_exact_bound_and_preserve_text() {
    let at_bound = "y".repeat(MAX_OPAQUE_ID_BYTES);
    assert!((PolicyVersion::new(&at_bound).expect("at the bound").as_str()) == (at_bound));
    assert!(matches!(
        PolicyVersion::new(&"é".repeat(129)),
        Err(ProviderContractError::PolicyVersionTooLong)
    ));
    assert!((profile().as_str()) == ("profile-1"));
    assert!((RetryAfter::new(MAX_RETRY_AFTER_SECONDS).map(RetryAfter::seconds)) == (Ok(3_600)));
    assert!((ProviderTimeout::new(MAX_PROVIDER_TIMEOUT_NANOS as u128).map(ProviderTimeout::duration)) == (Ok(MAX_PROVIDER_TIMEOUT_NANOS)));
    assert!((AuthorizationDenialReason::ProviderDenied.code()) == ("authorization_provider_deny_001"));
    assert!((ProviderContractError::FreshnessWindowTooLong.code()) == ("authorization_provider_contract_021"));
}

#[test]
fn request_decision_snapshot_and_errors_are_redaction_safe() {
    let request = direct_request(key(1));
    assert_eq!(
        request.redacted_debug(),
        "AuthorizationRequest { authorization_domain: \"[redacted]\", actor_pubkey: \"[redacted]\", proof_method: \"[redacted]\", authority: \"[redacted]\", principal: \"[redacted]\", profile_id: \"[redacted]\", requested_capabilities: \"[redacted]\", correlation_id: \"[redacted]\", decision_source: \"[redacted]\", evidence_valid_until: \"[redacted]\" }"
    );

    let allow = match ProviderAllow::new(
        request.authorization_domain(),
        request.principal().clone(),
        request.profile_id().clone(),
        request.requested_capabilities().clone(),
        policy_version("private-policy-version"),
        90,
        180,
    ) {
        Ok(allow) => allow,
        Err(_) => panic!("synthetic provider allow is structurally valid"),
    };
    assert_eq!(
        allow.redacted_debug(),
        "ProviderAllow { authorization_domain: \"[redacted]\", principal: \"[redacted]\", profile_id: \"[redacted]\", capabilities: \"[redacted]\", policy_version: \"[redacted]\", issued_at: \"[redacted]\", fresh_until: \"[redacted]\" }"
    );
    let decision = ProviderDecision::Allow(allow);
    assert_eq!(decision.redacted_debug(), "ProviderDecision(\"[redacted]\")");
    let outcome = resolve(&request, decision);
    assert_eq!(outcome.redacted_debug(), "AuthorizationOutcome(\"[redacted]\")");
    let AuthorizationOutcome::Allow(snapshot) = outcome else {
        panic!("current provider policy must allow");
    };
    assert_eq!(
        snapshot.redacted_debug(),
        "CapabilitySnapshot { authorization_domain: \"[redacted]\", actor_pubkey: \"[redacted]\", owner_pubkey: \"[redacted]\", proof_method: \"[redacted]\", principal: \"[redacted]\", profile_id: \"[redacted]\", capabilities: \"[redacted]\", policy_version: \"[redacted]\", issued_at: \"[redacted]\", fresh_until: \"[redacted]\", effective_until: \"[redacted]\", decision_source: \"[redacted]\", correlation_id: \"[redacted]\", reason: \"[redacted]\" }"
    );

    let denial = AuthorizationDenial::new(AuthorizationDenialReason::ProviderDenied);
    assert_eq!(denial.redacted_debug(), "AuthorizationDenial { reason: \"[redacted]\" }");
    let retry = match RetryAfter::new(30) {
        Ok(retry) => retry,
        Err(_) => panic!("synthetic retry hint is bounded"),
    };
    let unavailable =
        ProviderUnavailable::new(ProviderUnavailableReason::DependencyUnavailable, Some(retry));
    assert_eq!(
        unavailable.redacted_debug(),
        "ProviderUnavailable { reason: \"[redacted]\", retry_after: \"[redacted]\" }"
    );
    assert_eq!(provider_timeout().redacted_debug(), "ProviderTimeout(\"[redacted]\")");
    assert_eq!(
        request.profile_id().redacted_debug(),
        "AuthorizationProfileId(\"[redacted]\")"
    );
    assert_eq!(snapshot.policy_version().redacted_debug(), "PolicyVersion(\"[redacted]\")");
    assert_eq!(snapshot.capabilities().redacted_debug(), "CapabilitySet(\"[redacted]\")");

    for error in [
        ProviderContractError::EmptyCapabilitySet,
        ProviderContractError::EmptyProfileId,
        ProviderContractError::EmptyPolicyVersion,
        ProviderContractError::AuthorizationDomainMismatch,
        ProviderContractError::DelegatedOwnerMismatch,
    ] {
        let rendered = error.code();
        assert!(!rendered.contains("idp.example"));
        assert!(!rendered.contains("subject-123"));
        assert!(!rendered.contains("private-policy-version"));
    }
}

#[test]
fn small_values_render_only_their_type_name() {
    assert_eq!(
        AuthorizationCapability::CommunityRead.redacted_debug(),
        "AuthorizationCapability(\"[redacted]\")"
    );
    assert_eq!(DecisionSource::DirectAssertion.redacted_debug(), "DecisionSource(\"[redacted]\")");
    assert_eq!(
        AuthorizationAuthority::Direct.redacted_debug(),
        "AuthorizationAuthority(\"[redacted]\")"
    );
    assert_eq!(
        AuthorizationDenialReason::StaleDecision.redacted_debug(),
        "AuthorizationDenialReason(\"[redacted]\")"
    );
    assert_eq!(
        ProviderUnavailableReason::Timeout.redacted_debug(),
        "ProviderUnavailableReason(\"[redacted]\")"
    );
    assert_eq!(
        ProviderAllowReason::CurrentPolicy.redacted_debug(),
        "ProviderAllowReason(\"[redacted]\")"
    );
    assert_eq!(BindingVersion::initial().redacted_debug(), "BindingVersion(\"[redacted]\")");
    assert_eq!(BindingSource::Tofu.redacted_debug(), "BindingSource(\"[redacted]\")");
}
