use buzz_auth::context::auth_context::{
    AuthContext, AuthContextInput, AuthContextVersion, FederatedAuthorization,
};
use buzz_auth::context::binding::{
    BindingSource, BindingVersion, EnrollmentMode, FederatedIdentityRequirement,
    ResolvedFederatedPolicy, VersionedBindingRef,
};
use buzz_auth::context::evidence::{
    transport_accepts_proof, AdmissionExpiry, AssertionExpiry, AssertionNotBefore,
    AssertionTransport, AuthMethod, AuthTransport, AuthorizedCommunityAccess, DelegationExpiry,
    FederatedPrincipal, Scope, TenantContext, VerifiedFederatedAssertion, VerifiedKeyAttestation,
    VerifiedNostrProof, VerifiedOwnerAdmission, VerifiedTransportDelegation,
};
use buzz_auth::context::reason::{AuthContextError, AuthorizationReason};
use buzz_auth::ids::{CommunityId, PublicKey};

const NOW: u64 = 100;

fn domain(value: u128) -> CommunityId {
    CommunityId::from_u128(value)
}

fn key(value: u64) -> PublicKey {
    PublicKey::from_words(value, 7, 7, value)
}

fn principal() -> FederatedPrincipal {
    FederatedPrincipal::new("https://idp.example", "subject-123").expect("valid principal")
}

fn proof_in(domain_value: u128, actor: PublicKey, owner: Option<PublicKey>) -> VerifiedNostrProof {
    let delegation = owner.map(|owner| {
        VerifiedTransportDelegation::new_unrestricted(
            owner,
            actor,
            Some(DelegationExpiry::new(150).expect("valid expiry")),
        )
        .expect("valid delegation")
    });
    VerifiedNostrProof::new(
        domain(domain_value),
        AuthTransport::RelayWebSocket,
        actor,
        AuthMethod::Nip42,
        delegation,
    )
    .expect("valid proof")
}

fn input_with(proof: VerifiedNostrProof, access_domain: u128) -> AuthContextInput {
    AuthContextInput::new(
        TenantContext::new(domain(1)),
        42,
        proof,
        AuthorizedCommunityAccess::new(
            domain(access_domain),
            vec![Scope::new("messages:read"), Scope::new("messages:write")],
            Some(vec![5, 6]),
        ),
    )
}

fn input(actor: PublicKey, owner: Option<PublicKey>) -> AuthContextInput {
    input_with(proof_in(1, actor, owner), 1)
}

fn assertion(
    actor_attested: Option<PublicKey>,
    not_before: Option<u64>,
    expiry: u64,
) -> VerifiedFederatedAssertion {
    VerifiedFederatedAssertion::new(
        domain(1),
        AuthTransport::RelayWebSocket,
        principal(),
        actor_attested.map(VerifiedKeyAttestation::new),
        AssertionTransport::TrustedProxy,
        not_before.map(AssertionNotBefore::new),
        AssertionExpiry::new(expiry).expect("valid expiry"),
    )
}

fn existing(owner: PublicKey, source: BindingSource) -> VersionedBindingRef {
    match VersionedBindingRef::new_existing_active_for_test(
        domain(1),
        10,
        principal(),
        owner,
        BindingVersion::initial(),
        source,
    ) {
        Ok(binding) => binding,
        Err(_) => panic!("valid binding"),
    }
}

fn enrolled(owner: PublicKey, source: BindingSource, reason: AuthorizationReason) -> VersionedBindingRef {
    match VersionedBindingRef::new_enrolled_active_for_test(
        domain(1),
        10,
        principal(),
        owner,
        BindingVersion::initial(),
        source,
        reason,
    ) {
        Ok(binding) => binding,
        Err(_) => panic!("valid binding"),
    }
}

fn error_of(result: Result<AuthContext, AuthContextError>) -> AuthContextError {
    match result {
        Ok(_) => panic!("finalization must fail"),
        Err(error) => error,
    }
}

fn required(mode: EnrollmentMode) -> ResolvedFederatedPolicy {
    ResolvedFederatedPolicy::required(domain(1), mode)
}

#[test]
fn nostr_only_context_keeps_permissions_and_reason() {
    let actor = key(1);
    let context = match AuthContext::finalize_v1(
        input(actor, None),
        ResolvedFederatedPolicy::not_required(domain(1)),
        FederatedAuthorization::NotRequired,
        NOW,
    ) {
        Ok(context) => context,
        Err(_) => panic!("Nostr-only authorization must finalize"),
    };
    assert!((context.version()) == (AuthContextVersion::V1));
    assert!((context.tenant().community()) == (domain(1)));
    assert!((context.correlation_id()) == (42));
    assert!((context.transport()) == (AuthTransport::RelayWebSocket));
    assert!((context.pubkey()) == (actor));
    assert!((context.auth_method()) == (AuthMethod::Nip42));
    assert!((context.agent_owner_pubkey()) == (None));
    assert!((context.authorization_reason()) == (AuthorizationReason::NostrOnly));
    assert!((context.federated_policy().requirement()) == (FederatedIdentityRequirement::NotRequired));
    assert!((context.scopes().len()) == (2));
    assert!(context.has_scope(&Scope::new("messages:write")));
    assert!(!context.has_scope(&Scope::new("admin")));
    assert!((context.channel_ids()) == (Some(&[5u128, 6][..])));
    assert!((AuthorizationReason::NostrOnly.code()) == ("authorization_allow_001"));
}

#[test]
fn policy_and_authorization_must_agree() {
    assert!((error_of(AuthContext::finalize_v1(
            input(key(1), None),
            required(EnrollmentMode::Provisioned),
            FederatedAuthorization::NotRequired,
            NOW,
        ))) == (AuthContextError::FederatedIdentityRequired));
    assert!((error_of(AuthContext::finalize_v1(
            input(key(1), None),
            ResolvedFederatedPolicy::not_required(domain(1)),
            FederatedAuthorization::Direct {
                binding: existing(key(1), BindingSource::Provisioned),
                assertion: assertion(None, None, 200),
            },
            NOW,
        ))) == (AuthContextError::UnexpectedFederatedAuthorization));
}

#[test]
fn evidence_must_share_the_tenant_domain() {
    assert!((error_of(AuthContext::finalize_v1(
            input_with(proof_in(2, key(1), None), 1),
            ResolvedFederatedPolicy::not_required(domain(1)),
            FederatedAuthorization::NotRequired,
            NOW,
        ))) == (AuthContextError::NostrProofDomainMismatch));
    assert!((error_of(AuthContext::finalize_v1(
            input(key(1), None),
            ResolvedFederatedPolicy::not_required(domain(2)),
            FederatedAuthorization::NotRequired,
            NOW,
        ))) == (AuthContextError::PolicyDomainMismatch));
    assert!((error_of(AuthContext::finalize_v1(
            input_with(proof_in(1, key(1), None), 3),
            ResolvedFederatedPolicy::not_required(domain(1)),
            FederatedAuthorization::NotRequired,
            NOW,
        ))) == (AuthContextError::CommunityAccessDomainMismatch));
}

#[test]
fn existing_direct_binding_finalizes_with_its_lifecycle_reason() {
    let actor = key(1);
    let context = match AuthContext::finalize_v1(
        input(actor, None),
        required(EnrollmentMode::Provisioned),
        FederatedAuthorization::Direct {
            binding: existing(actor, BindingSource::Provisioned),
            assertion: assertion(None, Some(NOW), 200),
        },
        NOW,
    ) {
        Ok(context) => context,
        Err(_) => panic!("existing binding must finalize"),
    };
    assert!((context.authorization_reason()) == (AuthorizationReason::ExistingBinding));
}

#[test]
fn direct_authorization_checks_time_key_and_reason() {
    let actor = key(1);
    let direct = |binding, assertion| FederatedAuthorization::Direct { binding, assertion };
    let finalize = |mode, authorization| {
        AuthContext::finalize_v1(input(actor, None), required(mode), authorization, NOW)
    };
    assert!((error_of(finalize(
            EnrollmentMode::Provisioned,
            direct(existing(actor, BindingSource::Provisioned), assertion(None, None, NOW)),
        ))) == (AuthContextError::AssertionExpired));
    assert!((error_of(finalize(
            EnrollmentMode::Provisioned,
            direct(existing(actor, BindingSource::Provisioned), assertion(None, Some(NOW + 1), 200)),
        ))) == (AuthContextError::AssertionNotYetValid));
    assert!((error_of(finalize(
            EnrollmentMode::Provisioned,
            direct(existing(key(9), BindingSource::Provisioned), assertion(None, None, 200)),
        ))) == (AuthContextError::DirectBindingKeyMismatch));
    assert!((error_of(finalize(
            EnrollmentMode::AttestedKey,
            direct(
                enrolled(actor, BindingSource::AttestedKey, AuthorizationReason::EnrolledAttestedKey),
                assertion(None, None, 200),
            ),
        ))) == (AuthContextError::KeyAttestationRequired));
    assert!((error_of(finalize(
            EnrollmentMode::AttestedKey,
            direct(
                enrolled(actor, BindingSource::AttestedKey, AuthorizationReason::EnrolledAttestedKey),
                assertion(Some(key(9)), None, 200),
            ),
        ))) == (AuthContextError::KeyAttestationMismatch));
    assert!((error_of(finalize(
            EnrollmentMode::Tofu,
            direct(
                enrolled(actor, BindingSource::AttestedKey, AuthorizationReason::EnrolledAttestedKey),
                assertion(Some(actor), None, 200),
            ),
        ))) == (AuthContextError::InvalidAuthorizationReason));
    // A TOFU decision over an attested-key binding keeps its stronger source
    // but still needs the attestation.
    let tofu_attested = finalize(
        EnrollmentMode::Tofu,
        direct(
            enrolled(actor, BindingSource::AttestedKey, AuthorizationReason::EnrolledTofu),
            assertion(Some(actor), None, 200),
        ),
    );
    match tofu_attested {
        Ok(context) => assert!((context.authorization_reason()) == (AuthorizationReason::EnrolledTofu)),
        Err(_) => panic!("TOFU enrollment over an attested key must finalize"),
    }
    assert!((error_of(finalize(
            EnrollmentMode::Tofu,
            direct(
                enrolled(actor, BindingSource::AttestedKey, AuthorizationReason::EnrolledTofu),
                assertion(None, None, 200),
            ),
        ))) == (AuthContextError::KeyAttestationRequired));
}

#[test]
fn direct_authorization_rejects_delegated_actor() {
    let actor = key(1);
    assert!((error_of(AuthContext::finalize_v1(
            input(actor, Some(key(2))),
            required(EnrollmentMode::Provisioned),
            FederatedAuthorization::Direct {
                binding: existing(actor, BindingSource::Provisioned),
                assertion: assertion(None, None, 200),
            },
            NOW,
        ))) == (AuthContextError::DirectAuthorizationHasOwner));
}

fn admission(fresh_until: u64) -> VerifiedOwnerAdmission {
    VerifiedOwnerAdmission::new(
        domain(1),
        principal(),
        AdmissionExpiry::new(fresh_until).expect("valid admission expiry"),
    )
}

#[test]
fn delegated_authorization_requires_current_owner_evidence() {
    let actor = key(1);
    let owner = key(2);
    let delegated = |binding, admission| FederatedAuthorization::Delegated { owner: binding, admission };
    let context = match AuthContext::finalize_v1(
        input(actor, Some(owner)),
        required(EnrollmentMode::Provisioned),
        delegated(existing(owner, BindingSource::Provisioned), admission(120)),
        NOW,
    ) {
        Ok(context) => context,
        Err(_) => panic!("current delegated authority must finalize"),
    };
    assert!((context.authorization_reason()) == (AuthorizationReason::DelegatedOwnerBinding));
    assert!((context.agent_owner_pubkey()) == (Some(owner)));
    assert!((context.pubkey()) == (actor));

    assert!((error_of(AuthContext::finalize_v1(
            input(actor, Some(owner)),
            required(EnrollmentMode::Provisioned),
            delegated(existing(owner, BindingSource::Provisioned), admission(NOW)),
            NOW,
        ))) == (AuthContextError::OwnerAdmissionExpired));
    assert!((error_of(AuthContext::finalize_v1(
            input(actor, None),
            required(EnrollmentMode::Provisioned),
            delegated(existing(owner, BindingSource::Provisioned), admission(120)),
            NOW,
        ))) == (AuthContextError::DelegationRequired));
    assert!((error_of(AuthContext::finalize_v1(
            input(actor, Some(owner)),
            required(EnrollmentMode::Provisioned),
            delegated(existing(key(9), BindingSource::Provisioned), admission(120)),
            NOW,
        ))) == (AuthContextError::DelegatedOwnerMismatch));
    assert!((error_of(AuthContext::finalize_v1(
            input(actor, Some(owner)),
            required(EnrollmentMode::Provisioned),
            delegated(existing(owner, BindingSource::Provisioned), admission(200)),
            150,
        ))) == (AuthContextError::DelegationExpired));
}

#[test]
fn evidence_constructors_reject_malformed_values() {
    assert!(matches!(FederatedPrincipal::new("", "s"), Err(AuthContextError::EmptyIssuer)));
    assert!(matches!(FederatedPrincipal::new("i", ""), Err(AuthContextError::EmptySubject)));
    assert!((BindingVersion::new(0)) == (Err(AuthContextError::InvalidBindingVersion)));
    assert!((BindingVersion::new(7).map(BindingVersion::get)) == (Ok(7)));
    assert!((BindingVersion::initial().get()) == (1));
    assert!((AssertionExpiry::new(0)) == (Err(AuthContextError::InvalidAssertionExpiry)));
    assert!((DelegationExpiry::new(0)) == (Err(AuthContextError::InvalidDelegationExpiry)));
    assert!((AdmissionExpiry::new(0)) == (Err(AuthContextError::InvalidAdmissionExpiry)));
    assert!((VerifiedTransportDelegation::new_unrestricted(key(1), key(1), None)) == (Err(AuthContextError::SelfDelegation)));
    let delegation =
        VerifiedTransportDelegation::new_unrestricted(key(2), key(3), None).expect("valid delegation");
    assert!((VerifiedNostrProof::new(
            domain(1),
            AuthTransport::RelayWebSocket,
            key(1),
            AuthMethod::Nip42,
            Some(delegation),
        )) == (Err(AuthContextError::DelegateKeyMismatch)));
    assert!((VerifiedNostrProof::new(domain(1), AuthTransport::Git, key(1), AuthMethod::Nip42, None)) == (Err(AuthContextError::TransportProofMismatch)));
    assert!(matches!(
        VersionedBindingRef::new_existing_active_for_test(
            domain(1),
            0,
            principal(),
            key(1),
            BindingVersion::initial(),
            BindingSource::Tofu,
        ),
        Err(AuthContextError::InvalidBindingId)
    ));
    assert!(matches!(
        VersionedBindingRef::new_enrolled_active_for_test(
            domain(1),
            10,
            principal(),
            key(1),
            BindingVersion::initial(),
            BindingSource::Tofu,
            AuthorizationReason::ExistingBinding,
        ),
        Err(AuthContextError::InvalidAuthorizationReason)
    ));
    assert!((AuthContextError::SelfDelegation.code()) == ("delegation_self_reference"));
}

#[test]
fn transports_accept_only_their_proof_methods() {
    assert!(transport_accepts_proof(AuthTransport::RelayWebSocket, AuthMethod::Nip42));
    assert!(transport_accepts_proof(AuthTransport::Audio, AuthMethod::Nip42));
    assert!(!transport_accepts_proof(AuthTransport::RelayWebSocket, AuthMethod::Nip98));
    assert!(transport_accepts_proof(AuthTransport::HttpBridge, AuthMethod::Nip98));
    assert!(transport_accepts_proof(AuthTransport::Git, AuthMethod::Nip98));
    assert!(transport_accepts_proof(AuthTransport::MediaUpload, AuthMethod::Blossom));
    assert!(transport_accepts_proof(AuthTransport::MediaUpload, AuthMethod::Nip98));
    assert!(!transport_accepts_proof(AuthTransport::MediaDownload, AuthMethod::Blossom));
    assert!(transport_accepts_proof(AuthTransport::MediaDownload, AuthMethod::Nip98));
}

#[test]
fn auth_context_error_codes_are_pairwise_distinct() {
    let all = [
        AuthContextError::EmptyIssuer,
        AuthContextError::EmptySubject,
        AuthContextError::InvalidBindingVersion,
        AuthContextError::InvalidBindingId,
        AuthContextError::InvalidAssertionExpiry,
        AuthContextError::InvalidDelegationExpiry,
        AuthContextError::InvalidAdmissionExpiry,
        AuthContextError::AssertionExpired,
        AuthContextError::AssertionNotYetValid,
        AuthContextError::KeyAttestationRequired,
        AuthContextError::KeyAttestationMismatch,
        AuthContextError::OwnerAdmissionExpired,
        AuthContextError::FederatedIdentityRequired,
        AuthContextError::UnexpectedFederatedAuthorization,
        AuthContextError::DelegationExpired,
        AuthContextError::SelfDelegation,
        AuthContextError::InvalidAuthorizationReason,
        AuthContextError::BindingDomainMismatch,
        AuthContextError::NostrProofDomainMismatch,
        AuthContextError::PolicyDomainMismatch,
        AuthContextError::CommunityAccessDomainMismatch,
        AuthContextError::AssertionDomainMismatch,
        AuthContextError::AssertionTransportMismatch,
        AuthContextError::OwnerAdmissionDomainMismatch,
        AuthContextError::OwnerAdmissionPrincipalMismatch,
        AuthContextError::AssertionPrincipalMismatch,
        AuthContextError::TransportProofMismatch,
        AuthContextError::DirectAuthorizationHasOwner,
        AuthContextError::DirectBindingKeyMismatch,
        AuthContextError::DelegateKeyMismatch,
        AuthContextError::DelegationRequired,
        AuthContextError::DelegatedOwnerMismatch,
    ];
    let mut codes: Vec<String> = all.iter().map(|e| e.code().to_string()).collect();
    assert_eq!(codes.len(), 32);
    codes.sort();
    codes.dedup();
    assert_eq!(codes.len(), 32);
    assert!((AuthContextError::InvalidBindingVersion.code()) == ("federated_binding_invalid_version"));
    assert!((AuthContextError::TransportProofMismatch.code()) == ("nostr_transport_proof_mismatch"));
    assert!((AuthContextError::DelegatedOwnerMismatch.code()) == ("federated_delegated_owner_mismatch"));
}

#[test]
fn policy_and_binding_values_render_redacted() {
    assert_eq!(EnrollmentMode::Tofu.redacted_debug(), "EnrollmentMode(\"[redacted]\")");
    assert_eq!(
        FederatedIdentityRequirement::Required(EnrollmentMode::Provisioned).redacted_debug(),
        "FederatedIdentityRequirement(\"[redacted]\")"
    );
    assert_eq!(
        required(EnrollmentMode::AttestedKey).redacted_debug(),
        "ResolvedFederatedPolicy { authorization_domain: \"[redacted]\", requirement: \"[redacted]\" }"
    );
    assert_eq!(BindingSource::Provisioned.redacted_debug(), "BindingSource(\"[redacted]\")");
    assert_eq!(
        FederatedAuthorization::NotRequired.redacted_debug(),
        "FederatedAuthorization(\"[redacted]\")"
    );
    assert_eq!(
        AuthorizationReason::ExistingBinding.redacted_debug(),
        "AuthorizationReason(\"[redacted]\")"
    );
}
