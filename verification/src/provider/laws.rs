//! Properties that span the provider functions.

use vstd::prelude::*;

use super::capability::{capabilities_normalized, capability_rank, AuthorizationCapability};
use super::contract::{
    ProviderContractError, MAX_OPAQUE_ID_BYTES, MAX_PROVIDER_FRESHNESS_SECONDS,
    MAX_PROVIDER_TIMEOUT_NANOS, MAX_RETRY_AFTER_SECONDS,
};
use super::capability::capabilities_cover;
use super::decision::{
    spec_allow_error, spec_outcome, AuthorizationDenialReason, DecisionView, OutcomeView, ProviderAllowReason,
    ProviderUnavailableReason,
};
use super::request::{
    spec_delegated_request, spec_delegated_request_error, spec_direct_request,
    spec_direct_request_error, AuthorizationAuthority, RequestView,
};
use crate::context::binding::BindingView;
use crate::context::evidence::{AssertionView, NostrProofView};

verus! {

/// Distinct denial reasons have distinct stable codes.
pub proof fn lemma_denial_codes_distinct(a: AuthorizationDenialReason, b: AuthorizationDenialReason)
    requires
        a != b,
    ensures
        a.code_text() != b.code_text(),
{
    reveal_strlit("authorization_provider_deny_001");
    reveal_strlit("authorization_provider_deny_002");
    reveal_strlit("authorization_provider_deny_003");
    reveal_strlit("authorization_provider_deny_004");
    reveal_strlit("authorization_provider_deny_005");
    reveal_strlit("authorization_provider_deny_006");
    reveal_strlit("authorization_provider_deny_007");
    reveal_strlit("authorization_provider_deny_008");
    assert(a.code_text()[30] != b.code_text()[30]);
}


/// Distinct unavailability reasons have distinct stable codes.
pub proof fn lemma_unavailable_codes_distinct(a: ProviderUnavailableReason, b: ProviderUnavailableReason)
    requires
        a != b,
    ensures
        a.code_text() != b.code_text(),
{
    reveal_strlit("authorization_provider_unavailable_001");
    reveal_strlit("authorization_provider_unavailable_002");
    reveal_strlit("authorization_provider_unavailable_003");
    assert(a.code_text()[37] != b.code_text()[37]);
}

/// Allow, denial and unavailability codes never coincide across kinds.
pub proof fn lemma_outcome_code_kinds_distinct(
    allow: ProviderAllowReason,
    denial: AuthorizationDenialReason,
    unavailable: ProviderUnavailableReason,
)
    ensures
        allow.code_text() != denial.code_text(),
        allow.code_text() != unavailable.code_text(),
        denial.code_text() != unavailable.code_text(),
{
    reveal_strlit("authorization_provider_allow_001");
    reveal_strlit("authorization_provider_deny_001");
    reveal_strlit("authorization_provider_deny_002");
    reveal_strlit("authorization_provider_deny_003");
    reveal_strlit("authorization_provider_deny_004");
    reveal_strlit("authorization_provider_deny_005");
    reveal_strlit("authorization_provider_deny_006");
    reveal_strlit("authorization_provider_deny_007");
    reveal_strlit("authorization_provider_deny_008");
    reveal_strlit("authorization_provider_unavailable_001");
    reveal_strlit("authorization_provider_unavailable_002");
    reveal_strlit("authorization_provider_unavailable_003");
    assert(allow.code_text()[23] != denial.code_text()[23]);
    assert(allow.code_text()[23] != unavailable.code_text()[23]);
    assert(denial.code_text()[23] != unavailable.code_text()[23]);
}

/// Distinct provider-contract errors have distinct stable codes.
pub proof fn lemma_contract_codes_distinct(a: ProviderContractError, b: ProviderContractError)
    requires
        a != b,
    ensures
        a.code_text() != b.code_text(),
{
    reveal_strlit("authorization_provider_contract_001");
    reveal_strlit("authorization_provider_contract_002");
    reveal_strlit("authorization_provider_contract_003");
    reveal_strlit("authorization_provider_contract_004");
    reveal_strlit("authorization_provider_contract_005");
    reveal_strlit("authorization_provider_contract_006");
    reveal_strlit("authorization_provider_contract_007");
    reveal_strlit("authorization_provider_contract_008");
    reveal_strlit("authorization_provider_contract_009");
    reveal_strlit("authorization_provider_contract_010");
    reveal_strlit("authorization_provider_contract_011");
    reveal_strlit("authorization_provider_contract_012");
    reveal_strlit("authorization_provider_contract_013");
    reveal_strlit("authorization_provider_contract_014");
    reveal_strlit("authorization_provider_contract_015");
    reveal_strlit("authorization_provider_contract_016");
    reveal_strlit("authorization_provider_contract_017");
    reveal_strlit("authorization_provider_contract_018");
    reveal_strlit("authorization_provider_contract_019");
    reveal_strlit("authorization_provider_contract_020");
    reveal_strlit("authorization_provider_contract_021");
    assert(a.code_text()[33] != b.code_text()[33] || a.code_text()[34] != b.code_text()[34]);
}


proof fn lemma_rank_injective(x: AuthorizationCapability, y: AuthorizationCapability)
    requires
        capability_rank(x) == capability_rank(y),
    ensures
        x == y,
{
}

proof fn lemma_normalized_prefix_equal(
    a: Seq<AuthorizationCapability>,
    b: Seq<AuthorizationCapability>,
    i: int,
)
    requires
        capabilities_normalized(a),
        capabilities_normalized(b),
        forall|c: AuthorizationCapability| a.contains(c) <==> b.contains(c),
        0 <= i <= a.len(),
        i <= b.len(),
    ensures
        forall|j: int| 0 <= j < i ==> a[j] == b[j],
    decreases i,
{
    if i > 0 {
        lemma_normalized_prefix_equal(a, b, i - 1);
        let k = i - 1;
        assert(a.contains(a[k]));
        let kb = choose|m: int| 0 <= m < b.len() && b[m] == a[k];
        assert(b.contains(b[k]));
        let ka = choose|m: int| 0 <= m < a.len() && a[m] == b[k];
        if capability_rank(a[k]) < capability_rank(b[k]) {
            if kb < k {
                assert(a[kb] == b[kb]);
            }
        } else if capability_rank(b[k]) < capability_rank(a[k]) {
            if ka < k {
                assert(a[ka] == b[ka]);
            }
        } else {
            lemma_rank_injective(a[k], b[k]);
        }
    }
}

/// Two normalized capability sequences with the same members are equal, so a
/// capability set depends only on which capabilities it was built from: not
/// on their order or repetitions, and rebuilding a set from its own
/// capabilities gives the same set.
pub proof fn lemma_normalized_capabilities_unique(
    a: Seq<AuthorizationCapability>,
    b: Seq<AuthorizationCapability>,
)
    requires
        capabilities_normalized(a),
        capabilities_normalized(b),
        forall|c: AuthorizationCapability| a.contains(c) <==> b.contains(c),
    ensures
        a == b,
{
    if a.len() <= b.len() {
        lemma_normalized_prefix_equal(a, b, a.len() as int);
        if a.len() < b.len() {
            let x = b[a.len() as int];
            assert(b.contains(x));
            let k = choose|m: int| 0 <= m < a.len() && a[m] == x;
            assert(a[k] == b[k]);
        }
    } else {
        lemma_normalized_prefix_equal(a, b, b.len() as int);
        let x = a[b.len() as int];
        assert(a.contains(x));
        let k = choose|m: int| 0 <= m < b.len() && b[m] == x;
        assert(a[k] == b[k]);
    }
    assert(a =~= b);
}


/// Validation fails closed. An allowed outcome comes only from a provider
/// allow for the request's domain, principal and profile, issued no later
/// than now and still fresh, granting every requested capability; its
/// snapshot holds exactly the requested capabilities and is effective after
/// now, but no later than the provider's freshness bound or the identity
/// evidence's bound. A denial is kept with its reason, unavailability is kept
/// as is, and a call that missed its deadline is timeout unavailability
/// without a retry hint.
pub proof fn lemma_validation_fails_closed(request: RequestView, decision: Option<DecisionView>, now: u64)
    ensures
        match (decision, spec_outcome(request, decision, now)) {
            (Some(DecisionView::Allow(a)), OutcomeView::Allow(s)) => {
                &&& a.authorization_domain == request.authorization_domain
                &&& a.principal == request.principal
                &&& a.profile_id == request.profile_id
                &&& a.issued_at <= now < a.fresh_until
                &&& capabilities_cover(a.capabilities, request.requested_capabilities)
                &&& s.capabilities == request.requested_capabilities
                &&& now < s.effective_until <= a.fresh_until
                &&& (request.evidence_valid_until matches Some(bound) ==> s.effective_until <= bound)
                &&& s.authorization_domain == request.authorization_domain
                &&& s.transport == request.transport
                &&& s.actor_pubkey == request.actor_pubkey
                &&& s.proof_method == request.proof_method
                &&& s.principal == request.principal
                &&& s.profile_id == request.profile_id
                &&& s.policy_version == a.policy_version
                &&& s.issued_at == a.issued_at
                &&& s.fresh_until == a.fresh_until
                &&& s.decision_source == request.decision_source
                &&& s.correlation_id == request.correlation_id
                &&& s.reason == ProviderAllowReason::CurrentPolicy
                &&& (request.authority == AuthorizationAuthority::Direct ==> s.owner_pubkey is None
                    && s.binding_id is None && s.binding_version is None)
                &&& (request.authority matches AuthorizationAuthority::Delegated {
                    owner_pubkey,
                    binding_id,
                    binding_version,
                } ==> s.owner_pubkey == Some(owner_pubkey) && s.binding_id == Some(binding_id)
                    && s.binding_version == Some(binding_version))
            },
            (_, OutcomeView::Allow(_)) => false,
            (None, outcome) => outcome == OutcomeView::Unavailable(
                (ProviderUnavailableReason::Timeout, None),
            ),
            (Some(DecisionView::Deny(reason)), outcome) => outcome == OutcomeView::Deny(reason),
            (Some(DecisionView::Unavailable(u)), outcome) => outcome == OutcomeView::Unavailable(u),
            _ => true,
        },
{
}


/// Assertion expiry bounds provider freshness: a snapshot granted for a
/// direct request is effective only while the assertion it was built from is
/// unexpired, and it names the assertion's principal and the proof's actor.
pub proof fn lemma_direct_snapshot_bounded_by_assertion(
    proof: NostrProofView,
    assertion: AssertionView,
    profile_id: Seq<char>,
    requested: Seq<AuthorizationCapability>,
    correlation_id: u128,
    decision: Option<DecisionView>,
    now: u64,
)
    ensures
        spec_outcome(
            spec_direct_request(proof, assertion, profile_id, requested, correlation_id),
            decision,
            now,
        ) matches OutcomeView::Allow(s) ==> {
            &&& now < s.effective_until <= assertion.expires_at@
            &&& s.principal == assertion.principal
            &&& s.actor_pubkey == proof.actor_pubkey
            &&& s.owner_pubkey is None
        },
{
    lemma_validation_fails_closed(
        spec_direct_request(proof, assertion, profile_id, requested, correlation_id),
        decision,
        now,
    );
}

/// Delegated authority is admitted for the bound owner without an owner
/// assertion: a snapshot granted for a delegated request names the owner's
/// principal, key, binding identifier and binding version, and is effective
/// only while the delegation is unexpired.
pub proof fn lemma_delegated_snapshot_names_bound_owner(
    proof: NostrProofView,
    owner: BindingView,
    profile_id: Seq<char>,
    requested: Seq<AuthorizationCapability>,
    correlation_id: u128,
    decision: Option<DecisionView>,
    now: u64,
)
    requires
        proof.verified_delegation is Some,
    ensures
        spec_outcome(
            spec_delegated_request(proof, owner, profile_id, requested, correlation_id),
            decision,
            now,
        ) matches OutcomeView::Allow(s) ==> {
            &&& s.principal == owner.principal
            &&& s.owner_pubkey == Some(owner.bound_pubkey)
            &&& s.binding_id == Some(owner.binding_id)
            &&& s.binding_version == Some(owner.binding_version)
            &&& s.actor_pubkey == proof.actor_pubkey
            &&& (proof.verified_delegation->0@.expires_at matches Some(e) ==> s.effective_until
                <= e@)
        },
{
    lemma_validation_fails_closed(
        spec_delegated_request(proof, owner, profile_id, requested, correlation_id),
        decision,
        now,
    );
}

/// A provider allow result is accepted exactly when it was issued at a
/// non-zero time and its freshness bound is later, by at most
/// `MAX_PROVIDER_FRESHNESS_SECONDS` (one day); each other window is refused
/// with the error naming its fault.
pub proof fn lemma_allow_freshness_window(issued_at: u64, fresh_until: u64)
    ensures
        MAX_PROVIDER_FRESHNESS_SECONDS == 86_400,
        spec_allow_error(issued_at, fresh_until) is None <==> (0 < issued_at < fresh_until
            && fresh_until - issued_at <= MAX_PROVIDER_FRESHNESS_SECONDS),
        issued_at == 0 ==> spec_allow_error(issued_at, fresh_until) == Some(
            ProviderContractError::InvalidIssuedAt,
        ),
        0 < issued_at && fresh_until <= issued_at ==> spec_allow_error(issued_at, fresh_until)
            == Some(ProviderContractError::InvalidFreshnessBound),
        0 < issued_at < fresh_until && fresh_until - issued_at > MAX_PROVIDER_FRESHNESS_SECONDS
            ==> spec_allow_error(issued_at, fresh_until) == Some(
            ProviderContractError::FreshnessWindowTooLong,
        ),
{
}

/// A delegated provider request is built exactly when the correlation
/// identifier is not nil, the proof and the owner binding share a domain, the
/// proof carries a verified delegation from the binding's key, and that
/// delegation has no expiry or has not reached it; an unbounded delegation
/// gives a request without an evidence bound, a bounded one carries its expiry.
pub proof fn lemma_delegated_request_built_exactly_when(
    proof: NostrProofView,
    owner: BindingView,
    profile_id: Seq<char>,
    requested: Seq<AuthorizationCapability>,
    correlation_id: u128,
    now: u64,
)
    ensures
        spec_delegated_request_error(proof, owner, correlation_id, now) is None <==> ({
            &&& correlation_id != 0
            &&& proof.authorization_domain == owner.authorization_domain
            &&& proof.verified_delegation matches Some(d)
            &&& d@.owner_pubkey == owner.bound_pubkey
            &&& (d@.expires_at matches Some(e) ==> now < e@)
        }),
        proof.verified_delegation matches Some(d) ==> (d@.expires_at is None ==> spec_delegated_request(
            proof,
            owner,
            profile_id,
            requested,
            correlation_id,
        ).evidence_valid_until is None) && (d@.expires_at matches Some(e) ==> spec_delegated_request(
            proof,
            owner,
            profile_id,
            requested,
            correlation_id,
        ).evidence_valid_until == Some(e@)),
{
}

/// A direct provider request is built exactly when the correlation identifier
/// is not nil, the proof carries no delegation, proof and assertion share
/// domain and transport, the assertion attests the proof's actor key, and now
/// lies within the assertion's validity window; the request is then bounded by
/// the assertion's expiry.
pub proof fn lemma_direct_request_built_exactly_when(
    proof: NostrProofView,
    assertion: AssertionView,
    profile_id: Seq<char>,
    requested: Seq<AuthorizationCapability>,
    correlation_id: u128,
    now: u64,
)
    ensures
        spec_direct_request_error(proof, assertion, correlation_id, now) is None <==> ({
            &&& correlation_id != 0
            &&& proof.verified_delegation is None
            &&& proof.authorization_domain == assertion.authorization_domain
            &&& proof.authorized_transport == assertion.authorized_transport
            &&& assertion.key_attestation matches Some(k)
            &&& k@ == proof.actor_pubkey
            &&& (assertion.not_before matches Some(nb) ==> nb@ <= now)
            &&& now < assertion.expires_at@
        }),
        spec_direct_request(proof, assertion, profile_id, requested, correlation_id).evidence_valid_until
            == Some(assertion.expires_at@),
        spec_direct_request(proof, assertion, profile_id, requested, correlation_id).transport
            == proof.authorized_transport,
        spec_direct_request(proof, assertion, profile_id, requested, correlation_id).proof_method
            == proof.proof_method,
{
}

/// The provider contract's bounds: opaque identifiers of at most 256 UTF-8
/// bytes, retry hints of at most one hour, freshness windows of at most one
/// day, and provider-call deadlines of at most one minute.
pub proof fn lemma_provider_contract_bounds()
    ensures
        MAX_OPAQUE_ID_BYTES == 256,
        MAX_RETRY_AFTER_SECONDS == 3_600,
        MAX_PROVIDER_FRESHNESS_SECONDS == 24 * 3_600,
        MAX_PROVIDER_TIMEOUT_NANOS == 60 * 1_000_000_000,
{
}

} // verus!
