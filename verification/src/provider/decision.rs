//! Provider decisions and their fail-closed, crate-owned validation.

use vstd::prelude::*;

use super::capability::{capabilities_cover, AuthorizationCapability, CapabilitySet};
use super::contract::{
    ProviderContractError, MAX_PROVIDER_FRESHNESS_SECONDS, MAX_PROVIDER_TIMEOUT_NANOS,
    MAX_RETRY_AFTER_SECONDS,
};
use super::opaque::{AuthorizationProfileId, PolicyVersion};
use super::request::{AuthorizationAuthority, AuthorizationRequest, DecisionSource, RequestView};
use crate::context::binding::BindingVersion;
use crate::context::evidence::{AuthMethod, AuthTransport, FederatedPrincipal};
use crate::ids::{CommunityId, PublicKey};
use crate::redaction::{names_view, redacted_struct, redacted_struct_text, redacted_tuple, redacted_tuple_text};

verus! {

/// What a provider allow result carries.
pub struct AllowView {
    pub authorization_domain: CommunityId,
    pub principal: (Seq<char>, Seq<char>),
    pub profile_id: Seq<char>,
    pub capabilities: Seq<AuthorizationCapability>,
    pub policy_version: Seq<char>,
    pub issued_at: u64,
    pub fresh_until: u64,
}

/// Provider-produced allowed capability data before crate-owned validation.
///
/// Its issue time is non-zero and its freshness bound follows the issue time
/// by at most [`MAX_PROVIDER_FRESHNESS_SECONDS`].
pub struct ProviderAllow {
    authorization_domain: CommunityId,
    principal: FederatedPrincipal,
    profile_id: AuthorizationProfileId,
    capabilities: CapabilitySet,
    policy_version: PolicyVersion,
    issued_at: u64,
    fresh_until: u64,
}

impl View for ProviderAllow {
    type V = AllowView;

    closed spec fn view(&self) -> AllowView {
        AllowView {
            authorization_domain: self.authorization_domain,
            principal: self.principal@,
            profile_id: self.profile_id@,
            capabilities: self.capabilities@,
            policy_version: self.policy_version@,
            issued_at: self.issued_at,
            fresh_until: self.fresh_until,
        }
    }
}

/// First failing check of a provider allow result's time bounds.
pub open spec fn spec_allow_error(issued_at: u64, fresh_until: u64) -> Option<ProviderContractError> {
    if issued_at == 0 {
        Some(ProviderContractError::InvalidIssuedAt)
    } else if fresh_until <= issued_at {
        Some(ProviderContractError::InvalidFreshnessBound)
    } else if fresh_until - issued_at > MAX_PROVIDER_FRESHNESS_SECONDS {
        Some(ProviderContractError::FreshnessWindowTooLong)
    } else {
        None
    }
}

impl ProviderAllow {
    #[verifier::type_invariant]
    spec fn well_bounded(self) -> bool {
        spec_allow_error(self.issued_at, self.fresh_until) is None
    }

    /// Build a provider allow result with mandatory policy and freshness data.
    pub fn new(
        authorization_domain: CommunityId,
        principal: FederatedPrincipal,
        profile_id: AuthorizationProfileId,
        capabilities: CapabilitySet,
        policy_version: PolicyVersion,
        issued_at: u64,
        fresh_until: u64,
    ) -> (r: Result<Self, ProviderContractError>)
        ensures
            r is Ok <==> spec_allow_error(issued_at, fresh_until) is None,
            r matches Err(e) ==> spec_allow_error(issued_at, fresh_until) == Some(e),
            r matches Ok(allow) ==> allow@ == (AllowView {
                authorization_domain,
                principal: principal@,
                profile_id: profile_id@,
                capabilities: capabilities@,
                policy_version: policy_version@,
                issued_at,
                fresh_until,
            }),
    {
        if issued_at == 0 {
            return Err(ProviderContractError::InvalidIssuedAt);
        }
        if fresh_until <= issued_at {
            return Err(ProviderContractError::InvalidFreshnessBound);
        }
        if fresh_until - issued_at > MAX_PROVIDER_FRESHNESS_SECONDS {
            return Err(ProviderContractError::FreshnessWindowTooLong);
        }
        Ok(
            ProviderAllow {
                authorization_domain,
                principal,
                profile_id,
                capabilities,
                policy_version,
                issued_at,
                fresh_until,
            },
        )
    }
}

/// Stable reason for a denied provider authorization.
#[derive(Clone, Copy, PartialEq, Eq, Structural)]
pub enum AuthorizationDenialReason {
    /// The configured provider denied the request.
    ProviderDenied,
    /// The provider response named another authorization domain.
    AuthorizationDomainMismatch,
    /// The provider response named another principal.
    PrincipalMismatch,
    /// The provider response named another authorization profile.
    AuthorizationProfileMismatch,
    /// The provider response omitted a requested capability.
    MissingCapability,
    /// The provider response was already stale.
    StaleDecision,
    /// The provider response was issued in the future.
    FutureDecision,
    /// Verified identity evidence expired before the decision became effective.
    IdentityEvidenceExpired,
}

impl AuthorizationDenialReason {
    /// Text of the stable code of each reason.
    pub open spec fn code_text(self) -> Seq<char> {
        match self {
            AuthorizationDenialReason::ProviderDenied => "authorization_provider_deny_001"@,
            AuthorizationDenialReason::AuthorizationDomainMismatch => "authorization_provider_deny_002"@,
            AuthorizationDenialReason::PrincipalMismatch => "authorization_provider_deny_003"@,
            AuthorizationDenialReason::MissingCapability => "authorization_provider_deny_004"@,
            AuthorizationDenialReason::StaleDecision => "authorization_provider_deny_005"@,
            AuthorizationDenialReason::FutureDecision => "authorization_provider_deny_006"@,
            AuthorizationDenialReason::IdentityEvidenceExpired => "authorization_provider_deny_007"@,
            AuthorizationDenialReason::AuthorizationProfileMismatch => "authorization_provider_deny_008"@,
        }
    }

    /// Stable provider-neutral audit and metric code.
    pub fn code(self) -> (r: &'static str)
        ensures
            r@ == self.code_text(),
    {
        match self {
            AuthorizationDenialReason::ProviderDenied => "authorization_provider_deny_001",
            AuthorizationDenialReason::AuthorizationDomainMismatch => "authorization_provider_deny_002",
            AuthorizationDenialReason::PrincipalMismatch => "authorization_provider_deny_003",
            AuthorizationDenialReason::MissingCapability => "authorization_provider_deny_004",
            AuthorizationDenialReason::StaleDecision => "authorization_provider_deny_005",
            AuthorizationDenialReason::FutureDecision => "authorization_provider_deny_006",
            AuthorizationDenialReason::IdentityEvidenceExpired => "authorization_provider_deny_007",
            AuthorizationDenialReason::AuthorizationProfileMismatch => "authorization_provider_deny_008",
        }
    }
}

/// Provider-neutral denial returned to an authorization caller.
#[derive(Clone, Copy, PartialEq, Eq, Structural)]
pub struct AuthorizationDenial {
    reason: AuthorizationDenialReason,
}

impl View for AuthorizationDenial {
    type V = AuthorizationDenialReason;

    closed spec fn view(&self) -> AuthorizationDenialReason {
        self.reason
    }
}

impl AuthorizationDenial {
    /// Build a denial with a stable provider-neutral reason.
    pub fn new(reason: AuthorizationDenialReason) -> (r: Self)
        ensures
            r@ == reason,
    {
        AuthorizationDenial { reason }
    }

    /// Stable reason for the denial.
    pub fn reason(&self) -> (r: AuthorizationDenialReason)
        ensures
            r == self@,
    {
        self.reason
    }
}

/// Stable provider-unavailability reason.
#[derive(Clone, Copy, PartialEq, Eq, Structural)]
pub enum ProviderUnavailableReason {
    /// The provider is temporarily unavailable.
    TemporarilyUnavailable,
    /// The provider call exceeded its bounded deadline.
    Timeout,
    /// A provider dependency is unavailable.
    DependencyUnavailable,
}

impl ProviderUnavailableReason {
    /// Text of the stable code of each reason.
    pub open spec fn code_text(self) -> Seq<char> {
        match self {
            ProviderUnavailableReason::TemporarilyUnavailable => "authorization_provider_unavailable_001"@,
            ProviderUnavailableReason::Timeout => "authorization_provider_unavailable_002"@,
            ProviderUnavailableReason::DependencyUnavailable => "authorization_provider_unavailable_003"@,
        }
    }

    /// Stable provider-neutral audit and metric code.
    pub fn code(self) -> (r: &'static str)
        ensures
            r@ == self.code_text(),
    {
        match self {
            ProviderUnavailableReason::TemporarilyUnavailable => "authorization_provider_unavailable_001",
            ProviderUnavailableReason::Timeout => "authorization_provider_unavailable_002",
            ProviderUnavailableReason::DependencyUnavailable => "authorization_provider_unavailable_003",
        }
    }
}

/// Bounded provider retry hint in seconds (1 to [`MAX_RETRY_AFTER_SECONDS`]).
#[derive(Clone, Copy, PartialEq, Eq, Structural)]
pub struct RetryAfter {
    seconds: u32,
}

impl View for RetryAfter {
    type V = u32;

    closed spec fn view(&self) -> u32 {
        self.seconds
    }
}

impl RetryAfter {
    /// Build a non-zero retry hint no greater than one hour.
    pub fn new(seconds: u32) -> (r: Result<Self, ProviderContractError>)
        ensures
            (seconds == 0 || seconds > MAX_RETRY_AFTER_SECONDS) ==> r == Err::<
                Self,
                ProviderContractError,
            >(ProviderContractError::InvalidRetryAfter),
            (0 < seconds <= MAX_RETRY_AFTER_SECONDS) ==> (r matches Ok(hint) && hint@ == seconds),
    {
        if seconds == 0 || seconds > MAX_RETRY_AFTER_SECONDS {
            return Err(ProviderContractError::InvalidRetryAfter);
        }
        Ok(RetryAfter { seconds })
    }

    /// Retry hint in seconds.
    pub fn seconds(self) -> (r: u32)
        ensures
            r == self@,
    {
        self.seconds
    }
}

/// Explicit finite deadline for one provider call, in nanoseconds
/// (1 to [`MAX_PROVIDER_TIMEOUT_NANOS`]).
#[derive(Clone, Copy, PartialEq, Eq, Structural)]
pub struct ProviderTimeout {
    nanos: u64,
}

impl View for ProviderTimeout {
    type V = u64;

    closed spec fn view(&self) -> u64 {
        self.nanos
    }
}

impl ProviderTimeout {
    /// Build a provider-call deadline of `duration_nanos` nanoseconds, no
    /// greater than one minute.
    pub fn new(duration_nanos: u128) -> (r: Result<Self, ProviderContractError>)
        ensures
            (duration_nanos == 0 || duration_nanos > MAX_PROVIDER_TIMEOUT_NANOS) ==> r == Err::<
                Self,
                ProviderContractError,
            >(ProviderContractError::InvalidProviderTimeout),
            (0 < duration_nanos <= MAX_PROVIDER_TIMEOUT_NANOS) ==> (r matches Ok(t) && t@
                == duration_nanos),
    {
        if duration_nanos == 0 || duration_nanos > MAX_PROVIDER_TIMEOUT_NANOS as u128 {
            return Err(ProviderContractError::InvalidProviderTimeout);
        }
        Ok(ProviderTimeout { nanos: duration_nanos as u64 })
    }

    /// Configured provider-call deadline, in nanoseconds.
    pub fn duration(self) -> (r: u64)
        ensures
            r == self@,
    {
        self.nanos
    }
}

/// Fail-closed provider unavailability.
#[derive(Clone, Copy, PartialEq, Eq, Structural)]
pub struct ProviderUnavailable {
    reason: ProviderUnavailableReason,
    retry_after: Option<RetryAfter>,
}

impl View for ProviderUnavailable {
    type V = (ProviderUnavailableReason, Option<RetryAfter>);

    closed spec fn view(&self) -> (ProviderUnavailableReason, Option<RetryAfter>) {
        (self.reason, self.retry_after)
    }
}

impl ProviderUnavailable {
    /// Build an unavailable result with optional bounded retry metadata.
    pub fn new(reason: ProviderUnavailableReason, retry_after: Option<RetryAfter>) -> (r: Self)
        ensures
            r@ == (reason, retry_after),
    {
        ProviderUnavailable { reason, retry_after }
    }

    /// Stable reason for unavailability.
    pub fn reason(&self) -> (r: ProviderUnavailableReason)
        ensures
            r == self@.0,
    {
        self.reason
    }

    /// Optional bounded retry hint.
    pub fn retry_after(&self) -> (r: Option<RetryAfter>)
        ensures
            r == self@.1,
    {
        self.retry_after
    }
}

/// Raw decision returned by an authorization provider.
pub enum ProviderDecision {
    /// Provider policy allowed a capability set.
    Allow(ProviderAllow),
    /// Provider policy denied the request.
    Deny(AuthorizationDenial),
    /// Provider policy could not be evaluated.
    Unavailable(ProviderUnavailable),
}

/// What a provider decision carries.
pub enum DecisionView {
    Allow(AllowView),
    Deny(AuthorizationDenialReason),
    Unavailable((ProviderUnavailableReason, Option<RetryAfter>)),
}

impl View for ProviderDecision {
    type V = DecisionView;

    open spec fn view(&self) -> DecisionView {
        match self {
            ProviderDecision::Allow(allow) => DecisionView::Allow(allow@),
            ProviderDecision::Deny(denial) => DecisionView::Deny(denial@),
            ProviderDecision::Unavailable(unavailable) => DecisionView::Unavailable(unavailable@),
        }
    }
}

/// Stable reason for a validated allowed decision.
#[derive(Clone, Copy, PartialEq, Eq, Structural)]
pub enum ProviderAllowReason {
    /// Current provider policy granted the exact requested capabilities.
    CurrentPolicy,
}

impl ProviderAllowReason {
    /// Text of the stable code of each reason.
    pub open spec fn code_text(self) -> Seq<char> {
        match self {
            ProviderAllowReason::CurrentPolicy => "authorization_provider_allow_001"@,
        }
    }

    /// Stable provider-neutral audit and metric code.
    pub fn code(self) -> (r: &'static str)
        ensures
            r@ == self.code_text(),
    {
        match self {
            ProviderAllowReason::CurrentPolicy => "authorization_provider_allow_001",
        }
    }
}

/// What a validated capability snapshot records.
pub struct SnapshotView {
    pub authorization_domain: CommunityId,
    pub transport: AuthTransport,
    pub actor_pubkey: PublicKey,
    pub owner_pubkey: Option<PublicKey>,
    pub binding_id: Option<u128>,
    pub binding_version: Option<BindingVersion>,
    pub proof_method: AuthMethod,
    pub principal: (Seq<char>, Seq<char>),
    pub profile_id: Seq<char>,
    pub capabilities: Seq<AuthorizationCapability>,
    pub policy_version: Seq<char>,
    pub issued_at: u64,
    pub fresh_until: u64,
    pub effective_until: u64,
    pub decision_source: DecisionSource,
    pub correlation_id: u128,
    pub reason: ProviderAllowReason,
}

/// Validated, request-scoped capability snapshot.
///
/// It has no public constructor: only [`validate_provider_decision`] creates
/// it after checking the provider response.
pub struct CapabilitySnapshot {
    authorization_domain: CommunityId,
    transport: AuthTransport,
    actor_pubkey: PublicKey,
    owner_pubkey: Option<PublicKey>,
    binding_id: Option<u128>,
    binding_version: Option<BindingVersion>,
    proof_method: AuthMethod,
    principal: FederatedPrincipal,
    profile_id: AuthorizationProfileId,
    capabilities: CapabilitySet,
    policy_version: PolicyVersion,
    issued_at: u64,
    fresh_until: u64,
    effective_until: u64,
    decision_source: DecisionSource,
    correlation_id: u128,
    reason: ProviderAllowReason,
}

impl View for CapabilitySnapshot {
    type V = SnapshotView;

    closed spec fn view(&self) -> SnapshotView {
        SnapshotView {
            authorization_domain: self.authorization_domain,
            transport: self.transport,
            actor_pubkey: self.actor_pubkey,
            owner_pubkey: self.owner_pubkey,
            binding_id: self.binding_id,
            binding_version: self.binding_version,
            proof_method: self.proof_method,
            principal: self.principal@,
            profile_id: self.profile_id@,
            capabilities: self.capabilities@,
            policy_version: self.policy_version@,
            issued_at: self.issued_at,
            fresh_until: self.fresh_until,
            effective_until: self.effective_until,
            decision_source: self.decision_source,
            correlation_id: self.correlation_id,
            reason: self.reason,
        }
    }
}

impl CapabilitySnapshot {
    /// Authorization domain for this decision.
    pub fn authorization_domain(&self) -> (r: CommunityId)
        ensures
            r == self@.authorization_domain,
    {
        self.authorization_domain
    }

    /// Exact protected transport for which this snapshot was resolved.
    pub fn transport(&self) -> (r: AuthTransport)
        ensures
            r == self@.transport,
    {
        self.transport
    }

    /// Exact authenticated Nostr actor for this decision.
    pub fn actor_pubkey(&self) -> (r: PublicKey)
        ensures
            r == self@.actor_pubkey,
    {
        self.actor_pubkey
    }

    /// Exact verified owner for delegated authority, when present.
    pub fn owner_pubkey(&self) -> (r: Option<PublicKey>)
        ensures
            r == self@.owner_pubkey,
    {
        self.owner_pubkey
    }

    /// Stable active binding identifier for delegated authority.
    pub fn binding_id(&self) -> (r: Option<u128>)
        ensures
            r == self@.binding_id,
    {
        self.binding_id
    }

    /// Exact active binding version for delegated authority. This is not a
    /// lease: later consumers must compare it with current binding state.
    pub fn binding_version(&self) -> (r: Option<BindingVersion>)
        ensures
            r == self@.binding_version,
    {
        self.binding_version
    }

    /// Cryptographic proof method for the authenticated actor.
    pub fn proof_method(&self) -> (r: AuthMethod)
        ensures
            r == self@.proof_method,
    {
        self.proof_method
    }

    /// Exact admitted issuer-qualified principal.
    pub fn principal(&self) -> (r: &FederatedPrincipal)
        ensures
            r@ == self@.principal,
    {
        &self.principal
    }

    /// Server-resolved authorization profile for this decision.
    pub fn profile_id(&self) -> (r: &AuthorizationProfileId)
        ensures
            r@ == self@.profile_id,
    {
        &self.profile_id
    }

    /// Exact request-scoped portable capabilities.
    pub fn capabilities(&self) -> (r: &CapabilitySet)
        ensures
            r@ == self@.capabilities,
    {
        &self.capabilities
    }

    /// Opaque provider policy version.
    pub fn policy_version(&self) -> (r: &PolicyVersion)
        ensures
            r@ == self@.policy_version,
    {
        &self.policy_version
    }

    /// Provider decision issue time in Unix seconds.
    pub fn issued_at(&self) -> (r: u64)
        ensures
            r == self@.issued_at,
    {
        self.issued_at
    }

    /// Provider freshness bound in Unix seconds.
    pub fn fresh_until(&self) -> (r: u64)
        ensures
            r == self@.fresh_until,
    {
        self.fresh_until
    }

    /// Earliest effective bound across provider and identity evidence.
    pub fn effective_until(&self) -> (r: u64)
        ensures
            r == self@.effective_until,
    {
        self.effective_until
    }

    /// Verified request source for this snapshot.
    pub fn decision_source(&self) -> (r: DecisionSource)
        ensures
            r == self@.decision_source,
    {
        self.decision_source
    }

    /// Correlation identifier binding the snapshot to its request.
    pub fn correlation_id(&self) -> (r: u128)
        ensures
            r == self@.correlation_id,
    {
        self.correlation_id
    }

    /// Stable reason for this allowed decision.
    pub fn reason(&self) -> (r: ProviderAllowReason)
        ensures
            r == self@.reason,
    {
        self.reason
    }
}

/// Fail-closed result of validating a provider decision.
pub enum AuthorizationOutcome {
    /// Provider policy allowed the exact requested capabilities.
    Allow(Box<CapabilitySnapshot>),
    /// Provider policy or response validation denied authorization.
    Deny(AuthorizationDenial),
    /// Provider policy could not be evaluated; callers must not fall back.
    Unavailable(ProviderUnavailable),
}

/// What a validated outcome carries.
pub enum OutcomeView {
    Allow(SnapshotView),
    Deny(AuthorizationDenialReason),
    Unavailable((ProviderUnavailableReason, Option<RetryAfter>)),
}

impl View for AuthorizationOutcome {
    type V = OutcomeView;

    open spec fn view(&self) -> OutcomeView {
        match self {
            AuthorizationOutcome::Allow(snapshot) => OutcomeView::Allow(snapshot@),
            AuthorizationOutcome::Deny(denial) => OutcomeView::Deny(denial@),
            AuthorizationOutcome::Unavailable(unavailable) => OutcomeView::Unavailable(unavailable@),
        }
    }
}

/// Earliest bound of the provider freshness and the identity evidence.
pub open spec fn spec_effective_until(evidence_valid_until: Option<u64>, fresh_until: u64) -> u64 {
    match evidence_valid_until {
        Some(bound) => if bound < fresh_until {
            bound
        } else {
            fresh_until
        },
        None => fresh_until,
    }
}

/// First reason to deny an allow result for `request` at `now`, in order.
pub open spec fn spec_allow_denial(request: RequestView, allow: AllowView, now: u64) -> Option<
    AuthorizationDenialReason,
> {
    if allow.authorization_domain != request.authorization_domain {
        Some(AuthorizationDenialReason::AuthorizationDomainMismatch)
    } else if allow.principal != request.principal {
        Some(AuthorizationDenialReason::PrincipalMismatch)
    } else if allow.profile_id != request.profile_id {
        Some(AuthorizationDenialReason::AuthorizationProfileMismatch)
    } else if allow.issued_at > now {
        Some(AuthorizationDenialReason::FutureDecision)
    } else if allow.fresh_until <= now {
        Some(AuthorizationDenialReason::StaleDecision)
    } else if !capabilities_cover(allow.capabilities, request.requested_capabilities) {
        Some(AuthorizationDenialReason::MissingCapability)
    } else if spec_effective_until(request.evidence_valid_until, allow.fresh_until) <= now {
        Some(AuthorizationDenialReason::IdentityEvidenceExpired)
    } else {
        None
    }
}

/// The snapshot granted for `request` by an allow result that passed validation.
pub open spec fn spec_snapshot(request: RequestView, allow: AllowView) -> SnapshotView {
    SnapshotView {
        authorization_domain: allow.authorization_domain,
        transport: request.transport,
        actor_pubkey: request.actor_pubkey,
        owner_pubkey: match request.authority {
            AuthorizationAuthority::Direct => None,
            AuthorizationAuthority::Delegated { owner_pubkey, .. } => Some(owner_pubkey),
        },
        binding_id: match request.authority {
            AuthorizationAuthority::Direct => None,
            AuthorizationAuthority::Delegated { binding_id, .. } => Some(binding_id),
        },
        binding_version: match request.authority {
            AuthorizationAuthority::Direct => None,
            AuthorizationAuthority::Delegated { binding_version, .. } => Some(binding_version),
        },
        proof_method: request.proof_method,
        principal: allow.principal,
        profile_id: allow.profile_id,
        capabilities: request.requested_capabilities,
        policy_version: allow.policy_version,
        issued_at: allow.issued_at,
        fresh_until: allow.fresh_until,
        effective_until: spec_effective_until(request.evidence_valid_until, allow.fresh_until),
        decision_source: request.decision_source,
        correlation_id: request.correlation_id,
        reason: ProviderAllowReason::CurrentPolicy,
    }
}

/// The outcome of validating a provider decision (`None`: the provider call
/// did not finish before its deadline).
pub open spec fn spec_outcome(request: RequestView, decision: Option<DecisionView>, now: u64) -> OutcomeView {
    match decision {
        None => OutcomeView::Unavailable((ProviderUnavailableReason::Timeout, None)),
        Some(DecisionView::Deny(reason)) => OutcomeView::Deny(reason),
        Some(DecisionView::Unavailable(unavailable)) => OutcomeView::Unavailable(unavailable),
        Some(DecisionView::Allow(allow)) => match spec_allow_denial(request, allow, now) {
            Some(reason) => OutcomeView::Deny(reason),
            None => OutcomeView::Allow(spec_snapshot(request, allow)),
        },
    }
}

/// The view of an optional provider decision.
pub open spec fn decision_view(decision: Option<ProviderDecision>) -> Option<DecisionView> {
    match decision {
        Some(d) => Some(d@),
        None => None,
    }
}

fn deny(reason: AuthorizationDenialReason) -> (r: AuthorizationOutcome)
    ensures
        r@ == OutcomeView::Deny(reason),
{
    AuthorizationOutcome::Deny(AuthorizationDenial::new(reason))
}

/// Validate one provider authorization decision for `request`.
///
/// `decision` is `None` when the provider call exceeded its deadline, which is
/// reported as timeout unavailability. Unavailability is preserved as a
/// fail-closed outcome; this never falls back to Nostr-only authorization or
/// applies an implicit grace period. `now_unix_seconds` must come from the
/// server clock.
pub fn validate_provider_decision(
    request: &AuthorizationRequest,
    decision: Option<ProviderDecision>,
    now_unix_seconds: u64,
) -> (r: AuthorizationOutcome)
    ensures
        r@ == spec_outcome(request@, decision_view(decision), now_unix_seconds),
{
    let allow = match decision {
        None => {
            return AuthorizationOutcome::Unavailable(
                ProviderUnavailable::new(ProviderUnavailableReason::Timeout, None),
            );
        },
        Some(ProviderDecision::Allow(allow)) => allow,
        Some(ProviderDecision::Deny(denial)) => {
            return AuthorizationOutcome::Deny(denial);
        },
        Some(ProviderDecision::Unavailable(unavailable)) => {
            return AuthorizationOutcome::Unavailable(unavailable);
        },
    };
    proof {
        use_type_invariant(&allow);
    }
    if allow.authorization_domain != request.authorization_domain() {
        return deny(AuthorizationDenialReason::AuthorizationDomainMismatch);
    }
    if allow.principal != *request.principal() {
        return deny(AuthorizationDenialReason::PrincipalMismatch);
    }
    if allow.profile_id != *request.profile_id() {
        return deny(AuthorizationDenialReason::AuthorizationProfileMismatch);
    }
    if allow.issued_at > now_unix_seconds {
        return deny(AuthorizationDenialReason::FutureDecision);
    }
    if allow.fresh_until <= now_unix_seconds {
        return deny(AuthorizationDenialReason::StaleDecision);
    }
    if !allow.capabilities.contains_all(request.requested_capabilities()) {
        return deny(AuthorizationDenialReason::MissingCapability);
    }
    let effective_until = match request.evidence_valid_until() {
        Some(bound) => if bound < allow.fresh_until {
            bound
        } else {
            allow.fresh_until
        },
        None => allow.fresh_until,
    };
    if effective_until <= now_unix_seconds {
        return deny(AuthorizationDenialReason::IdentityEvidenceExpired);
    }
    let authority = *request.authority();
    let (owner_pubkey, binding_id, binding_version) = match authority {
        AuthorizationAuthority::Direct => (None, None, None),
        AuthorizationAuthority::Delegated { owner_pubkey, binding_id, binding_version } => (
            Some(owner_pubkey),
            Some(binding_id),
            Some(binding_version),
        ),
    };
    let ProviderAllow {
        authorization_domain,
        principal,
        profile_id,
        capabilities: _,
        policy_version,
        issued_at,
        fresh_until,
    } = allow;
    AuthorizationOutcome::Allow(
        Box::new(
            CapabilitySnapshot {
                authorization_domain,
                transport: request.transport(),
                actor_pubkey: request.actor_pubkey(),
                owner_pubkey,
                binding_id,
                binding_version,
                proof_method: request.proof_method(),
                principal,
                profile_id,
                capabilities: request.requested_capabilities().clone(),
                policy_version,
                issued_at,
                fresh_until,
                effective_until,
                decision_source: request.decision_source(),
                correlation_id: request.correlation_id(),
                reason: ProviderAllowReason::CurrentPolicy,
            },
        ),
    )
}

impl ProviderAllow {
    /// Redaction-safe rendering: field names only, every value hidden.
    pub fn redacted_debug(&self) -> (r: String)
        ensures
            r@ == redacted_struct_text(
                "ProviderAllow"@,
                seq![
                    "authorization_domain"@,
                    "principal"@,
                    "profile_id"@,
                    "capabilities"@,
                    "policy_version"@,
                    "issued_at"@,
                    "fresh_until"@,
                ],
            ),
    {
        let fields: [&str; 7] = [
            "authorization_domain",
            "principal",
            "profile_id",
            "capabilities",
            "policy_version",
            "issued_at",
            "fresh_until",
        ];
        let r = redacted_struct("ProviderAllow", fields.as_slice());
        assert(names_view(fields@) =~= seq![
            "authorization_domain"@,
            "principal"@,
            "profile_id"@,
            "capabilities"@,
            "policy_version"@,
            "issued_at"@,
            "fresh_until"@,
        ]);
        r
    }
}

impl ProviderDecision {
    /// Redaction-safe rendering: the variant and its contents are hidden.
    pub fn redacted_debug(&self) -> (r: String)
        ensures
            r@ == redacted_tuple_text("ProviderDecision"@),
    {
        redacted_tuple("ProviderDecision")
    }
}

impl AuthorizationDenialReason {
    /// Redaction-safe rendering: the contents are hidden.
    pub fn redacted_debug(&self) -> (r: String)
        ensures
            r@ == redacted_tuple_text("AuthorizationDenialReason"@),
    {
        redacted_tuple("AuthorizationDenialReason")
    }
}

impl AuthorizationDenial {
    /// Redaction-safe rendering: field names only, every value hidden.
    pub fn redacted_debug(&self) -> (r: String)
        ensures
            r@ == redacted_struct_text(
                "AuthorizationDenial"@,
                seq![
                    "reason"@,
                ],
            ),
    {
        let fields: [&str; 1] = [
            "reason",
        ];
        let r = redacted_struct("AuthorizationDenial", fields.as_slice());
        assert(names_view(fields@) =~= seq![
            "reason"@,
        ]);
        r
    }
}

impl ProviderUnavailableReason {
    /// Redaction-safe rendering: the contents are hidden.
    pub fn redacted_debug(&self) -> (r: String)
        ensures
            r@ == redacted_tuple_text("ProviderUnavailableReason"@),
    {
        redacted_tuple("ProviderUnavailableReason")
    }
}

impl RetryAfter {
    /// Redaction-safe rendering: the contents are hidden.
    pub fn redacted_debug(&self) -> (r: String)
        ensures
            r@ == redacted_tuple_text("RetryAfter"@),
    {
        redacted_tuple("RetryAfter")
    }
}

impl ProviderTimeout {
    /// Redaction-safe rendering: the contents are hidden.
    pub fn redacted_debug(&self) -> (r: String)
        ensures
            r@ == redacted_tuple_text("ProviderTimeout"@),
    {
        redacted_tuple("ProviderTimeout")
    }
}

impl ProviderUnavailable {
    /// Redaction-safe rendering: field names only, every value hidden.
    pub fn redacted_debug(&self) -> (r: String)
        ensures
            r@ == redacted_struct_text(
                "ProviderUnavailable"@,
                seq![
                    "reason"@,
                    "retry_after"@,
                ],
            ),
    {
        let fields: [&str; 2] = [
            "reason",
            "retry_after",
        ];
        let r = redacted_struct("ProviderUnavailable", fields.as_slice());
        assert(names_view(fields@) =~= seq![
            "reason"@,
            "retry_after"@,
        ]);
        r
    }
}

impl ProviderAllowReason {
    /// Redaction-safe rendering: the contents are hidden.
    pub fn redacted_debug(&self) -> (r: String)
        ensures
            r@ == redacted_tuple_text("ProviderAllowReason"@),
    {
        redacted_tuple("ProviderAllowReason")
    }
}

impl CapabilitySnapshot {
    /// Redaction-safe rendering: field names only, every value hidden.
    pub fn redacted_debug(&self) -> (r: String)
        ensures
            r@ == redacted_struct_text(
                "CapabilitySnapshot"@,
                seq![
                    "authorization_domain"@,
                    "actor_pubkey"@,
                    "owner_pubkey"@,
                    "proof_method"@,
                    "principal"@,
                    "profile_id"@,
                    "capabilities"@,
                    "policy_version"@,
                    "issued_at"@,
                    "fresh_until"@,
                    "effective_until"@,
                    "decision_source"@,
                    "correlation_id"@,
                    "reason"@,
                ],
            ),
    {
        let fields: [&str; 14] = [
            "authorization_domain",
            "actor_pubkey",
            "owner_pubkey",
            "proof_method",
            "principal",
            "profile_id",
            "capabilities",
            "policy_version",
            "issued_at",
            "fresh_until",
            "effective_until",
            "decision_source",
            "correlation_id",
            "reason",
        ];
        let r = redacted_struct("CapabilitySnapshot", fields.as_slice());
        assert(names_view(fields@) =~= seq![
            "authorization_domain"@,
            "actor_pubkey"@,
            "owner_pubkey"@,
            "proof_method"@,
            "principal"@,
            "profile_id"@,
            "capabilities"@,
            "policy_version"@,
            "issued_at"@,
            "fresh_until"@,
            "effective_until"@,
            "decision_source"@,
            "correlation_id"@,
            "reason"@,
        ]);
        r
    }
}

impl AuthorizationOutcome {
    /// Redaction-safe rendering: the contents are hidden.
    pub fn redacted_debug(&self) -> (r: String)
        ensures
            r@ == redacted_tuple_text("AuthorizationOutcome"@),
    {
        redacted_tuple("AuthorizationOutcome")
    }
}

} // verus!
