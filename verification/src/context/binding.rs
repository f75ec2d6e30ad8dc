//! Resolved federated-identity policy and references to active bindings.

use vstd::prelude::*;
use crate::redaction::{names_view, redacted_struct, redacted_struct_text, redacted_tuple, redacted_tuple_text};

use super::evidence::FederatedPrincipal;
use super::reason::{AuthContextError, AuthorizationReason};
use crate::ids::{CommunityId, PublicKey};

verus! {

/// Policy used when no active binding exists for either principal or key.
#[derive(Clone, Copy, PartialEq, Eq, Structural)]
pub enum EnrollmentMode {
    /// First use requires an assertion that attests the proven Nostr key.
    AttestedKey,
    /// Bindings must be created by an out-of-band administrative process.
    Provisioned,
    /// First use may bind the proven key without an asserted key claim.
    Tofu,
}

/// Federated-identity requirement resolved for one authorization domain.
#[derive(Clone, Copy, PartialEq, Eq, Structural)]
pub enum FederatedIdentityRequirement {
    /// Federated identity is not required for this domain.
    NotRequired,
    /// Federated identity is required under the supplied enrollment policy.
    Required(EnrollmentMode),
}

/// Server-resolved federated-identity policy for an authorization decision.
///
/// A policy adapter must resolve the authorization domain's configuration
/// before producing it.
#[derive(PartialEq, Eq, Structural)]
pub struct ResolvedFederatedPolicy {
    authorization_domain: CommunityId,
    requirement: FederatedIdentityRequirement,
}

/// What a resolved policy records.
pub struct PolicyView {
    pub authorization_domain: CommunityId,
    pub requirement: FederatedIdentityRequirement,
}

impl View for ResolvedFederatedPolicy {
    type V = PolicyView;

    closed spec fn view(&self) -> PolicyView {
        PolicyView { authorization_domain: self.authorization_domain, requirement: self.requirement }
    }
}

impl ResolvedFederatedPolicy {
    /// Policy of a domain that does not require federated identity.
    pub fn not_required(authorization_domain: CommunityId) -> (r: Self)
        ensures
            r@ == (PolicyView {
                authorization_domain,
                requirement: FederatedIdentityRequirement::NotRequired,
            }),
    {
        ResolvedFederatedPolicy {
            authorization_domain,
            requirement: FederatedIdentityRequirement::NotRequired,
        }
    }

    /// Policy of a domain that requires federated identity under `enrollment_mode`.
    pub fn required(authorization_domain: CommunityId, enrollment_mode: EnrollmentMode) -> (r: Self)
        ensures
            r@ == (PolicyView {
                authorization_domain,
                requirement: FederatedIdentityRequirement::Required(enrollment_mode),
            }),
    {
        ResolvedFederatedPolicy {
            authorization_domain,
            requirement: FederatedIdentityRequirement::Required(enrollment_mode),
        }
    }

    /// Authorization domain whose configuration was resolved.
    pub fn authorization_domain(&self) -> (r: CommunityId)
        ensures
            r == self@.authorization_domain,
    {
        self.authorization_domain
    }

    /// Resolved federated-identity requirement.
    pub fn requirement(&self) -> (r: FederatedIdentityRequirement)
        ensures
            r == self@.requirement,
    {
        self.requirement
    }
}

/// Provenance recorded when a binding is created.
#[derive(Clone, Copy, PartialEq, Eq, Structural)]
pub enum BindingSource {
    /// The identity provider attested the proven Nostr key.
    AttestedKey,
    /// An operator provisioned the binding out of band.
    Provisioned,
    /// The binding was established by trust on first use.
    Tofu,
}

/// Monotonically increasing, non-zero version of an identity-to-key binding.
#[derive(Clone, Copy, PartialEq, Eq, Structural, Hash, PartialOrd, Ord)]
pub struct BindingVersion {
    value: u64,
}

impl View for BindingVersion {
    type V = u64;

    closed spec fn view(&self) -> u64 {
        self.value
    }
}

impl BindingVersion {
    /// Initial version assigned to a newly created binding.
    pub fn initial() -> (r: Self)
        ensures
            r@ == 1,
    {
        BindingVersion { value: 1 }
    }

    /// Build a non-zero binding version.
    pub fn new(value: u64) -> (r: Result<Self, AuthContextError>)
        ensures
            value == 0 ==> r == Err::<Self, AuthContextError>(AuthContextError::InvalidBindingVersion),
            value != 0 ==> (r matches Ok(v) && v@ == value),
    {
        if value == 0 {
            return Err(AuthContextError::InvalidBindingVersion);
        }
        Ok(BindingVersion { value })
    }

    /// Numeric binding version.
    pub fn get(self) -> (r: u64)
        ensures
            r == self@,
    {
        self.value
    }
}

/// What a binding reference records.
pub struct BindingView {
    pub authorization_domain: CommunityId,
    pub binding_id: u128,
    pub principal: (Seq<char>, Seq<char>),
    pub bound_pubkey: PublicKey,
    pub binding_version: BindingVersion,
    pub source: BindingSource,
    pub resolution_reason: AuthorizationReason,
}

/// Stable reference to one active identity-to-key binding.
///
/// This reference is identity evidence, not an authorization lease. The
/// binding identifier (a UUID value) is never nil, and the resolution reason
/// is the authoritative lifecycle result: an already existing binding, or one
/// enrolled during this decision.
pub struct VersionedBindingRef {
    authorization_domain: CommunityId,
    binding_id: u128,
    principal: FederatedPrincipal,
    bound_pubkey: PublicKey,
    binding_version: BindingVersion,
    source: BindingSource,
    resolution_reason: AuthorizationReason,
}

impl View for VersionedBindingRef {
    type V = BindingView;

    closed spec fn view(&self) -> BindingView {
        BindingView {
            authorization_domain: self.authorization_domain,
            binding_id: self.binding_id,
            principal: self.principal@,
            bound_pubkey: self.bound_pubkey,
            binding_version: self.binding_version,
            source: self.source,
            resolution_reason: self.resolution_reason,
        }
    }
}

impl VersionedBindingRef {
    /// Build a reference to a binding authoritatively resolved as already active.
    pub fn new_existing_active_for_test(
        authorization_domain: CommunityId,
        binding_id: u128,
        principal: FederatedPrincipal,
        bound_pubkey: PublicKey,
        binding_version: BindingVersion,
        source: BindingSource,
    ) -> (r: Result<Self, AuthContextError>)
        ensures
            binding_id == 0 ==> r == Err::<Self, AuthContextError>(AuthContextError::InvalidBindingId),
            binding_id != 0 ==> (r matches Ok(b) && b@ == (BindingView {
                authorization_domain,
                binding_id,
                principal: principal@,
                bound_pubkey,
                binding_version,
                source,
                resolution_reason: AuthorizationReason::ExistingBinding,
            })),
    {
        if binding_id == 0 {
            return Err(AuthContextError::InvalidBindingId);
        }
        Ok(
            VersionedBindingRef {
                authorization_domain,
                binding_id,
                principal,
                bound_pubkey,
                binding_version,
                source,
                resolution_reason: AuthorizationReason::ExistingBinding,
            },
        )
    }

    /// Build a reference to a binding atomically enrolled in this decision;
    /// the reason must be one of the two enrollment reasons.
    pub fn new_enrolled_active_for_test(
        authorization_domain: CommunityId,
        binding_id: u128,
        principal: FederatedPrincipal,
        bound_pubkey: PublicKey,
        binding_version: BindingVersion,
        source: BindingSource,
        reason: AuthorizationReason,
    ) -> (r: Result<Self, AuthContextError>)
        ensures
            binding_id == 0 ==> r == Err::<Self, AuthContextError>(AuthContextError::InvalidBindingId),
            binding_id != 0 && !(reason == AuthorizationReason::EnrolledAttestedKey || reason
                == AuthorizationReason::EnrolledTofu) ==> r == Err::<Self, AuthContextError>(
                AuthContextError::InvalidAuthorizationReason,
            ),
            binding_id != 0 && (reason == AuthorizationReason::EnrolledAttestedKey || reason
                == AuthorizationReason::EnrolledTofu) ==> (r matches Ok(b) && b@ == (BindingView {
                authorization_domain,
                binding_id,
                principal: principal@,
                bound_pubkey,
                binding_version,
                source,
                resolution_reason: reason,
            })),
    {
        if binding_id == 0 {
            return Err(AuthContextError::InvalidBindingId);
        }
        if !matches!(
            reason,
            AuthorizationReason::EnrolledAttestedKey | AuthorizationReason::EnrolledTofu
        ) {
            return Err(AuthContextError::InvalidAuthorizationReason);
        }
        Ok(
            VersionedBindingRef {
                authorization_domain,
                binding_id,
                principal,
                bound_pubkey,
                binding_version,
                source,
                resolution_reason: reason,
            },
        )
    }

    /// Server-resolved authorization domain that owns the binding.
    pub fn authorization_domain(&self) -> (r: CommunityId)
        ensures
            r == self@.authorization_domain,
    {
        self.authorization_domain
    }

    /// Stable binding identifier (UUID value).
    pub fn binding_id(&self) -> (r: u128)
        ensures
            r == self@.binding_id,
    {
        self.binding_id
    }

    /// Issuer-qualified principal represented by the binding.
    pub fn principal(&self) -> (r: &FederatedPrincipal)
        ensures
            r@ == self@.principal,
    {
        &self.principal
    }

    /// Nostr key owned by the binding.
    pub fn bound_pubkey(&self) -> (r: PublicKey)
        ensures
            r == self@.bound_pubkey,
    {
        self.bound_pubkey
    }

    /// Current binding version.
    pub fn binding_version(&self) -> (r: BindingVersion)
        ensures
            r == self@.binding_version,
    {
        self.binding_version
    }

    /// Provenance of the active binding.
    pub fn source(&self) -> (r: BindingSource)
        ensures
            r == self@.source,
    {
        self.source
    }

    /// Stable reason proven by the authoritative binding lifecycle result.
    pub fn authorization_reason(&self) -> (r: AuthorizationReason)
        ensures
            r == self@.resolution_reason,
    {
        self.resolution_reason
    }
}

impl EnrollmentMode {
    /// Redaction-safe rendering: the contents are hidden.
    pub fn redacted_debug(&self) -> (r: String)
        ensures
            r@ == redacted_tuple_text("EnrollmentMode"@),
    {
        redacted_tuple("EnrollmentMode")
    }
}

impl FederatedIdentityRequirement {
    /// Redaction-safe rendering: the contents are hidden.
    pub fn redacted_debug(&self) -> (r: String)
        ensures
            r@ == redacted_tuple_text("FederatedIdentityRequirement"@),
    {
        redacted_tuple("FederatedIdentityRequirement")
    }
}

impl ResolvedFederatedPolicy {
    /// Redaction-safe rendering: field names only, every value hidden.
    pub fn redacted_debug(&self) -> (r: String)
        ensures
            r@ == redacted_struct_text(
                "ResolvedFederatedPolicy"@,
                seq![
                    "authorization_domain"@,
                    "requirement"@,
                ],
            ),
    {
        let fields: [&str; 2] = [
            "authorization_domain",
            "requirement",
        ];
        let r = redacted_struct("ResolvedFederatedPolicy", fields.as_slice());
        assert(names_view(fields@) =~= seq![
            "authorization_domain"@,
            "requirement"@,
        ]);
        r
    }
}

impl BindingSource {
    /// Redaction-safe rendering: the contents are hidden.
    pub fn redacted_debug(&self) -> (r: String)
        ensures
            r@ == redacted_tuple_text("BindingSource"@),
    {
        redacted_tuple("BindingSource")
    }
}

impl BindingVersion {
    /// Redaction-safe rendering: the contents are hidden.
    pub fn redacted_debug(&self) -> (r: String)
        ensures
            r@ == redacted_tuple_text("BindingVersion"@),
    {
        redacted_tuple("BindingVersion")
    }
}

} // verus!
