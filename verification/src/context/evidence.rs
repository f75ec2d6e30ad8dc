//! Server-verified identity evidence consumed by authorization decisions.
//!
//! Every value here records the outcome of a verification performed by an
//! authentication adapter (Nostr proof checks, federated assertion checks,
//! community admission). The values are move-only evidence with private
//! fields; their views expose what they attest.

use vstd::prelude::*;

use super::reason::AuthContextError;
use crate::ids::{CommunityId, PublicKey};
use crate::text::str_eq;

verus! {

/// Protected transport being authorized.
#[derive(Clone, Copy, PartialEq, Eq, Structural, Debug, Hash)]
pub enum AuthTransport {
    /// Relay WebSocket session (NIP-42).
    RelayWebSocket,
    /// HTTP bridge request (NIP-98).
    HttpBridge,
    /// Git over HTTP (NIP-98).
    Git,
    /// Media upload (NIP-98 or Blossom).
    MediaUpload,
    /// Authenticated media download (NIP-98).
    MediaDownload,
    /// Audio session join (NIP-42).
    Audio,
}

/// Cryptographic proof method used for the Nostr actor.
#[derive(Clone, Copy, PartialEq, Eq, Structural, Debug, Hash)]
pub enum AuthMethod {
    /// NIP-42 relay authentication.
    Nip42,
    /// NIP-98 HTTP authentication.
    Nip98,
    /// Blossom upload authorization.
    Blossom,
}

/// Which proof methods each transport accepts.
pub open spec fn spec_transport_accepts_proof(transport: AuthTransport, proof_method: AuthMethod) -> bool {
    match transport {
        AuthTransport::RelayWebSocket | AuthTransport::Audio => proof_method == AuthMethod::Nip42,
        AuthTransport::HttpBridge | AuthTransport::Git => proof_method == AuthMethod::Nip98,
        AuthTransport::MediaUpload => proof_method == AuthMethod::Nip98 || proof_method
            == AuthMethod::Blossom,
        AuthTransport::MediaDownload => proof_method == AuthMethod::Nip98,
    }
}

/// Whether `proof_method` is a valid proof for `transport`.
pub fn transport_accepts_proof(transport: AuthTransport, proof_method: AuthMethod) -> (r: bool)
    ensures
        r == spec_transport_accepts_proof(transport, proof_method),
{
    match transport {
        AuthTransport::RelayWebSocket | AuthTransport::Audio => {
            matches!(proof_method, AuthMethod::Nip42)
        },
        AuthTransport::HttpBridge | AuthTransport::Git => matches!(proof_method, AuthMethod::Nip98),
        AuthTransport::MediaUpload => {
            matches!(proof_method, AuthMethod::Nip98 | AuthMethod::Blossom)
        },
        AuthTransport::MediaDownload => matches!(proof_method, AuthMethod::Nip98),
    }
}

/// Expiry of a verified federated assertion, in Unix seconds (non-zero).
#[derive(Clone, Copy, PartialEq, Eq, Structural)]
pub struct AssertionExpiry {
    unix_seconds: u64,
}

impl View for AssertionExpiry {
    type V = u64;

    closed spec fn view(&self) -> u64 {
        self.unix_seconds
    }
}

impl AssertionExpiry {
    /// Expiry at `unix_seconds`; zero is not a valid timestamp.
    pub fn new(unix_seconds: u64) -> (r: Result<Self, AuthContextError>)
        ensures
            unix_seconds == 0 ==> r == Err::<Self, AuthContextError>(AuthContextError::InvalidAssertionExpiry),
            unix_seconds != 0 ==> (r matches Ok(e) && e@ == unix_seconds),
    {
        if unix_seconds == 0 {
            return Err(AuthContextError::InvalidAssertionExpiry);
        }
        Ok(AssertionExpiry { unix_seconds })
    }

    /// Expiry in Unix seconds.
    pub fn unix_seconds(self) -> (r: u64)
        ensures
            r == self@,
    {
        self.unix_seconds
    }

    /// The assertion is expired from its expiry second onwards.
    pub fn is_expired_at(self, now_unix_seconds: u64) -> (r: bool)
        ensures
            r == (now_unix_seconds >= self@),
    {
        now_unix_seconds >= self.unix_seconds
    }
}

/// Validated not-before bound of a federated assertion, in Unix seconds.
#[derive(Clone, Copy, PartialEq, Eq, Structural)]
pub struct AssertionNotBefore {
    unix_seconds: u64,
}

impl View for AssertionNotBefore {
    type V = u64;

    closed spec fn view(&self) -> u64 {
        self.unix_seconds
    }
}

impl AssertionNotBefore {
    /// Not-before bound at `unix_seconds`.
    pub fn new(unix_seconds: u64) -> (r: Self)
        ensures
            r@ == unix_seconds,
    {
        AssertionNotBefore { unix_seconds }
    }

    /// Bound in Unix seconds.
    pub fn unix_seconds(self) -> (r: u64)
        ensures
            r == self@,
    {
        self.unix_seconds
    }

    /// The assertion is not yet valid strictly before its bound.
    pub fn is_not_yet_valid_at(self, now_unix_seconds: u64) -> (r: bool)
        ensures
            r == (now_unix_seconds < self@),
    {
        now_unix_seconds < self.unix_seconds
    }
}

/// Expiry of a verified Nostr delegation, in Unix seconds (non-zero).
#[derive(Clone, Copy, PartialEq, Eq, Structural)]
pub struct DelegationExpiry {
    unix_seconds: u64,
}

impl View for DelegationExpiry {
    type V = u64;

    closed spec fn view(&self) -> u64 {
        self.unix_seconds
    }
}

impl DelegationExpiry {
    /// Expiry at `unix_seconds`; zero is not a valid timestamp.
    pub fn new(unix_seconds: u64) -> (r: Result<Self, AuthContextError>)
        ensures
            unix_seconds == 0 ==> r == Err::<Self, AuthContextError>(AuthContextError::InvalidDelegationExpiry),
            unix_seconds != 0 ==> (r matches Ok(e) && e@ == unix_seconds),
    {
        if unix_seconds == 0 {
            return Err(AuthContextError::InvalidDelegationExpiry);
        }
        Ok(DelegationExpiry { unix_seconds })
    }

    /// Expiry in Unix seconds.
    pub fn unix_seconds(self) -> (r: u64)
        ensures
            r == self@,
    {
        self.unix_seconds
    }

    /// The delegation is expired from its expiry second onwards.
    pub fn is_expired_at(self, now_unix_seconds: u64) -> (r: bool)
        ensures
            r == (now_unix_seconds >= self@),
    {
        now_unix_seconds >= self.unix_seconds
    }
}

/// Freshness bound of a resolved owner admission, in Unix seconds (non-zero).
#[derive(Clone, Copy, PartialEq, Eq, Structural)]
pub struct AdmissionExpiry {
    unix_seconds: u64,
}

impl View for AdmissionExpiry {
    type V = u64;

    closed spec fn view(&self) -> u64 {
        self.unix_seconds
    }
}

impl AdmissionExpiry {
    /// Bound at `unix_seconds`; zero is not a valid timestamp.
    pub fn new(unix_seconds: u64) -> (r: Result<Self, AuthContextError>)
        ensures
            unix_seconds == 0 ==> r == Err::<Self, AuthContextError>(AuthContextError::InvalidAdmissionExpiry),
            unix_seconds != 0 ==> (r matches Ok(e) && e@ == unix_seconds),
    {
        if unix_seconds == 0 {
            return Err(AuthContextError::InvalidAdmissionExpiry);
        }
        Ok(AdmissionExpiry { unix_seconds })
    }

    /// Bound in Unix seconds.
    pub fn unix_seconds(self) -> (r: u64)
        ensures
            r == self@,
    {
        self.unix_seconds
    }

    /// The admission is stale from its bound onwards.
    pub fn is_expired_at(self, now_unix_seconds: u64) -> (r: bool)
        ensures
            r == (now_unix_seconds >= self@),
    {
        now_unix_seconds >= self.unix_seconds
    }
}

/// Issuer-qualified federated principal (non-empty issuer and subject).
pub struct FederatedPrincipal {
    issuer: String,
    subject: String,
}

impl View for FederatedPrincipal {
    type V = (Seq<char>, Seq<char>);

    closed spec fn view(&self) -> (Seq<char>, Seq<char>) {
        (self.issuer@, self.subject@)
    }
}

impl FederatedPrincipal {
    /// Principal `subject` issued by `issuer`; neither may be empty.
    pub fn new(issuer: &str, subject: &str) -> (r: Result<Self, AuthContextError>)
        ensures
            issuer@.len() == 0 ==> r == Err::<Self, AuthContextError>(AuthContextError::EmptyIssuer),
            issuer@.len() != 0 && subject@.len() == 0 ==> r == Err::<Self, AuthContextError>(
                AuthContextError::EmptySubject,
            ),
            issuer@.len() != 0 && subject@.len() != 0 ==> (r matches Ok(p) && p@ == (
                issuer@,
                subject@,
            )),
    {
        if issuer.is_empty() {
            return Err(AuthContextError::EmptyIssuer);
        }
        if subject.is_empty() {
            return Err(AuthContextError::EmptySubject);
        }
        Ok(FederatedPrincipal { issuer: issuer.to_owned(), subject: subject.to_owned() })
    }

    /// Issuer of the principal.
    pub fn issuer(&self) -> (r: &str)
        ensures
            r@ == self@.0,
    {
        self.issuer.as_str()
    }

    /// Subject of the principal at its issuer.
    pub fn subject(&self) -> (r: &str)
        ensures
            r@ == self@.1,
    {
        self.subject.as_str()
    }
}

impl Clone for FederatedPrincipal {
    fn clone(&self) -> (r: Self)
        ensures
            r@ == self@,
    {
        FederatedPrincipal { issuer: self.issuer.clone(), subject: self.subject.clone() }
    }
}

impl PartialEq for FederatedPrincipal {
    fn eq(&self, other: &Self) -> (r: bool) {
        str_eq(self.issuer.as_str(), other.issuer.as_str()) && str_eq(
            self.subject.as_str(),
            other.subject.as_str(),
        )
    }
}

impl vstd::std_specs::cmp::PartialEqSpecImpl for FederatedPrincipal {
    open spec fn obeys_eq_spec() -> bool {
        true
    }

    open spec fn eq_spec(&self, other: &Self) -> bool {
        self@ == other@
    }
}

impl Eq for FederatedPrincipal {

}


/// Verified claim by the identity provider that the principal controls a key.
#[derive(Clone, Copy, PartialEq, Eq, Structural)]
pub struct VerifiedKeyAttestation {
    pubkey: PublicKey,
}

impl View for VerifiedKeyAttestation {
    type V = PublicKey;

    closed spec fn view(&self) -> PublicKey {
        self.pubkey
    }
}

impl VerifiedKeyAttestation {
    /// Attestation of `pubkey`.
    pub fn new(pubkey: PublicKey) -> (r: Self)
        ensures
            r@ == pubkey,
    {
        VerifiedKeyAttestation { pubkey }
    }

    /// Attested Nostr key.
    pub fn pubkey(self) -> (r: PublicKey)
        ensures
            r == self@,
    {
        self.pubkey
    }
}

/// How a federated assertion reached the server.
#[derive(Clone, Copy, PartialEq, Eq, Structural)]
pub enum AssertionTransport {
    /// Delivered by a trusted authenticating proxy.
    TrustedProxy,
}

/// What a verified federated assertion attests.
pub struct AssertionView {
    pub authorization_domain: CommunityId,
    pub authorized_transport: AuthTransport,
    pub principal: (Seq<char>, Seq<char>),
    pub key_attestation: Option<VerifiedKeyAttestation>,
    pub assertion_transport: AssertionTransport,
    pub not_before: Option<AssertionNotBefore>,
    pub expires_at: AssertionExpiry,
}

/// Federated assertion accepted by the configured verifier.
pub struct VerifiedFederatedAssertion {
    authorization_domain: CommunityId,
    authorized_transport: AuthTransport,
    principal: FederatedPrincipal,
    key_attestation: Option<VerifiedKeyAttestation>,
    assertion_transport: AssertionTransport,
    not_before: Option<AssertionNotBefore>,
    expires_at: AssertionExpiry,
}

impl View for VerifiedFederatedAssertion {
    type V = AssertionView;

    closed spec fn view(&self) -> AssertionView {
        AssertionView {
            authorization_domain: self.authorization_domain,
            authorized_transport: self.authorized_transport,
            principal: self.principal@,
            key_attestation: self.key_attestation,
            assertion_transport: self.assertion_transport,
            not_before: self.not_before,
            expires_at: self.expires_at,
        }
    }
}

impl VerifiedFederatedAssertion {
    /// Record an assertion verified for `authorization_domain` and `authorized_transport`.
    pub fn new(
        authorization_domain: CommunityId,
        authorized_transport: AuthTransport,
        principal: FederatedPrincipal,
        key_attestation: Option<VerifiedKeyAttestation>,
        assertion_transport: AssertionTransport,
        not_before: Option<AssertionNotBefore>,
        expires_at: AssertionExpiry,
    ) -> (r: Self)
        ensures
            r@ == (AssertionView {
                authorization_domain,
                authorized_transport,
                principal: principal@,
                key_attestation,
                assertion_transport,
                not_before,
                expires_at,
            }),
    {
        VerifiedFederatedAssertion {
            authorization_domain,
            authorized_transport,
            principal,
            key_attestation,
            assertion_transport,
            not_before,
            expires_at,
        }
    }

    /// Authorization domain the assertion was verified for.
    pub fn authorization_domain(&self) -> (r: CommunityId)
        ensures
            r == self@.authorization_domain,
    {
        self.authorization_domain
    }

    /// Transport the assertion was verified for.
    pub fn authorized_transport(&self) -> (r: AuthTransport)
        ensures
            r == self@.authorized_transport,
    {
        self.authorized_transport
    }

    /// Asserted principal.
    pub fn principal(&self) -> (r: &FederatedPrincipal)
        ensures
            r@ == self@.principal,
    {
        &self.principal
    }

    /// Key attestation carried by the assertion, when present.
    pub fn key_attestation(&self) -> (r: Option<VerifiedKeyAttestation>)
        ensures
            r == self@.key_attestation,
    {
        self.key_attestation
    }

    /// Delivery path of the assertion.
    pub fn assertion_transport(&self) -> (r: AssertionTransport)
        ensures
            r == self@.assertion_transport,
    {
        self.assertion_transport
    }

    /// Validated not-before bound, when present.
    pub fn not_before(&self) -> (r: Option<AssertionNotBefore>)
        ensures
            r == self@.not_before,
    {
        self.not_before
    }

    /// Assertion expiry.
    pub fn expires_at(&self) -> (r: AssertionExpiry)
        ensures
            r == self@.expires_at,
    {
        self.expires_at
    }
}

/// Verified NIP-26-style delegation from an owner key to a delegate key.
#[derive(Clone, Copy, PartialEq, Eq, Structural)]
pub struct VerifiedTransportDelegation {
    owner_pubkey: PublicKey,
    delegate_pubkey: PublicKey,
    expires_at: Option<DelegationExpiry>,
}

/// What a verified delegation attests.
pub struct DelegationView {
    pub owner_pubkey: PublicKey,
    pub delegate_pubkey: PublicKey,
    pub expires_at: Option<DelegationExpiry>,
}

impl View for VerifiedTransportDelegation {
    type V = DelegationView;

    closed spec fn view(&self) -> DelegationView {
        DelegationView {
            owner_pubkey: self.owner_pubkey,
            delegate_pubkey: self.delegate_pubkey,
            expires_at: self.expires_at,
        }
    }
}

impl VerifiedTransportDelegation {
    /// Delegation valid for every transport; owner and delegate must differ.
    pub fn new_unrestricted(
        owner_pubkey: PublicKey,
        delegate_pubkey: PublicKey,
        expires_at: Option<DelegationExpiry>,
    ) -> (r: Result<Self, AuthContextError>)
        ensures
            owner_pubkey == delegate_pubkey ==> r == Err::<Self, AuthContextError>(
                AuthContextError::SelfDelegation,
            ),
            owner_pubkey != delegate_pubkey ==> (r matches Ok(d) && d@ == (DelegationView {
                owner_pubkey,
                delegate_pubkey,
                expires_at,
            })),
    {
        if owner_pubkey == delegate_pubkey {
            return Err(AuthContextError::SelfDelegation);
        }
        Ok(VerifiedTransportDelegation { owner_pubkey, delegate_pubkey, expires_at })
    }

    /// Delegating owner key.
    pub fn owner_pubkey(&self) -> (r: PublicKey)
        ensures
            r == self@.owner_pubkey,
    {
        self.owner_pubkey
    }

    /// Delegate key.
    pub fn delegate_pubkey(&self) -> (r: PublicKey)
        ensures
            r == self@.delegate_pubkey,
    {
        self.delegate_pubkey
    }

    /// Delegation expiry, when bounded.
    pub fn expires_at(&self) -> (r: Option<DelegationExpiry>)
        ensures
            r == self@.expires_at,
    {
        self.expires_at
    }
}

/// Whether an optional delegation expiry has passed at `now`.
pub open spec fn delegation_expired_at(expires_at: Option<DelegationExpiry>, now: u64) -> bool {
    match expires_at {
        Some(e) => now >= e@,
        None => false,
    }
}

/// What a verified Nostr proof attests.
pub struct NostrProofView {
    pub authorization_domain: CommunityId,
    pub authorized_transport: AuthTransport,
    pub actor_pubkey: PublicKey,
    pub proof_method: AuthMethod,
    pub verified_delegation: Option<VerifiedTransportDelegation>,
}

/// Cryptographically verified Nostr proof for one transport and domain.
#[derive(Clone, Copy, PartialEq, Eq, Structural)]
pub struct VerifiedNostrProof {
    authorization_domain: CommunityId,
    authorized_transport: AuthTransport,
    actor_pubkey: PublicKey,
    proof_method: AuthMethod,
    verified_delegation: Option<VerifiedTransportDelegation>,
}

impl View for VerifiedNostrProof {
    type V = NostrProofView;

    closed spec fn view(&self) -> NostrProofView {
        NostrProofView {
            authorization_domain: self.authorization_domain,
            authorized_transport: self.authorized_transport,
            actor_pubkey: self.actor_pubkey,
            proof_method: self.proof_method,
            verified_delegation: self.verified_delegation,
        }
    }
}

impl VerifiedNostrProof {
    /// Record a verified proof. The proof method must suit the transport, and
    /// a delegation must name the authenticated actor as its delegate.
    pub fn new(
        authorization_domain: CommunityId,
        authorized_transport: AuthTransport,
        actor_pubkey: PublicKey,
        proof_method: AuthMethod,
        verified_delegation: Option<VerifiedTransportDelegation>,
    ) -> (r: Result<Self, AuthContextError>)
        ensures
            !spec_transport_accepts_proof(authorized_transport, proof_method) ==> r == Err::<
                Self,
                AuthContextError,
            >(AuthContextError::TransportProofMismatch),
            spec_transport_accepts_proof(authorized_transport, proof_method) && (
            verified_delegation matches Some(d) && d@.delegate_pubkey != actor_pubkey) ==> r
                == Err::<Self, AuthContextError>(AuthContextError::DelegateKeyMismatch),
            spec_transport_accepts_proof(authorized_transport, proof_method) && !(
            verified_delegation matches Some(d) && d@.delegate_pubkey != actor_pubkey) ==> (r matches Ok(
                p,
            ) && p@ == (NostrProofView {
                authorization_domain,
                authorized_transport,
                actor_pubkey,
                proof_method,
                verified_delegation,
            })),
    {
        if !transport_accepts_proof(authorized_transport, proof_method) {
            return Err(AuthContextError::TransportProofMismatch);
        }
        if let Some(delegation) = verified_delegation {
            if delegation.delegate_pubkey() != actor_pubkey {
                return Err(AuthContextError::DelegateKeyMismatch);
            }
        }
        Ok(
            VerifiedNostrProof {
                authorization_domain,
                authorized_transport,
                actor_pubkey,
                proof_method,
                verified_delegation,
            },
        )
    }

    /// Authorization domain the proof was verified for.
    pub fn authorization_domain(&self) -> (r: CommunityId)
        ensures
            r == self@.authorization_domain,
    {
        self.authorization_domain
    }

    /// Transport the proof authorizes.
    pub fn authorized_transport(&self) -> (r: AuthTransport)
        ensures
            r == self@.authorized_transport,
    {
        self.authorized_transport
    }

    /// Authenticated Nostr actor.
    pub fn actor_pubkey(&self) -> (r: PublicKey)
        ensures
            r == self@.actor_pubkey,
    {
        self.actor_pubkey
    }

    /// Proof method used for the actor.
    pub fn proof_method(&self) -> (r: AuthMethod)
        ensures
            r == self@.proof_method,
    {
        self.proof_method
    }

    /// Verified delegation of the actor by an owner, when present.
    pub fn verified_delegation(&self) -> (r: Option<VerifiedTransportDelegation>)
        ensures
            r == self@.verified_delegation,
    {
        self.verified_delegation
    }
}

/// Verified Nostr authority that signed the request.
#[derive(Clone, Copy, PartialEq, Eq, Structural)]
pub struct NostrAuthority {
    actor_pubkey: PublicKey,
    proof_method: AuthMethod,
    verified_owner_pubkey: Option<PublicKey>,
}

/// What a Nostr authority records.
pub struct NostrAuthorityView {
    pub actor_pubkey: PublicKey,
    pub proof_method: AuthMethod,
    pub verified_owner_pubkey: Option<PublicKey>,
}

impl View for NostrAuthority {
    type V = NostrAuthorityView;

    closed spec fn view(&self) -> NostrAuthorityView {
        NostrAuthorityView {
            actor_pubkey: self.actor_pubkey,
            proof_method: self.proof_method,
            verified_owner_pubkey: self.verified_owner_pubkey,
        }
    }
}

/// The authority recorded from a verified proof.
pub open spec fn authority_of_proof(proof: NostrProofView) -> NostrAuthorityView {
    NostrAuthorityView {
        actor_pubkey: proof.actor_pubkey,
        proof_method: proof.proof_method,
        verified_owner_pubkey: match proof.verified_delegation {
            Some(d) => Some(d@.owner_pubkey),
            None => None,
        },
    }
}

impl NostrAuthority {
    /// Authority of the proof's actor, with the delegating owner when present.
    pub fn new(proof: VerifiedNostrProof) -> (r: Self)
        ensures
            r@ == authority_of_proof(proof@),
    {
        let verified_owner_pubkey = match proof.verified_delegation() {
            Some(delegation) => Some(delegation.owner_pubkey()),
            None => None,
        };
        NostrAuthority {
            actor_pubkey: proof.actor_pubkey(),
            proof_method: proof.proof_method(),
            verified_owner_pubkey,
        }
    }

    /// Authenticated Nostr actor.
    pub fn actor_pubkey(&self) -> (r: PublicKey)
        ensures
            r == self@.actor_pubkey,
    {
        self.actor_pubkey
    }

    /// Proof method used for the actor.
    pub fn proof_method(&self) -> (r: AuthMethod)
        ensures
            r == self@.proof_method,
    {
        self.proof_method
    }

    /// Verified delegating owner, when the actor is a delegate.
    pub fn verified_owner_pubkey(&self) -> (r: Option<PublicKey>)
        ensures
            r == self@.verified_owner_pubkey,
    {
        self.verified_owner_pubkey
    }
}

/// What a resolved owner admission attests.
pub struct OwnerAdmissionView {
    pub authorization_domain: CommunityId,
    pub principal: (Seq<char>, Seq<char>),
    pub fresh_until: AdmissionExpiry,
}

/// Current community admission resolved for a bound owner principal.
pub struct VerifiedOwnerAdmission {
    authorization_domain: CommunityId,
    principal: FederatedPrincipal,
    fresh_until: AdmissionExpiry,
}

impl View for VerifiedOwnerAdmission {
    type V = OwnerAdmissionView;

    closed spec fn view(&self) -> OwnerAdmissionView {
        OwnerAdmissionView {
            authorization_domain: self.authorization_domain,
            principal: self.principal@,
            fresh_until: self.fresh_until,
        }
    }
}

impl VerifiedOwnerAdmission {
    /// Record an admission of `principal` in `authorization_domain`.
    pub fn new(
        authorization_domain: CommunityId,
        principal: FederatedPrincipal,
        fresh_until: AdmissionExpiry,
    ) -> (r: Self)
        ensures
            r@ == (OwnerAdmissionView { authorization_domain, principal: principal@, fresh_until }),
    {
        VerifiedOwnerAdmission { authorization_domain, principal, fresh_until }
    }

    /// Authorization domain of the admission.
    pub fn authorization_domain(&self) -> (r: CommunityId)
        ensures
            r == self@.authorization_domain,
    {
        self.authorization_domain
    }

    /// Admitted principal.
    pub fn principal(&self) -> (r: &FederatedPrincipal)
        ensures
            r@ == self@.principal,
    {
        &self.principal
    }

    /// Freshness bound of the admission.
    pub fn fresh_until(&self) -> (r: AdmissionExpiry)
        ensures
            r == self@.fresh_until,
    {
        self.fresh_until
    }
}

/// Named permission scope.
pub struct Scope {
    name: String,
}

impl View for Scope {
    type V = Seq<char>;

    closed spec fn view(&self) -> Seq<char> {
        self.name@
    }
}

impl Scope {
    /// Scope with the given name.
    pub fn new(name: &str) -> (r: Self)
        ensures
            r@ == name@,
    {
        Scope { name: name.to_owned() }
    }

    /// Name of the scope.
    pub fn name(&self) -> (r: &str)
        ensures
            r@ == self@,
    {
        self.name.as_str()
    }
}

/// Names of a list of scopes.
pub open spec fn scope_names(scopes: Seq<Scope>) -> Seq<Seq<char>> {
    scopes.map_values(|s: Scope| s@)
}

/// What a community admission grants.
pub struct CommunityAccessView {
    pub authorization_domain: CommunityId,
    pub scopes: Seq<Seq<char>>,
    pub channel_ids: Option<Seq<u128>>,
}

/// Community admission and permissions resolved for the authenticated actor.
pub struct AuthorizedCommunityAccess {
    authorization_domain: CommunityId,
    scopes: Vec<Scope>,
    channel_ids: Option<Vec<u128>>,
}

/// The view of optional channel identifiers.
pub open spec fn channel_ids_view(ids: Option<Vec<u128>>) -> Option<Seq<u128>> {
    match ids {
        Some(v) => Some(v@),
        None => None,
    }
}

impl View for AuthorizedCommunityAccess {
    type V = CommunityAccessView;

    closed spec fn view(&self) -> CommunityAccessView {
        CommunityAccessView {
            authorization_domain: self.authorization_domain,
            scopes: scope_names(self.scopes@),
            channel_ids: channel_ids_view(self.channel_ids),
        }
    }
}

impl AuthorizedCommunityAccess {
    /// Admission to `authorization_domain` with `scopes`, optionally limited
    /// to the channels `channel_ids` (UUID values).
    pub fn new(
        authorization_domain: CommunityId,
        scopes: Vec<Scope>,
        channel_ids: Option<Vec<u128>>,
    ) -> (r: Self)
        ensures
            r@ == (CommunityAccessView {
                authorization_domain,
                scopes: scope_names(scopes@),
                channel_ids: channel_ids_view(channel_ids),
            }),
    {
        AuthorizedCommunityAccess { authorization_domain, scopes, channel_ids }
    }

    /// Authorization domain of the admission.
    pub fn authorization_domain(&self) -> (r: CommunityId)
        ensures
            r == self@.authorization_domain,
    {
        self.authorization_domain
    }

    /// Granted scopes and optional channel restriction.
    pub fn into_permissions(self) -> (r: (Vec<Scope>, Option<Vec<u128>>))
        ensures
            scope_names(r.0@) == self@.scopes,
            channel_ids_view(r.1) == self@.channel_ids,
    {
        (self.scopes, self.channel_ids)
    }
}

/// Server-resolved tenant for a request or connection.
#[derive(Clone, Copy, PartialEq, Eq, Structural)]
pub struct TenantContext {
    community: CommunityId,
}

impl View for TenantContext {
    type V = CommunityId;

    closed spec fn view(&self) -> CommunityId {
        self.community
    }
}

impl TenantContext {
    /// Tenant of the given community.
    pub fn new(community: CommunityId) -> (r: Self)
        ensures
            r@ == community,
    {
        TenantContext { community }
    }

    /// Community that owns the request.
    pub fn community(&self) -> (r: CommunityId)
        ensures
            r == self@,
    {
        self.community
    }
}

} // verus!
