//! Portable capabilities and normalized, non-empty capability sets.

use vstd::prelude::*;
use crate::redaction::{redacted_tuple, redacted_tuple_text};

use super::contract::ProviderContractError;

verus! {

/// Portable capability evaluated by an authorization provider.
#[derive(Clone, Copy, PartialEq, Eq, Structural, Hash, PartialOrd, Ord)]
pub enum AuthorizationCapability {
    /// Read community content.
    CommunityRead,
    /// Publish community content.
    CommunityWrite,
    /// Perform moderation operations.
    Moderate,
    /// Mint invitations.
    InviteMint,
    /// Claim an invitation before membership exists.
    InviteClaim,
    /// Read authenticated media.
    MediaRead,
    /// Upload media.
    MediaWrite,
    /// Read Git content.
    GitRead,
    /// Write Git content.
    GitWrite,
    /// Join an audio session.
    AudioJoin,
}

/// Number of capabilities.
pub const CAPABILITY_COUNT: usize = 10;

/// Position of a capability in declaration order (its sort order).
pub open spec fn capability_rank(c: AuthorizationCapability) -> nat {
    match c {
        AuthorizationCapability::CommunityRead => 0,
        AuthorizationCapability::CommunityWrite => 1,
        AuthorizationCapability::Moderate => 2,
        AuthorizationCapability::InviteMint => 3,
        AuthorizationCapability::InviteClaim => 4,
        AuthorizationCapability::MediaRead => 5,
        AuthorizationCapability::MediaWrite => 6,
        AuthorizationCapability::GitRead => 7,
        AuthorizationCapability::GitWrite => 8,
        AuthorizationCapability::AudioJoin => 9,
    }
}

/// Capability at a given position in declaration order.
fn capability_at_rank(rank: usize) -> (c: AuthorizationCapability)
    requires
        rank < CAPABILITY_COUNT,
    ensures
        capability_rank(c) == rank,
{
    match rank {
        0 => AuthorizationCapability::CommunityRead,
        1 => AuthorizationCapability::CommunityWrite,
        2 => AuthorizationCapability::Moderate,
        3 => AuthorizationCapability::InviteMint,
        4 => AuthorizationCapability::InviteClaim,
        5 => AuthorizationCapability::MediaRead,
        6 => AuthorizationCapability::MediaWrite,
        7 => AuthorizationCapability::GitRead,
        8 => AuthorizationCapability::GitWrite,
        _ => AuthorizationCapability::AudioJoin,
    }
}

/// Non-empty and strictly increasing in declaration order (so free of duplicates).
pub open spec fn capabilities_normalized(s: Seq<AuthorizationCapability>) -> bool {
    &&& s.len() > 0
    &&& forall|i: int, j: int| 0 <= i < j < s.len() ==> capability_rank(s[i]) < capability_rank(s[j])
}

/// Every capability of `requested` is in `granted`.
pub open spec fn capabilities_cover(
    granted: Seq<AuthorizationCapability>,
    requested: Seq<AuthorizationCapability>,
) -> bool {
    forall|c: AuthorizationCapability| requested.contains(c) ==> granted.contains(c)
}

/// Non-empty, normalized set of portable capabilities.
pub struct CapabilitySet {
    capabilities: Vec<AuthorizationCapability>,
}

impl View for CapabilitySet {
    type V = Seq<AuthorizationCapability>;

    closed spec fn view(&self) -> Seq<AuthorizationCapability> {
        self.capabilities@
    }
}

fn contains_capability(v: &Vec<AuthorizationCapability>, c: AuthorizationCapability) -> (r: bool)
    ensures
        r == v@.contains(c),
{
    let n = v.len();
    let mut i: usize = 0;
    while i < n
        invariant
            n == v@.len(),
            i <= n,
            forall|j: int| 0 <= j < i ==> v@[j] != c,
        decreases n - i,
    {
        if v[i] == c {
            assert(v@[i as int] == c);
            return true;
        }
        i += 1;
    }
    false
}

impl CapabilitySet {
    #[verifier::type_invariant]
    spec fn normalized(self) -> bool {
        capabilities_normalized(self.capabilities@)
    }

    /// Build a non-empty set, sorting and removing duplicate capabilities.
    pub fn new(capabilities: Vec<AuthorizationCapability>) -> (r: Result<Self, ProviderContractError>)
        ensures
            capabilities@.len() == 0 ==> r == Err::<Self, ProviderContractError>(
                ProviderContractError::EmptyCapabilitySet,
            ),
            capabilities@.len() != 0 ==> (r matches Ok(set) && capabilities_normalized(set@) && (
            forall|c: AuthorizationCapability| set@.contains(c) <==> capabilities@.contains(c))),
    {
        let mut normalized: Vec<AuthorizationCapability> = Vec::new();
        let mut rank: usize = 0;
        while rank < CAPABILITY_COUNT
            invariant
                rank <= CAPABILITY_COUNT,
                forall|i: int, j: int|
                    0 <= i < j < normalized@.len() ==> capability_rank(normalized@[i])
                        < capability_rank(normalized@[j]),
                forall|i: int| 0 <= i < normalized@.len() ==> capability_rank(normalized@[i]) < rank,
                forall|c: AuthorizationCapability|
                    capability_rank(c) < rank ==> (normalized@.contains(c)
                        <==> capabilities@.contains(c)),
                forall|c: AuthorizationCapability|
                    #![trigger normalized@.contains(c)]
                    normalized@.contains(c) ==> capability_rank(c) < rank,
            decreases CAPABILITY_COUNT - rank,
        {
            let c = capability_at_rank(rank);
            if contains_capability(&capabilities, c) {
                let ghost before = normalized@;
                normalized.push(c);
                proof {
                    assert(normalized@ == before.push(c));
                    assert forall|d: AuthorizationCapability|
                        capability_rank(d) < rank + 1 implies (normalized@.contains(d)
                            <==> capabilities@.contains(d)) by {
                        if d == c {
                            assert(normalized@[before.len() as int] == c);
                        } else if normalized@.contains(d) {
                            let k = choose|k: int| 0 <= k < normalized@.len() && normalized@[k] == d;
                            assert(k < before.len());
                            assert(before.contains(d));
                        } else if before.contains(d) {
                            let k = choose|k: int| 0 <= k < before.len() && before[k] == d;
                            assert(normalized@[k] == d);
                        }
                    }
                    assert forall|d: AuthorizationCapability|
                        #![trigger normalized@.contains(d)]
                        normalized@.contains(d) implies capability_rank(d) < rank + 1 by {
                        let k = choose|k: int| 0 <= k < normalized@.len() && normalized@[k] == d;
                        if k < before.len() {
                            assert(before.contains(d));
                        }
                    }
                }
            } else {
                proof {
                    assert forall|d: AuthorizationCapability|
                        capability_rank(d) < rank + 1 implies (normalized@.contains(d)
                            <==> capabilities@.contains(d)) by {
                        if capability_rank(d) == rank {
                            assert(d == c);
                        }
                    }
                }
            }
            rank += 1;
        }
        if normalized.len() == 0 {
            proof {
                if capabilities@.len() > 0 {
                    let c = capabilities@[0];
                    assert(capabilities@.contains(c));
                    assert(normalized@.contains(c));
                }
            }
            return Err(ProviderContractError::EmptyCapabilitySet);
        }
        proof {
            let c = normalized@[0];
            assert(normalized@.contains(c));
            assert(capability_rank(c) < CAPABILITY_COUNT);
            assert(capabilities@.contains(c));
        }
        Ok(CapabilitySet { capabilities: normalized })
    }

    /// Normalized capabilities in stable order.
    pub fn as_slice(&self) -> (r: &[AuthorizationCapability])
        ensures
            r@ == self@,
            capabilities_normalized(self@),
    {
        proof {
            use_type_invariant(self);
        }
        self.capabilities.as_slice()
    }

    /// Whether every requested capability is granted by this set.
    pub fn contains_all(&self, requested: &Self) -> (r: bool)
        ensures
            r == capabilities_cover(self@, requested@),
    {
        let wanted = requested.as_slice();
        let n = wanted.len();
        let mut i: usize = 0;
        while i < n
            invariant
                n == wanted@.len(),
                wanted@ == requested@,
                i <= n,
                forall|j: int| 0 <= j < i ==> self@.contains(wanted@[j]),
            decreases n - i,
        {
            if !contains_capability(&self.capabilities, wanted[i]) {
                return false;
            }
            i += 1;
        }
        proof {
            assert forall|c: AuthorizationCapability| requested@.contains(c) implies self@.contains(
                c,
            ) by {
                let k = choose|k: int| 0 <= k < requested@.len() && requested@[k] == c;
                assert(self@.contains(wanted@[k]));
            }
        }
        true
    }
}

impl Clone for CapabilitySet {
    fn clone(&self) -> (r: Self)
        ensures
            r@ == self@,
    {
        proof {
            use_type_invariant(self);
        }
        let n = self.capabilities.len();
        let mut copy: Vec<AuthorizationCapability> = Vec::new();
        let mut i: usize = 0;
        while i < n
            invariant
                n == self@.len(),
                i <= n,
                copy@ == self@.take(i as int),
            decreases n - i,
        {
            copy.push(self.capabilities[i]);
            assert(self@.take(i + 1) == self@.take(i as int).push(self@[i as int]));
            i += 1;
        }
        assert(self@.take(n as int) == self@);
        CapabilitySet { capabilities: copy }
    }
}

impl AuthorizationCapability {
    /// Redaction-safe rendering: the contents are hidden.
    pub fn redacted_debug(&self) -> (r: String)
        ensures
            r@ == redacted_tuple_text("AuthorizationCapability"@),
    {
        redacted_tuple("AuthorizationCapability")
    }
}

impl CapabilitySet {
    /// Redaction-safe rendering: the contents are hidden.
    pub fn redacted_debug(&self) -> (r: String)
        ensures
            r@ == redacted_tuple_text("CapabilitySet"@),
    {
        redacted_tuple("CapabilitySet")
    }
}

} // verus!
