//! Opaque, bounded identifiers preserved exactly as configured or returned.

use vstd::prelude::*;
use crate::redaction::{redacted_tuple, redacted_tuple_text};
use vstd::string::*;

use super::contract::{ProviderContractError, MAX_OPAQUE_ID_BYTES};
use crate::text::str_eq;

verus! {

/// A non-empty text of at most [`MAX_OPAQUE_ID_BYTES`] UTF-8 bytes.
pub open spec fn opaque_id_valid(value: &str) -> bool {
    value@.len() > 0 && value.spec_bytes().len() <= MAX_OPAQUE_ID_BYTES
}

/// Opaque identifier for the server-resolved authorization profile.
pub struct AuthorizationProfileId {
    value: String,
}

impl View for AuthorizationProfileId {
    type V = Seq<char>;

    closed spec fn view(&self) -> Seq<char> {
        self.value@
    }
}

impl AuthorizationProfileId {
    #[verifier::type_invariant]
    spec fn bounded(self) -> bool {
        self.value@.len() > 0 && vstd::utf8::encode_utf8(self.value@).len() <= MAX_OPAQUE_ID_BYTES
    }

    /// Preserve a non-empty, bounded profile identifier exactly as configured.
    pub fn new(value: &str) -> (r: Result<Self, ProviderContractError>)
        ensures
            value@.len() == 0 ==> r == Err::<Self, ProviderContractError>(
                ProviderContractError::EmptyProfileId,
            ),
            value@.len() != 0 && value.spec_bytes().len() > MAX_OPAQUE_ID_BYTES ==> r == Err::<
                Self,
                ProviderContractError,
            >(ProviderContractError::ProfileIdTooLong),
            opaque_id_valid(value) ==> (r matches Ok(id) && id@ == value@),
    {
        if value.is_empty() {
            return Err(ProviderContractError::EmptyProfileId);
        }
        if value.as_bytes().len() > MAX_OPAQUE_ID_BYTES {
            return Err(ProviderContractError::ProfileIdTooLong);
        }
        let owned = value.to_owned();
        proof {
            assert(owned@ == value@);
        }
        Ok(AuthorizationProfileId { value: owned })
    }

    /// Exact profile identifier for provider routing.
    pub fn as_str(&self) -> (r: &str)
        ensures
            r@ == self@,
    {
        self.value.as_str()
    }
}

impl Clone for AuthorizationProfileId {
    fn clone(&self) -> (r: Self)
        ensures
            r@ == self@,
    {
        proof {
            use_type_invariant(self);
        }
        AuthorizationProfileId { value: self.value.clone() }
    }
}

impl PartialEq for AuthorizationProfileId {
    fn eq(&self, other: &Self) -> (r: bool) {
        str_eq(self.value.as_str(), other.value.as_str())
    }
}

impl vstd::std_specs::cmp::PartialEqSpecImpl for AuthorizationProfileId {
    open spec fn obeys_eq_spec() -> bool {
        true
    }

    open spec fn eq_spec(&self, other: &Self) -> bool {
        self@ == other@
    }
}

impl Eq for AuthorizationProfileId {

}

/// Opaque, equality-comparable policy version returned by a provider.
///
/// Versions are compared for equality only; no numeric ordering is assumed.
pub struct PolicyVersion {
    value: String,
}

impl View for PolicyVersion {
    type V = Seq<char>;

    closed spec fn view(&self) -> Seq<char> {
        self.value@
    }
}

impl PolicyVersion {
    #[verifier::type_invariant]
    spec fn bounded(self) -> bool {
        self.value@.len() > 0 && vstd::utf8::encode_utf8(self.value@).len() <= MAX_OPAQUE_ID_BYTES
    }

    /// Preserve a non-empty, bounded policy version without interpreting it.
    pub fn new(value: &str) -> (r: Result<Self, ProviderContractError>)
        ensures
            value@.len() == 0 ==> r == Err::<Self, ProviderContractError>(
                ProviderContractError::EmptyPolicyVersion,
            ),
            value@.len() != 0 && value.spec_bytes().len() > MAX_OPAQUE_ID_BYTES ==> r == Err::<
                Self,
                ProviderContractError,
            >(ProviderContractError::PolicyVersionTooLong),
            opaque_id_valid(value) ==> (r matches Ok(v) && v@ == value@),
    {
        if value.is_empty() {
            return Err(ProviderContractError::EmptyPolicyVersion);
        }
        if value.as_bytes().len() > MAX_OPAQUE_ID_BYTES {
            return Err(ProviderContractError::PolicyVersionTooLong);
        }
        let owned = value.to_owned();
        proof {
            assert(owned@ == value@);
        }
        Ok(PolicyVersion { value: owned })
    }

    /// Exact opaque version text.
    pub fn as_str(&self) -> (r: &str)
        ensures
            r@ == self@,
    {
        self.value.as_str()
    }
}

impl Clone for PolicyVersion {
    fn clone(&self) -> (r: Self)
        ensures
            r@ == self@,
    {
        proof {
            use_type_invariant(self);
        }
        PolicyVersion { value: self.value.clone() }
    }
}

impl PartialEq for PolicyVersion {
    fn eq(&self, other: &Self) -> (r: bool) {
        str_eq(self.value.as_str(), other.value.as_str())
    }
}

impl vstd::std_specs::cmp::PartialEqSpecImpl for PolicyVersion {
    open spec fn obeys_eq_spec() -> bool {
        true
    }

    open spec fn eq_spec(&self, other: &Self) -> bool {
        self@ == other@
    }
}

impl Eq for PolicyVersion {

}

impl AuthorizationProfileId {
    /// Redaction-safe rendering: the contents are hidden.
    pub fn redacted_debug(&self) -> (r: String)
        ensures
            r@ == redacted_tuple_text("AuthorizationProfileId"@),
    {
        redacted_tuple("AuthorizationProfileId")
    }
}

impl PolicyVersion {
    /// Redaction-safe rendering: the contents are hidden.
    pub fn redacted_debug(&self) -> (r: String)
        ensures
            r@ == redacted_tuple_text("PolicyVersion"@),
    {
        redacted_tuple("PolicyVersion")
    }
}

} // verus!
