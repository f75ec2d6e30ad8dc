//! Relay admin-API request authorization: credential extraction, the
//! canonical NIP-98 URL, and the Host / Origin checks.

use vstd::prelude::*;
use vstd::string::*;
use vstd::utf8::{decode_utf8, encode_utf8, valid_utf8};

use crate::codec::{
    base64_standard_decoding, decode_base64_standard, hex_decode_32, spec_hex_decode_32,
    string_from_utf8,
};
use crate::text::{
    ascii_case_eq, find_char, first_index, seq_has_prefix, str_eq, str_eq_ignore_ascii_case,
    starts_with, strip_prefix, trim_leading_spaces, trim_start_spaces,
};

verus! {

broadcast use vstd::seq_lib::group_seq_properties;

/// Mount prefix of the admin routes; NIP-98 clients sign URLs that include it.
pub const ADMIN_API_PREFIX: &'static str = "/api/admin/v1";

/// Credential carried by an `Authorization` value `"<scheme> <credential>"`:
/// the scheme (before the first space) must equal `scheme` up to ASCII case,
/// and the remainder, without its leading spaces, must be non-empty.
pub open spec fn spec_scheme_credential(value: Seq<char>, scheme: Seq<char>) -> Option<Seq<char>> {
    let k = first_index(value, ' ');
    if k < value.len() && ascii_case_eq(value.take(k), scheme) {
        let credential = trim_leading_spaces(value.skip(k + 1));
        if credential.len() > 0 {
            Some(credential)
        } else {
            None
        }
    } else {
        None
    }
}

/// The view of an optional string slice.
pub open spec fn opt_str_view(r: Option<&str>) -> Option<Seq<char>> {
    match r {
        Some(s) => Some(s@),
        None => None,
    }
}

fn scheme_credential<'a>(value: &'a str, scheme: &str) -> (r: Option<&'a str>)
    ensures
        opt_str_view(r) == spec_scheme_credential(value@, scheme@),
{
    let n = value.unicode_len();
    let k = find_char(value, ' ');
    if k >= n {
        return None;
    }
    let scheme_part = value.substring_char(0, k);
    assert(scheme_part@ =~= value@.take(k as int));
    if !str_eq_ignore_ascii_case(scheme_part, scheme) {
        return None;
    }
    let rest = value.substring_char(k + 1, n);
    assert(rest@ =~= value@.skip(k + 1));
    let credential = trim_start_spaces(rest);
    if credential.unicode_len() == 0 {
        None
    } else {
        Some(credential)
    }
}

/// Extract the credential from an `Authorization: Nostr <base64>` value.
pub fn nostr_credential(value: &str) -> (r: Option<&str>)
    ensures
        opt_str_view(r) == spec_scheme_credential(value@, "Nostr"@),
{
    scheme_credential(value, "Nostr")
}

/// Extract the credential from an `Authorization` value. The auth scheme is
/// case-insensitive, so `bearer` is as valid as `Bearer`.
pub fn bearer_credential(value: &str) -> (r: Option<&str>)
    ensures
        opt_str_view(r) == spec_scheme_credential(value@, "Bearer"@),
{
    scheme_credential(value, "Bearer")
}

/// A browser `Origin` names exactly the admin host, over HTTPS or HTTP.
pub open spec fn spec_origin_matches_host(origin: Seq<char>, host: Seq<char>) -> bool {
    origin == "https://"@ + host || origin == "http://"@ + host
}

/// Whether a browser `Origin` value names the configured admin host.
pub fn origin_matches_host(origin: &str, host: &str) -> (r: bool)
    ensures
        r == spec_origin_matches_host(origin@, host@),
{
    proof {
        reveal_strlit("https://");
        reveal_strlit("http://");
    }
    let stripped = match strip_prefix(origin, "https://") {
        Some(rest) => Some(rest),
        None => strip_prefix(origin, "http://"),
    };
    match stripped {
        Some(rest) => {
            let r = str_eq(rest, host);
            proof {
                if seq_has_prefix(origin@, "https://"@) {
                    assert(origin@ == "https://"@ + rest@);
                    if origin@ == "http://"@ + host@ {
                        assert(origin@[4] == 's');
                        assert(("http://"@ + host@)[4] == ':');
                    }
                    if r {
                        assert(origin@ == "https://"@ + host@);
                    } else if origin@ == "https://"@ + host@ {
                        assert(rest@ =~= origin@.skip(8));
                        assert(host@ =~= ("https://"@ + host@).skip(8));
                    }
                } else {
                    assert(origin@ == "http://"@ + rest@);
                    if origin@ == "https://"@ + host@ {
                        assert(origin@.subrange(0, 8) =~= "https://"@);
                    }
                    if !r && origin@ == "http://"@ + host@ {
                        assert(rest@ =~= origin@.skip(7));
                        assert(host@ =~= ("http://"@ + host@).skip(7));
                    }
                }
            }
            r
        },
        None => {
            proof {
                if origin@ == "https://"@ + host@ {
                    assert(origin@.subrange(0, 8) =~= "https://"@);
                }
                if origin@ == "http://"@ + host@ {
                    assert(origin@.subrange(0, 7) =~= "http://"@);
                }
            }
            false
        },
    }
}

/// The host without any `:port` suffix (everything before the first `:`).
pub open spec fn host_without_port(host: Seq<char>) -> Seq<char> {
    host.take(first_index(host, ':'))
}

/// Loopback hosts: `localhost`, `::1`, or any `127.` address.
pub open spec fn is_loopback_host(host_part: Seq<char>) -> bool {
    host_part == "localhost"@ || host_part == "::1"@ || seq_has_prefix(host_part, "127."@)
}

/// `http://` for loopback hosts and `https://` otherwise, then host and path.
pub open spec fn spec_canonical_url(host: Seq<char>, path: Seq<char>) -> Seq<char> {
    let scheme = if is_loopback_host(host_without_port(host)) {
        "http"@
    } else {
        "https"@
    };
    scheme + "://"@ + host + path
}

/// Derive the canonical URL for a NIP-98 `u`-tag check.
///
/// Scheme: `https://` unless the host is a loopback address (localhost or
/// 127.x.x.x), in which case `http://` is used.
pub fn canonical_url(host: &str, path: &str) -> (r: String)
    ensures
        r@ == spec_canonical_url(host@, path@),
{
    let k = find_char(host, ':');
    let host_part = host.substring_char(0, k);
    assert(host_part@ =~= host_without_port(host@));
    let is_loopback = str_eq(host_part, "localhost") || str_eq(host_part, "::1")
        || starts_with(host_part, "127.");
    let mut url = if is_loopback {
        String::from_str("http")
    } else {
        String::from_str("https")
    };
    url.append("://");
    url.append(host);
    url.append(path);
    url
}

/// The URL that an admin NIP-98 event must sign: the canonical URL of the
/// configured host and the mounted prefix followed by the handler's path and
/// query.
pub fn nip98_expected_url(config_host: &str, path_and_query: &str) -> (r: String)
    ensures
        r@ == spec_canonical_url(config_host@, ADMIN_API_PREFIX@ + path_and_query@),
{
    let mut full_path = String::from_str(ADMIN_API_PREFIX);
    full_path.append(path_and_query);
    canonical_url(config_host, full_path.as_str())
}

/// Whether the request's `Host` header (absent, or not visible ASCII, as
/// `None`) names the configured admin host; always false when the admin API
/// is not configured.
pub fn is_admin_host(config_host: Option<&str>, host_header: Option<&str>) -> (r: bool)
    ensures
        r == (config_host is Some && host_header is Some && config_host->0@ == host_header->0@),
{
    match (config_host, host_header) {
        (Some(configured), Some(host)) => str_eq(host, configured),
        _ => false,
    }
}


/// Rejection of an admin request; every authentication failure is the same
/// answer, so no failure mode is distinguishable.
#[derive(Clone, Copy, PartialEq, Eq, Structural, Debug)]
pub enum AdminRejection {
    /// The admin API is not configured.
    NotFound,
    /// Authentication failed.
    Unauthorized,
    /// Authentication failed in NIP-98 mode; the answer advertises the `Nostr` scheme.
    UnauthorizedNostr,
    /// The request did not come through the admin host or a matching browser origin.
    Forbidden,
}

/// Configured operator token: 32 bytes.
pub struct AdminToken {
    bytes: Vec<u8>,
}

impl View for AdminToken {
    type V = Seq<u8>;

    closed spec fn view(&self) -> Seq<u8> {
        self.bytes@
    }
}

impl AdminToken {
    /// Token given as 64 hex digits.
    pub fn from_hex(text: &str) -> (r: Option<Self>)
        ensures
            match r {
                Some(token) => spec_hex_decode_32(text.spec_bytes()) == Some(token@),
                None => spec_hex_decode_32(text.spec_bytes()) is None,
            },
    {
        match hex_decode_32(text) {
            Some(bytes) => Some(AdminToken { bytes }),
            None => None,
        }
    }

    /// Compare `presented` with the token in time independent of where they differ.
    pub fn matches(&self, presented: &[u8]) -> (r: bool)
        ensures
            r == (self@ == presented@),
    {
        let n = self.bytes.len();
        if presented.len() != n {
            return false;
        }
        let mut diff: u8 = 0;
        let mut i: usize = 0;
        while i < n
            invariant
                n == self@.len(),
                n == presented@.len(),
                i <= n,
                (diff == 0) <==> (forall|j: int| 0 <= j < i ==> self@[j] == presented@[j]),
            decreases n - i,
        {
            let x = self.bytes[i];
            let y = presented[i];
            let next = diff | (x ^ y);
            assert((next == 0) <==> (diff == 0 && x == y)) by (bit_vector)
                requires
                    next == diff | (x ^ y),
            ;
            diff = next;
            i += 1;
        }
        if diff == 0 {
            assert(self@ =~= presented@);
            true
        } else {
            false
        }
    }
}

/// How the admin API authenticates operators.
pub enum AdminAuth {
    /// `Authorization: Bearer <64 hex>` matching the configured token.
    Token(AdminToken),
    /// No credential is required.
    Disabled,
    /// `Authorization: Nostr <base64 NIP-98 event>` signed by an allowlisted key.
    Nip98 {
        /// Allowlisted public keys, as hex.
        pubkeys: Vec<String>,
    },
}

/// Admin API configuration.
pub struct AdminConfig {
    /// Host that serves the admin API.
    pub host: String,
    /// Operator authentication mode.
    pub auth: AdminAuth,
}

/// The text of the only `Authorization` value, when there is exactly one and
/// it is visible ASCII (`None` entries stand for values that are not).
pub open spec fn single_header_text(values: Seq<Option<String>>) -> Option<Seq<char>> {
    if values.len() == 1 && values[0] is Some {
        Some(values[0]->0@)
    } else {
        None
    }
}

/// The bearer credential is accepted: exactly one `Authorization` value, a
/// `Bearer` credential of 64 hex digits, decoding to the token.
pub open spec fn spec_bearer_accepted(token: Seq<u8>, values: Seq<Option<String>>) -> bool {
    match single_header_text(values) {
        Some(text) => match spec_scheme_credential(text, "Bearer"@) {
            Some(credential) => spec_hex_decode_32(encode_utf8(credential)) == Some(token),
            None => false,
        },
        None => false,
    }
}

/// Require exactly one `Authorization: Bearer <64 hex>` value matching the
/// configured operator token. Every rejection is the same `Unauthorized`.
pub fn authorize_bearer(token: &AdminToken, authorization: &Vec<Option<String>>) -> (r: Result<
    (),
    AdminRejection,
>)
    ensures
        r is Ok <==> spec_bearer_accepted(token@, authorization@),
        r is Err ==> r == Err::<(), AdminRejection>(AdminRejection::Unauthorized),
{
    if authorization.len() != 1 {
        return Err(AdminRejection::Unauthorized);
    }
    let value = match &authorization[0] {
        Some(value) => value,
        None => {
            return Err(AdminRejection::Unauthorized);
        },
    };
    let credential = match bearer_credential(value.as_str()) {
        Some(credential) => credential,
        None => {
            return Err(AdminRejection::Unauthorized);
        },
    };
    let presented = match hex_decode_32(credential) {
        Some(presented) => presented,
        None => {
            return Err(AdminRejection::Unauthorized);
        },
    };
    if token.matches(presented.as_slice()) {
        Ok(())
    } else {
        Err(AdminRejection::Unauthorized)
    }
}

/// The NIP-98 event JSON carried by the request: exactly one `Authorization`
/// value with a `Nostr` credential that is standard base64 of UTF-8 text.
pub open spec fn spec_nip98_event_json(values: Seq<Option<String>>) -> Option<Seq<char>> {
    match single_header_text(values) {
        Some(text) => match spec_scheme_credential(text, "Nostr"@) {
            Some(credential) => match base64_standard_decoding(encode_utf8(credential)) {
                Some(bytes) => if valid_utf8(bytes) {
                    Some(decode_utf8(bytes))
                } else {
                    None
                },
                None => None,
            },
            None => None,
        },
        None => None,
    }
}

/// Extract the NIP-98 event JSON from the `Authorization` values; every
/// failure is `UnauthorizedNostr`.
pub fn nip98_event_json(authorization: &Vec<Option<String>>) -> (r: Result<String, AdminRejection>)
    ensures
        match r {
            Ok(json) => spec_nip98_event_json(authorization@) == Some(json@),
            Err(e) => spec_nip98_event_json(authorization@) is None && e
                == AdminRejection::UnauthorizedNostr,
        },
{
    if authorization.len() != 1 {
        return Err(AdminRejection::UnauthorizedNostr);
    }
    let value = match &authorization[0] {
        Some(value) => value,
        None => {
            return Err(AdminRejection::UnauthorizedNostr);
        },
    };
    let credential = match nostr_credential(value.as_str()) {
        Some(credential) => credential,
        None => {
            return Err(AdminRejection::UnauthorizedNostr);
        },
    };
    let bytes = match decode_base64_standard(credential) {
        Some(bytes) => bytes,
        None => {
            return Err(AdminRejection::UnauthorizedNostr);
        },
    };
    match string_from_utf8(bytes) {
        Some(json) => Ok(json),
        None => Err(AdminRejection::UnauthorizedNostr),
    }
}

/// Accept a verified NIP-98 signer only when its hex key is allowlisted.
pub fn nip98_pubkey_allowed(pubkeys: &Vec<String>, pubkey_hex: &str) -> (r: Result<(), AdminRejection>)
    ensures
        r is Ok <==> exists|i: int| 0 <= i < pubkeys@.len() && pubkeys@[i]@ == pubkey_hex@,
        r is Err ==> r == Err::<(), AdminRejection>(AdminRejection::UnauthorizedNostr),
{
    let n = pubkeys.len();
    let mut i: usize = 0;
    while i < n
        invariant
            n == pubkeys@.len(),
            i <= n,
            forall|j: int| 0 <= j < i ==> pubkeys@[j]@ != pubkey_hex@,
        decreases n - i,
    {
        if str_eq(pubkeys[i].as_str(), pubkey_hex) {
            return Ok(());
        }
        i += 1;
    }
    Err(AdminRejection::UnauthorizedNostr)
}

/// Result of the credential stage of an admin request.
pub enum AdminCredential {
    /// The credential was accepted (or none is configured).
    Accepted,
    /// NIP-98 mode: the event must still be verified against
    /// [`nip98_expected_url`], checked by the replay guard, and its signer
    /// checked with [`nip98_pubkey_allowed`].
    Nip98Pending {
        /// Decoded event JSON.
        event_json: String,
    },
}

/// Credential stage of an admin request: `NotFound` without admin
/// configuration, then the configured mode's credential check.
pub fn admin_credential_stage(config: Option<&AdminConfig>, authorization: &Vec<Option<String>>) -> (r:
    Result<AdminCredential, AdminRejection>)
    ensures
        config is None ==> r == Err::<AdminCredential, AdminRejection>(AdminRejection::NotFound),
        config matches Some(c) ==> match c.auth {
            AdminAuth::Token(token) => (r is Ok <==> spec_bearer_accepted(token@, authorization@)) && (
            r matches Ok(a) ==> a is Accepted) && (r is Err ==> r == Err::<
                AdminCredential,
                AdminRejection,
            >(AdminRejection::Unauthorized)),
            AdminAuth::Disabled => r matches Ok(a) && a is Accepted,
            AdminAuth::Nip98 { .. } => match r {
                Ok(AdminCredential::Nip98Pending { event_json }) => spec_nip98_event_json(
                    authorization@,
                ) == Some(event_json@),
                Ok(AdminCredential::Accepted) => false,
                Err(e) => spec_nip98_event_json(authorization@) is None && e
                    == AdminRejection::UnauthorizedNostr,
            },
        },
{
    let config = match config {
        Some(config) => config,
        None => {
            return Err(AdminRejection::NotFound);
        },
    };
    match &config.auth {
        AdminAuth::Token(token) => {
            authorize_bearer(token, authorization)?;
            Ok(AdminCredential::Accepted)
        },
        AdminAuth::Disabled => Ok(AdminCredential::Accepted),
        AdminAuth::Nip98 { .. } => {
            let event_json = nip98_event_json(authorization)?;
            Ok(AdminCredential::Nip98Pending { event_json })
        },
    }
}

/// Host and browser-origin stage, after the credential was accepted: the
/// `Host` must name the admin host (`Forbidden` otherwise), and an `Origin`
/// header, when present, must be visible ASCII naming that host.
/// `origin_header` is `None` without an `Origin` header and `Some(None)` for
/// one that is not visible ASCII.
pub fn admin_host_stage(
    config_host: &str,
    host_header: Option<&str>,
    origin_header: Option<Option<&str>>,
) -> (r: Result<(), AdminRejection>)
    ensures
        r is Ok <==> (host_header is Some && host_header->0@ == config_host@ && match origin_header {
            None => true,
            Some(None) => false,
            Some(Some(origin)) => spec_origin_matches_host(origin@, config_host@),
        }),
        r is Err ==> r == Err::<(), AdminRejection>(AdminRejection::Forbidden),
{
    if !is_admin_host(Some(config_host), host_header) {
        return Err(AdminRejection::Forbidden);
    }
    match origin_header {
        None => Ok(()),
        Some(None) => Err(AdminRejection::Forbidden),
        Some(Some(origin)) => if origin_matches_host(origin, config_host) {
            Ok(())
        } else {
            Err(AdminRejection::Forbidden)
        },
    }
}

/// What the NIP-98 checks made outside the library reported for a pending
/// event: signature, timestamp, `u` tag and `method` tag verification, then
/// the deployment-scoped replay guard.
pub enum Nip98Evidence {
    /// The event did not verify for the expected URL and method.
    Unverified,
    /// The event verified.
    Verified {
        /// Signer's public key, as hex.
        pubkey_hex: String,
        /// The replay guard's answer: `Some(true)` on first use,
        /// `Some(false)` for a replay, `None` when the guard failed.
        replay: Option<bool>,
    },
}

/// Whether `pubkey` is allowlisted by the configured authentication mode
/// (every key passes outside NIP-98 mode).
pub open spec fn spec_pubkey_allowlisted(auth: AdminAuth, pubkey: Seq<char>) -> bool {
    match auth {
        AdminAuth::Nip98 { pubkeys } => exists|i: int|
            0 <= i < pubkeys@.len() && pubkeys@[i]@ == pubkey,
        _ => true,
    }
}

/// NIP-98 stage of a pending event: it passes only when the event verified,
/// the replay guard reported a first use, and the signer is allowlisted.
/// Anything else, a replay or a guard failure included, is `UnauthorizedNostr`.
pub open spec fn spec_nip98_stage(auth: AdminAuth, evidence: Option<Nip98Evidence>) -> Result<
    (),
    AdminRejection,
> {
    match evidence {
        Some(Nip98Evidence::Verified { pubkey_hex, replay: Some(true) }) => if spec_pubkey_allowlisted(
            auth,
            pubkey_hex@,
        ) {
            Ok(())
        } else {
            Err(AdminRejection::UnauthorizedNostr)
        },
        _ => Err(AdminRejection::UnauthorizedNostr),
    }
}

/// The answer to an admin request, stage by stage: the credential stage's
/// rejection comes first; then `NotFound` without configuration; then, for a
/// pending NIP-98 event, the NIP-98 stage; the Host/Origin stage's result is
/// the answer only once all of these passed.
pub open spec fn spec_admin_decision(
    config: Option<&AdminConfig>,
    credential: Result<AdminCredential, AdminRejection>,
    evidence: Option<Nip98Evidence>,
    host: Result<(), AdminRejection>,
) -> Result<(), AdminRejection> {
    match credential {
        Err(e) => Err(e),
        Ok(cred) => match config {
            None => Err(AdminRejection::NotFound),
            Some(c) => match cred {
                AdminCredential::Accepted => host,
                AdminCredential::Nip98Pending { .. } => match spec_nip98_stage(c.auth, evidence) {
                    Err(e) => Err(e),
                    Ok(()) => host,
                },
            },
        },
    }
}

/// Combine the stages of an admin request into its answer. `credential` is
/// the result of [`admin_credential_stage`]; `evidence` reports the NIP-98
/// verification and replay guard for a pending event; `host` is the result of
/// [`admin_host_stage`]. The credential is decided first, so an
/// unauthenticated caller learns nothing about the expected Host or Origin.
pub fn admin_request_decision(
    config: Option<&AdminConfig>,
    credential: Result<AdminCredential, AdminRejection>,
    evidence: Option<Nip98Evidence>,
    host: Result<(), AdminRejection>,
) -> (r: Result<(), AdminRejection>)
    ensures
        r == spec_admin_decision(config, credential, evidence, host),
{
    let cred = match credential {
        Err(e) => {
            return Err(e);
        },
        Ok(cred) => cred,
    };
    let config = match config {
        None => {
            return Err(AdminRejection::NotFound);
        },
        Some(c) => c,
    };
    match cred {
        AdminCredential::Accepted => host,
        AdminCredential::Nip98Pending { .. } => {
            let (pubkey_hex, replay) = match evidence {
                Some(Nip98Evidence::Verified { pubkey_hex, replay }) => (pubkey_hex, replay),
                _ => {
                    return Err(AdminRejection::UnauthorizedNostr);
                },
            };
            match replay {
                Some(true) => {},
                _ => {
                    return Err(AdminRejection::UnauthorizedNostr);
                },
            }
            if let AdminAuth::Nip98 { pubkeys } = &config.auth {
                nip98_pubkey_allowed(pubkeys, pubkey_hex.as_str())?;
            }
            host
        },
    }
}

/// The credential stage takes precedence: when it rejects, the answer is its
/// rejection whatever the NIP-98 evidence and the Host/Origin stage say.
pub proof fn lemma_credential_rejection_precedes_host(
    config: Option<&AdminConfig>,
    rejection: AdminRejection,
    evidence_a: Option<Nip98Evidence>,
    evidence_b: Option<Nip98Evidence>,
    host_a: Result<(), AdminRejection>,
    host_b: Result<(), AdminRejection>,
)
    ensures
        spec_admin_decision(config, Err(rejection), evidence_a, host_a) == Err::<(), AdminRejection>(
            rejection,
        ),
        spec_admin_decision(config, Err(rejection), evidence_a, host_a) == spec_admin_decision(
            config,
            Err(rejection),
            evidence_b,
            host_b,
        ),
{
}

/// The NIP-98 stage fails closed: for a pending event that did not verify,
/// was replayed, or met a failing replay guard, the answer is
/// `UnauthorizedNostr` whatever the Host/Origin stage says.
pub proof fn lemma_nip98_fails_closed(
    config: &AdminConfig,
    event_json: String,
    evidence: Option<Nip98Evidence>,
    host: Result<(), AdminRejection>,
)
    requires
        !(evidence matches Some(Nip98Evidence::Verified { replay: Some(true), .. })),
    ensures
        spec_admin_decision(
            Some(config),
            Ok(AdminCredential::Nip98Pending { event_json }),
            evidence,
            host,
        ) == Err::<(), AdminRejection>(AdminRejection::UnauthorizedNostr),
{
}

/// An admin request is answered `Ok` only when every stage passed: the
/// credential was accepted, a pending NIP-98 event verified, was fresh and
/// allowlisted, and the Host/Origin stage passed.
pub proof fn lemma_admin_ok_needs_every_stage(
    config: Option<&AdminConfig>,
    credential: Result<AdminCredential, AdminRejection>,
    evidence: Option<Nip98Evidence>,
    host: Result<(), AdminRejection>,
)
    requires
        spec_admin_decision(config, credential, evidence, host) is Ok,
    ensures
        credential is Ok,
        config is Some,
        host is Ok,
        credential matches Ok(AdminCredential::Nip98Pending { .. }) ==> (evidence matches Some(
            Nip98Evidence::Verified { pubkey_hex, replay: Some(true) },
        ) && spec_pubkey_allowlisted(config->0.auth, pubkey_hex@)),
{
}

} // verus!
