# buzz_auth

Verified authorization logic for a Nostr relay and its desktop client.

- `src/context/`: verified identity evidence, federated-identity policy and
  binding references, and `AuthContext::finalize_v1`, which checks every
  piece of evidence against the tenant's domain and the resolved policy.
- `src/provider/`: capability sets, provider requests built from verified
  evidence (`AuthorizationRequest::direct` / `delegated`), and the fail-closed
  validation of a provider decision (`validate_provider_decision`).
- `src/admin.rs`, `src/codec.rs`: admin-API credential extraction (bearer
  token, NIP-98), the canonical NIP-98 URL, the Host / Origin checks, and
  `admin_request_decision`, which combines the stages in order.
- `src/redaction.rs`: the redaction-safe renderings (`redacted_debug`) of
  requests, decisions, snapshots and policy values.
- `src/desktop/`: upload chunking, boot recovery of the store journal, and
  managed-agent lookups.
- `app/`: the asynchronous edges (provider call under a deadline, admin
  request header handling).

Identifiers are plain values: UUIDs as `u128`, Nostr public keys as four
64-bit words, timestamps as Unix seconds.
