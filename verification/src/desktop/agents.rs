//! Managed-agent settings lookup and archive-request decisions.

use vstd::prelude::*;
use vstd::string::*;

use crate::text::{ascii_case_eq, str_eq, str_eq_ignore_ascii_case};

verus! {

/// Whether the profile reconciler runs: it is paused while managed profiles are enabled.
pub fn profile_reconcile_enabled(managed_profiles_enabled: bool) -> (r: bool)
    ensures
        r == !managed_profiles_enabled,
{
    !managed_profiles_enabled
}

/// Message of a failed lookup: `agent <pubkey> not found`.
pub open spec fn spec_agent_not_found(pubkey: Seq<char>) -> Seq<char> {
    "agent "@ + pubkey + " not found"@
}

/// Index of the first agent record whose public key is `pubkey`, or the
/// `agent <pubkey> not found` message.
pub fn find_agent_record(record_pubkeys: &Vec<String>, pubkey: &str) -> (r: Result<usize, String>)
    ensures
        match r {
            Ok(i) => i < record_pubkeys@.len() && record_pubkeys@[i as int]@ == pubkey@ && forall|
                j: int,
            |
                0 <= j < i ==> record_pubkeys@[j]@ != pubkey@,
            Err(message) => (forall|j: int|
                0 <= j < record_pubkeys@.len() ==> record_pubkeys@[j]@ != pubkey@) && message@
                == spec_agent_not_found(pubkey@),
        },
{
    let n = record_pubkeys.len();
    let mut i: usize = 0;
    while i < n
        invariant
            n == record_pubkeys@.len(),
            i <= n,
            forall|j: int| 0 <= j < i ==> record_pubkeys@[j]@ != pubkey@,
        decreases n - i,
    {
        if str_eq(record_pubkeys[i].as_str(), pubkey) {
            return Ok(i);
        }
        i += 1;
    }
    let mut message = String::from_str("agent ");
    message.append(pubkey);
    message.append(" not found");
    Err(message)
}

/// An archive request for an agent needs an owner auth tag unless the
/// signing owner's hex key is the agent's key (compared up to ASCII case).
pub fn archive_needs_owner_auth_tag(owner_pubkey_hex: &str, agent_pubkey: &str) -> (r: bool)
    ensures
        r == !ascii_case_eq(owner_pubkey_hex@, agent_pubkey@),
{
    !str_eq_ignore_ascii_case(owner_pubkey_hex, agent_pubkey)
}

/// An owner auth tag must have exactly four elements.
pub fn owner_auth_tag_elements(parts: Vec<String>) -> (r: Result<Vec<String>, String>)
    ensures
        parts@.len() == 4 <==> r is Ok,
        r matches Ok(tag) ==> tag@ == parts@,
        r matches Err(message) ==> message@ == "owner auth tag must have four elements"@,
{
    if parts.len() == 4 {
        Ok(parts)
    } else {
        Err(String::from_str("owner auth tag must have four elements"))
    }
}


/// Outcome of inserting an event into the journal outbox.
#[derive(Clone, Copy, PartialEq, Eq, Structural, Debug)]
pub enum InsertEventOutcome {
    /// The event was recorded.
    Inserted,
    /// The same event was already recorded.
    ExactDuplicate,
    /// Another payload is recorded under the same event identifier.
    IdentityCollision,
}

/// Helper that recorded the outbox evidence.
#[derive(Clone, Copy, PartialEq, Eq, Structural, Debug)]
pub enum OutboxEvidenceSource {
    /// Retention of an authored agent record, under a journal operation.
    Retain,
    /// Tombstone of a deleted agent.
    Tombstone,
    /// Archive request for a deleted agent.
    Archive,
}

/// Error text of an outbox identity collision for each helper.
pub open spec fn spec_collision_message(
    source: OutboxEvidenceSource,
    event_id: Seq<char>,
    operation_id: Seq<char>,
) -> Seq<char> {
    match source {
        OutboxEvidenceSource::Retain => "agent-retain: outbox identity collision on event "@
            + event_id + " (op "@ + operation_id + ")"@,
        OutboxEvidenceSource::Tombstone => "agent-tombstone: outbox identity collision on event "@
            + event_id,
        OutboxEvidenceSource::Archive => "agent-archive: outbox identity collision on event "@
            + event_id,
    }
}

/// Outbox evidence exists after an insert unless another payload already
/// holds the event identifier, which is an error and is never discarded.
pub fn outbox_evidence_result(
    outcome: InsertEventOutcome,
    source: OutboxEvidenceSource,
    event_id: &str,
    operation_id: &str,
) -> (r: Result<(), String>)
    ensures
        r is Ok <==> outcome != InsertEventOutcome::IdentityCollision,
        r matches Err(message) ==> message@ == spec_collision_message(
            source,
            event_id@,
            operation_id@,
        ),
{
    match outcome {
        InsertEventOutcome::Inserted | InsertEventOutcome::ExactDuplicate => Ok(()),
        InsertEventOutcome::IdentityCollision => {
            let mut message = match source {
                OutboxEvidenceSource::Retain => String::from_str("agent-retain: outbox identity collision on event "),
                OutboxEvidenceSource::Tombstone => String::from_str("agent-tombstone: outbox identity collision on event "),
                OutboxEvidenceSource::Archive => String::from_str("agent-archive: outbox identity collision on event "),
            };
            message.append(event_id);
            if source == OutboxEvidenceSource::Retain {
                message.append(" (op ");
                message.append(operation_id);
                message.append(")");
            }
            Err(message)
        },
    }
}

} // verus!
