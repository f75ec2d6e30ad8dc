use buzz_auth::desktop::agents::{
    archive_needs_owner_auth_tag, find_agent_record, outbox_evidence_result, owner_auth_tag_elements,
    profile_reconcile_enabled, InsertEventOutcome, OutboxEvidenceSource,
};
use buzz_auth::desktop::recovery::{
    boot_recovery_step, plan_boot_recovery, NonterminalOperation, RecoveryStep,
};
use buzz_auth::desktop::upload::{upload_chunk_count, upload_chunk_range, UPLOAD_CHUNK_SIZE};

#[test]
fn upload_chunks_cover_the_body_in_order() {
    assert_eq!(upload_chunk_count(0), 0);
    assert_eq!(upload_chunk_count(1), 1);
    assert_eq!(upload_chunk_count(UPLOAD_CHUNK_SIZE), 1);
    assert_eq!(upload_chunk_count(UPLOAD_CHUNK_SIZE + 1), 2);
    let total = 3 * UPLOAD_CHUNK_SIZE + 10;
    let count = upload_chunk_count(total);
    assert_eq!(count, 4);
    let mut expected_start = 0;
    for index in 0..count {
        let (start, end) = upload_chunk_range(total, index);
        assert_eq!(start, expected_start);
        assert!(end - start <= UPLOAD_CHUNK_SIZE);
        expected_start = end;
    }
    assert_eq!(expected_start, total);
    assert_eq!(upload_chunk_range(total, 3), (3 * UPLOAD_CHUNK_SIZE, total));
}

fn op(kind: &str, outbox: Option<Vec<i64>>) -> NonterminalOperation {
    NonterminalOperation { kind: kind.to_string(), outbox_states: outbox }
}

#[test]
fn boot_recovery_fails_without_evidence_and_commits_when_published() {
    assert_eq!(boot_recovery_step("publish", None), RecoveryStep::Skip);
    assert_eq!(boot_recovery_step("keyring_write", Some(&vec![])), RecoveryStep::MarkFailed);
    assert_eq!(boot_recovery_step("publish", Some(&vec![])), RecoveryStep::MarkFailed);
    assert_eq!(boot_recovery_step("publish", Some(&vec![1, 0])), RecoveryStep::AwaitRedrive);
    assert_eq!(boot_recovery_step("publish", Some(&vec![1, 1])), RecoveryStep::MarkCommitted);
    assert_eq!(
        boot_recovery_step("keyring_write", Some(&vec![1])),
        RecoveryStep::MarkCommitted
    );

    let plan = plan_boot_recovery(&vec![
        op("keyring_write", Some(vec![])),
        op("publish", Some(vec![0])),
        op("archive", None),
        op("tombstone", Some(vec![1])),
        op("publish", Some(vec![])),
    ]);
    assert_eq!(
        plan.steps,
        vec![
            RecoveryStep::MarkFailed,
            RecoveryStep::AwaitRedrive,
            RecoveryStep::Skip,
            RecoveryStep::MarkCommitted,
            RecoveryStep::MarkFailed,
        ]
    );
    assert_eq!(plan.re_driven, 1);
    assert_eq!(plan.failed, 2);
    assert_eq!(plan.resubmit, vec![(1, 0)]);
}

#[test]
fn boot_recovery_resubmits_every_pending_event_in_journal_order() {
    let plan = plan_boot_recovery(&vec![
        op("publish", Some(vec![1, 0, 0])),
        op("archive", None),
        op("tombstone", Some(vec![2, 3])),
        op("publish", Some(vec![0, 5, 0])),
        op("keyring_write", Some(vec![])),
    ]);
    assert_eq!(
        plan.steps,
        vec![
            RecoveryStep::AwaitRedrive,
            RecoveryStep::Skip,
            RecoveryStep::MarkCommitted,
            RecoveryStep::AwaitRedrive,
            RecoveryStep::MarkFailed,
        ]
    );
    assert_eq!(plan.resubmit, vec![(0, 1), (0, 2), (3, 0), (3, 2)]);
    assert_eq!(plan.re_driven, 2);
    assert_eq!(plan.failed, 1);

    let settled = plan_boot_recovery(&vec![op("publish", Some(vec![1])), op("archive", None)]);
    assert!(settled.resubmit.is_empty());
    assert_eq!(settled.re_driven, 0);
}

#[test]
fn agent_settings_lookup_and_archive_tags() {
    assert!(!profile_reconcile_enabled(true));
    assert!(profile_reconcile_enabled(false));
    let pubkeys = vec!["aa".to_string(), "bb".to_string(), "bb".to_string()];
    assert_eq!(find_agent_record(&pubkeys, "bb"), Ok(1));
    assert_eq!(find_agent_record(&pubkeys, "cc"), Err("agent cc not found".to_string()));
    assert!(!archive_needs_owner_auth_tag("ABCDEF", "abcdef"));
    assert!(archive_needs_owner_auth_tag("abcdef", "abcde0"));
    let parts: Vec<String> = ["auth", "a", "b", "c"].iter().map(|s| s.to_string()).collect();
    assert_eq!(owner_auth_tag_elements(parts.clone()), Ok(parts));
    assert_eq!(
        owner_auth_tag_elements(vec!["auth".to_string()]),
        Err("owner auth tag must have four elements".to_string())
    );
}

#[test]
fn outbox_identity_collision_is_an_error_with_its_helper_message() {
    assert_eq!(
        outbox_evidence_result(InsertEventOutcome::Inserted, OutboxEvidenceSource::Retain, "e1", "op1"),
        Ok(())
    );
    assert_eq!(
        outbox_evidence_result(InsertEventOutcome::ExactDuplicate, OutboxEvidenceSource::Archive, "e1", "op1"),
        Ok(())
    );
    assert_eq!(
        outbox_evidence_result(InsertEventOutcome::IdentityCollision, OutboxEvidenceSource::Retain, "e1", "op1"),
        Err("agent-retain: outbox identity collision on event e1 (op op1)".to_string())
    );
    assert_eq!(
        outbox_evidence_result(InsertEventOutcome::IdentityCollision, OutboxEvidenceSource::Tombstone, "e2", "op2"),
        Err("agent-tombstone: outbox identity collision on event e2".to_string())
    );
    assert_eq!(
        outbox_evidence_result(InsertEventOutcome::IdentityCollision, OutboxEvidenceSource::Archive, "e3", "op3"),
        Err("agent-archive: outbox identity collision on event e3".to_string())
    );
}
