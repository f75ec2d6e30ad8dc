//! Boot-recovery decisions for nonterminal store-journal operations.

use vstd::prelude::*;

use crate::text::str_eq;

verus! {

/// What boot recovery does with one nonterminal journal operation.
#[derive(Clone, Copy, PartialEq, Eq, Structural, Debug)]
pub enum RecoveryStep {
    /// Its outbox could not be read; leave it untouched for the next boot.
    Skip,
    /// No outbox evidence exists: advance it to `failed`.
    MarkFailed,
    /// Every outbox event is published: advance it to `committed`.
    MarkCommitted,
    /// Some outbox event is still pending (state 0): its pending events are
    /// re-submitted and the operation stays nonterminal, so a later boot (or
    /// the flush loop) can retry it.
    AwaitRedrive,
}

/// Outbox state of a published event is non-zero; 0 means pending.
pub open spec fn any_pending(states: Seq<i64>) -> bool {
    exists|i: int| 0 <= i < states.len() && states[i] == 0
}

/// The step for an operation of `kind` whose outbox event states were read
/// (`None`: the outbox could not be read). A `keyring_write` without outbox
/// events is failed whatever its inbox holds, as is any operation without
/// outbox events.
pub open spec fn spec_recovery_step(kind: Seq<char>, outbox: Option<Seq<i64>>) -> RecoveryStep {
    match outbox {
        None => RecoveryStep::Skip,
        Some(states) => if states.len() == 0 {
            RecoveryStep::MarkFailed
        } else if any_pending(states) {
            RecoveryStep::AwaitRedrive
        } else {
            RecoveryStep::MarkCommitted
        },
    }
}

/// Decide what boot recovery does with one nonterminal operation.
pub fn boot_recovery_step(kind: &str, outbox_states: Option<&Vec<i64>>) -> (r: RecoveryStep)
    ensures
        r == spec_recovery_step(
            kind@,
            match outbox_states {
                Some(v) => Some(v@),
                None => None,
            },
        ),
{
    let states = match outbox_states {
        Some(states) => states,
        None => {
            return RecoveryStep::Skip;
        },
    };
    if str_eq(kind, "keyring_write") && states.len() == 0 {
        return RecoveryStep::MarkFailed;
    }
    if states.len() == 0 {
        return RecoveryStep::MarkFailed;
    }
    let n = states.len();
    let mut pending = false;
    let mut i: usize = 0;
    while i < n
        invariant
            n == states@.len(),
            i <= n,
            pending <==> exists|j: int| 0 <= j < i && states@[j] == 0,
        decreases n - i,
    {
        if states[i] == 0 {
            pending = true;
        }
        i += 1;
    }
    if pending {
        RecoveryStep::AwaitRedrive
    } else {
        RecoveryStep::MarkCommitted
    }
}

/// One nonterminal operation as read from the journal.
pub struct NonterminalOperation {
    /// Operation kind, such as `keyring_write` or `publish`.
    pub kind: String,
    /// Published states of its outbox events, or `None` when they could not be read.
    pub outbox_states: Option<Vec<i64>>,
}

/// The view of an operation's outbox states.
pub open spec fn outbox_view(op: NonterminalOperation) -> Option<Seq<i64>> {
    match op.outbox_states {
        Some(v) => Some(v@),
        None => None,
    }
}

/// Number of operations among the first `n` whose step is `step`.
pub open spec fn count_steps(ops: Seq<NonterminalOperation>, n: int, step: RecoveryStep) -> nat
    decreases n,
{
    if n <= 0 {
        0
    } else {
        count_steps(ops, n - 1, step) + if spec_recovery_step(ops[n - 1].kind@, outbox_view(ops[n - 1]))
            == step {
            1nat
        } else {
            0nat
        }
    }
}

/// Positions `(op_index, j)` of the pending events (state 0) among the first
/// `m` outbox events of operation `op_index`, in outbox order.
pub open spec fn pending_events(op_index: int, states: Seq<i64>, m: int) -> Seq<(int, int)>
    decreases m,
{
    if m <= 0 {
        Seq::empty()
    } else {
        pending_events(op_index, states, m - 1) + if states[m - 1] == 0 {
            seq![(op_index, m - 1)]
        } else {
            Seq::empty()
        }
    }
}

/// The outbox events to re-submit among the first `n` operations: every
/// pending event of every operation whose outbox was read, in journal order.
pub open spec fn resubmissions(ops: Seq<NonterminalOperation>, n: int) -> Seq<(int, int)>
    decreases n,
{
    if n <= 0 {
        Seq::empty()
    } else {
        resubmissions(ops, n - 1) + match outbox_view(ops[n - 1]) {
            Some(states) => pending_events(n - 1, states, states.len() as int),
            None => Seq::empty(),
        }
    }
}

/// The view of a list of `(operation, event)` positions.
pub open spec fn positions_view(v: Seq<(usize, usize)>) -> Seq<(int, int)> {
    v.map_values(|p: (usize, usize)| (p.0 as int, p.1 as int))
}

/// A boot-recovery plan: one step per operation, in order; the outbox events
/// to re-submit, as `(operation index, outbox event index)`; the number of
/// operations left nonterminal for re-drive and the number marked failed.
pub struct RecoveryPlan {
    pub steps: Vec<RecoveryStep>,
    pub resubmit: Vec<(usize, usize)>,
    pub re_driven: usize,
    pub failed: usize,
}

proof fn lemma_count_bounded(ops: Seq<NonterminalOperation>, n: int, step: RecoveryStep)
    requires
        0 <= n,
    ensures
        count_steps(ops, n, step) <= n,
    decreases n,
{
    if n > 0 {
        lemma_count_bounded(ops, n - 1, step);
    }
}

/// Plan boot recovery for all nonterminal operations.
pub fn plan_boot_recovery(ops: &Vec<NonterminalOperation>) -> (r: RecoveryPlan)
    ensures
        r.steps@.len() == ops@.len(),
        forall|i: int|
            0 <= i < ops@.len() ==> r.steps@[i] == spec_recovery_step(
                ops@[i].kind@,
                outbox_view(ops@[i]),
            ),
        r.re_driven == count_steps(ops@, ops@.len() as int, RecoveryStep::AwaitRedrive),
        r.failed == count_steps(ops@, ops@.len() as int, RecoveryStep::MarkFailed),
        positions_view(r.resubmit@) == resubmissions(ops@, ops@.len() as int),
{
    let n = ops.len();
    let mut steps: Vec<RecoveryStep> = Vec::new();
    let mut resubmit: Vec<(usize, usize)> = Vec::new();
    let mut re_driven: usize = 0;
    let mut failed: usize = 0;
    let mut i: usize = 0;
    while i < n
        invariant
            n == ops@.len(),
            i <= n,
            steps@.len() == i,
            forall|j: int|
                0 <= j < i ==> steps@[j] == spec_recovery_step(ops@[j].kind@, outbox_view(ops@[j])),
            re_driven == count_steps(ops@, i as int, RecoveryStep::AwaitRedrive),
            failed == count_steps(ops@, i as int, RecoveryStep::MarkFailed),
            positions_view(resubmit@) == resubmissions(ops@, i as int),
        decreases n - i,
    {
        let op = &ops[i];
        if let Some(states) = &op.outbox_states {
            let m = states.len();
            let ghost before = positions_view(resubmit@);
            let mut j: usize = 0;
            while j < m
                invariant
                    m == states@.len(),
                    j <= m,
                    i < n,
                    positions_view(resubmit@) == before + pending_events(i as int, states@, j as int),
                decreases m - j,
            {
                if states[j] == 0 {
                    let ghost old_view = positions_view(resubmit@);
                    resubmit.push((i, j));
                    assert(positions_view(resubmit@) =~= old_view.push((i as int, j as int)));
                    assert(pending_events(i as int, states@, j + 1) =~= pending_events(
                        i as int,
                        states@,
                        j as int,
                    ).push((i as int, j as int)));
                } else {
                    assert(pending_events(i as int, states@, j + 1) =~= pending_events(
                        i as int,
                        states@,
                        j as int,
                    ));
                }
                assert(positions_view(resubmit@) =~= before + pending_events(i as int, states@, j + 1));
                j += 1;
            }
            assert(outbox_view(ops@[i as int]) == Some(states@));
            assert(resubmissions(ops@, i + 1) =~= resubmissions(ops@, i as int) + pending_events(
                i as int,
                states@,
                m as int,
            ));
        } else {
            assert(resubmissions(ops@, i + 1) =~= resubmissions(ops@, i as int));
        }
        let step = match &op.outbox_states {
            Some(states) => boot_recovery_step(op.kind.as_str(), Some(states)),
            None => boot_recovery_step(op.kind.as_str(), None),
        };
        proof {
            lemma_count_bounded(ops@, i as int, RecoveryStep::AwaitRedrive);
            lemma_count_bounded(ops@, i as int, RecoveryStep::MarkFailed);
        }
        match step {
            RecoveryStep::AwaitRedrive => {
                re_driven = re_driven + 1;
            },
            RecoveryStep::MarkFailed => {
                failed = failed + 1;
            },
            _ => {},
        }
        steps.push(step);
        i += 1;
    }
    RecoveryPlan { steps, resubmit, re_driven, failed }
}


/// Boot recovery commits an operation only when it has outbox events and all
/// of them are published, marks it failed exactly when its readable outbox
/// is empty, leaves it alone when its outbox cannot be read, and counts at
/// most one of re-driven or failed per operation.
pub proof fn lemma_recovery_plan_is_sound(ops: Seq<NonterminalOperation>, n: int)
    requires
        0 <= n <= ops.len(),
    ensures
        count_steps(ops, n, RecoveryStep::AwaitRedrive) + count_steps(
            ops,
            n,
            RecoveryStep::MarkFailed,
        ) <= n,
        forall|i: int|
            #![trigger spec_recovery_step(ops[i].kind@, outbox_view(ops[i]))]
            0 <= i < ops.len() ==> {
                let step = spec_recovery_step(ops[i].kind@, outbox_view(ops[i]));
                &&& (step == RecoveryStep::MarkCommitted) <==> (outbox_view(ops[i]) matches Some(
                    states,
                ) && states.len() > 0 && !any_pending(states))
                &&& (step == RecoveryStep::MarkFailed) <==> (outbox_view(ops[i]) matches Some(
                    states,
                ) && states.len() == 0)
                &&& (step == RecoveryStep::Skip) <==> outbox_view(ops[i]) is None
            },
    decreases n,
{
    if n > 0 {
        lemma_recovery_plan_is_sound(ops, n - 1);
    }
}

proof fn lemma_pending_events(op_index: int, states: Seq<i64>, m: int)
    requires
        0 <= m <= states.len(),
    ensures
        forall|k: int|
            0 <= k < pending_events(op_index, states, m).len() ==> {
                let p = #[trigger] pending_events(op_index, states, m)[k];
                &&& p.0 == op_index
                &&& 0 <= p.1 < m
                &&& states[p.1] == 0
            },
        forall|j: int|
            0 <= j < m && states[j] == 0 ==> #[trigger] pending_events(op_index, states, m).contains(
                (op_index, j),
            ),
    decreases m,
{
    if m > 0 {
        lemma_pending_events(op_index, states, m - 1);
        let prev = pending_events(op_index, states, m - 1);
        let cur = pending_events(op_index, states, m);
        assert forall|j: int| 0 <= j < m && states[j] == 0 implies #[trigger] cur.contains(
            (op_index, j),
        ) by {
            if j < m - 1 {
                assert(prev.contains((op_index, j)));
                let k = choose|k: int| 0 <= k < prev.len() && prev[k] == (op_index, j);
                assert(cur[k] == prev[k]);
            } else {
                assert(cur[prev.len() as int] == (op_index, j));
            }
        }
    }
}

/// Boot recovery re-submits exactly the pending outbox events of the
/// operations it leaves for re-drive: every planned re-submission names a
/// pending event (state 0) of an operation whose step is `AwaitRedrive`, and
/// every pending event of a readable outbox is planned for re-submission.
pub proof fn lemma_resubmits_exactly_pending_events(ops: Seq<NonterminalOperation>, n: int)
    requires
        0 <= n <= ops.len(),
    ensures
        forall|k: int|
            0 <= k < resubmissions(ops, n).len() ==> {
                let p = #[trigger] resubmissions(ops, n)[k];
                &&& 0 <= p.0 < n
                &&& spec_recovery_step(ops[p.0].kind@, outbox_view(ops[p.0]))
                    == RecoveryStep::AwaitRedrive
                &&& outbox_view(ops[p.0]) matches Some(states) && 0 <= p.1 < states.len()
                    && states[p.1] == 0
            },
        forall|i: int, j: int|
            0 <= i < n && (outbox_view(ops[i]) matches Some(states) && 0 <= j < states.len()
                && states[j] == 0) ==> #[trigger] resubmissions(ops, n).contains((i, j)),
    decreases n,
{
    if n > 0 {
        lemma_resubmits_exactly_pending_events(ops, n - 1);
        let prev = resubmissions(ops, n - 1);
        let cur = resubmissions(ops, n);
        let tail: Seq<(int, int)> = match outbox_view(ops[n - 1]) {
            Some(states) => pending_events(n - 1, states, states.len() as int),
            None => Seq::empty(),
        };
        assert(cur == prev + tail);
        if let Some(states) = outbox_view(ops[n - 1]) {
            lemma_pending_events(n - 1, states, states.len() as int);
        }
        assert forall|k: int| 0 <= k < cur.len() implies {
            let p = #[trigger] cur[k];
            &&& 0 <= p.0 < n
            &&& spec_recovery_step(ops[p.0].kind@, outbox_view(ops[p.0]))
                == RecoveryStep::AwaitRedrive
            &&& outbox_view(ops[p.0]) matches Some(states) && 0 <= p.1 < states.len()
                && states[p.1] == 0
        } by {
            if k < prev.len() {
                assert(cur[k] == prev[k]);
            } else {
                let t = k - prev.len();
                assert(cur[k] == tail[t]);
                let states = outbox_view(ops[n - 1])->0;
                assert(tail[t].0 == n - 1);
                assert(states[tail[t].1] == 0);
                assert(any_pending(states));
            }
        }
        assert forall|i: int, j: int|
            0 <= i < n && (outbox_view(ops[i]) matches Some(states) && 0 <= j < states.len()
                && states[j] == 0) implies #[trigger] cur.contains((i, j)) by {
            if i < n - 1 {
                assert(prev.contains((i, j)));
                let k = choose|k: int| 0 <= k < prev.len() && prev[k] == (i, j);
                assert(cur[k] == prev[k]);
            } else {
                assert(tail.contains((i, j)));
                let t = choose|t: int| 0 <= t < tail.len() && tail[t] == (i, j);
                assert(cur[prev.len() + t] == tail[t]);
            }
        }
    }
}

} // verus!
