//! The workflow's laws, proved of the sequencer model [`model_step`] /
//! [`model_run`] and therefore, through [`crate::sequencer::Workflow::step`]'s
//! refinement, of every execution.

use vstd::prelude::*;

use crate::errors::WorkflowError;
use crate::identity::IdentityView;
use crate::plan::fully_populated;
use crate::sequencer::ActionView;
use crate::sequencer::EventView;
use crate::sequencer::Phase;
use crate::sequencer::WorkflowView;
use crate::sequencer::is_creation;
use crate::sequencer::model_run;
use crate::sequencer::model_step;

verus! {

/// One step of a workflow whose ledger is fully populated issues no creation
/// and leaves the ledger fully populated.
pub proof fn lemma_step_no_creation_when_populated(s: WorkflowView, ev: EventView)
    requires
        fully_populated(s.plan.records),
    ensures
        !is_creation(model_step(s, ev).1),
        fully_populated(model_step(s, ev).0.plan.records),
{
}

/// Idempotent short-circuit: a run over a ledger whose every resource record
/// is already populated issues zero creation calls, whatever the events.
pub proof fn lemma_idempotent_short_circuit(s: WorkflowView, evs: Seq<EventView>)
    requires
        fully_populated(s.plan.records),
    ensures
        fully_populated(model_run(s, evs).0.plan.records),
        forall|i: int|
            0 <= i < model_run(s, evs).1.len() ==> !is_creation(model_run(s, evs).1[i]),
    decreases evs.len(),
{
    if evs.len() > 0 {
        let (s1, a) = model_step(s, evs[0]);
        lemma_step_no_creation_when_populated(s, evs[0]);
        lemma_idempotent_short_circuit(s1, evs.skip(1));
        let (s2, rest) = model_run(s1, evs.skip(1));
        assert forall|i: int|
            0 <= i < model_run(s, evs).1.len() implies !is_creation(model_run(s, evs).1[i]) by {
            if i == 0 {
                assert(model_run(s, evs).1[0] == a);
            } else {
                assert(model_run(s, evs).1[i] == rest[i - 1]);
            }
        }
    }
}

/// A run emits exactly one action per event.
pub proof fn lemma_run_len(s: WorkflowView, evs: Seq<EventView>)
    ensures
        model_run(s, evs).1.len() == evs.len(),
    decreases evs.len(),
{
    if evs.len() > 0 {
        let (s1, a) = model_step(s, evs[0]);
        lemma_run_len(s1, evs.skip(1));
    }
}

/// A failed workflow absorbs every further event: the state never changes
/// again and the only action ever emitted is the recorded failure.
pub proof fn lemma_failed_absorbs(s: WorkflowView, err: WorkflowError, evs: Seq<EventView>)
    requires
        s.phase == Phase::Failed(err),
    ensures
        model_run(s, evs).0 == s,
        forall|i: int|
            0 <= i < model_run(s, evs).1.len() ==> model_run(s, evs).1[i] == (ActionView::Fail {
                error: err,
            }),
    decreases evs.len(),
{
    if evs.len() > 0 {
        let (s1, a) = model_step(s, evs[0]);
        lemma_failed_absorbs(s1, err, evs.skip(1));
        let (s2, rest) = model_run(s1, evs.skip(1));
        assert forall|i: int|
            0 <= i < model_run(s, evs).1.len() implies model_run(s, evs).1[i]
            == (ActionView::Fail { error: err }) by {
            if i == 0 {
                assert(model_run(s, evs).1[0] == a);
            } else {
                assert(model_run(s, evs).1[i] == rest[i - 1]);
            }
        }
    }
}

/// Identity guard, mismatch side: a run of a plan that recorded identity
/// `recorded`, observing a different identity, fetches the identity, fails
/// with `IdentityMismatch`, and never issues a creation call — the guard
/// blocks every creation, whatever events follow.
pub proof fn lemma_identity_guard(
    s: WorkflowView,
    recorded: IdentityView,
    observed: IdentityView,
    evs: Seq<EventView>,
)
    requires
        s.phase == Phase::Idle,
        s.plan.identity == Some(recorded),
        recorded != observed,
    ensures
        ({
            let run = model_run(s, seq![EventView::Start, EventView::GotIdentity(observed)] + evs);
            &&& run.1.len() == 2 + evs.len()
            &&& run.1[0] == ActionView::FetchIdentity
            &&& run.1[1] == (ActionView::Fail { error: WorkflowError::IdentityMismatch })
            &&& forall|i: int| 0 <= i < run.1.len() ==> !is_creation(run.1[i])
        }),
{
    let evs2 = seq![EventView::Start, EventView::GotIdentity(observed)] + evs;
    lemma_run_len(s, evs2);
    let (s1, a1) = model_step(s, evs2[0]);
    assert(evs2[0] == EventView::Start);
    let e1 = evs2.skip(1);
    assert(e1 =~= seq![EventView::GotIdentity(observed)] + evs);
    let (s2, a2) = model_step(s1, e1[0]);
    assert(e1[0] == EventView::GotIdentity(observed));
    assert(s2.phase == Phase::Failed(WorkflowError::IdentityMismatch));
    let e2 = e1.skip(1);
    assert(e2 =~= evs);
    lemma_failed_absorbs(s2, WorkflowError::IdentityMismatch, e2);
    let (s3, rest) = model_run(s2, e2);
    assert(model_run(s1, e1).1 == seq![a2] + rest);
    assert(model_run(s, evs2).1 == seq![a1] + (seq![a2] + rest));
    let run = model_run(s, evs2);
    assert(run.1[0] == a1);
    assert((seq![a2] + rest)[0] == a2);
    assert(run.1[1] == a2);
    assert forall|i: int| 0 <= i < run.1.len() implies !is_creation(run.1[i]) by {
        if i == 0 {
        } else {
            assert(run.1[i] == (seq![a2] + rest)[i - 1]);
            if i > 1 {
                assert((seq![a2] + rest)[i - 1] == rest[i - 2]);
            }
        }
    }
}

/// Identity guard, absent side: with no recorded identity the workflow
/// records the observed identity and proceeds to persist the ledger.
pub proof fn lemma_identity_recorded(s: WorkflowView, observed: IdentityView)
    requires
        s.phase == Phase::AwaitIdentity,
        s.plan.identity is None,
    ensures
        model_step(s, EventView::GotIdentity(observed)).0.plan.identity == Some(observed),
        model_step(s, EventView::GotIdentity(observed)).0.phase == Phase::AwaitInitialPersist,
        model_step(s, EventView::GotIdentity(observed)).1 == (ActionView::PersistLedger {
            remote: false,
        }),
{
}

/// Deferred cancellation: setting the cancellation flag changes no decision
/// of any in-flight step — every action that is not the final success,
/// including a pending poll's, is the same with the flag set.  The flag only
/// decides whether the successful finish carries the teardown hint; the run
/// still reports success.
pub proof fn lemma_deferred_cancellation(s: WorkflowView, ev: EventView)
    ensures
        ({
            let t = WorkflowView { cancelled: true, ..s };
            let (s1, a1) = model_step(s, ev);
            let (t1, a2) = model_step(t, ev);
            &&& t1 == (WorkflowView { cancelled: true, ..s1 })
            &&& (a1 is Finish <==> a2 is Finish)
            &&& (!(a1 is Finish) ==> a2 == a1)
            &&& (a1 is Finish ==> a1 == (ActionView::Finish { emit_teardown: s.cancelled }) && a2
                == (ActionView::Finish { emit_teardown: true }))
        }),
{
    let t = WorkflowView { cancelled: true, ..s };
    let (s1, a1) = model_step(s, ev);
    let (t1, a2) = model_step(t, ev);
    assert(t1 =~~= (WorkflowView { cancelled: true, ..s1 }));
}

/// The ledger is persisted before anything else happens after a mutation:
/// whenever a step changes the plan, the action it emits is exactly the
/// persist request.
pub proof fn lemma_mutation_persisted(s: WorkflowView, ev: EventView)
    ensures
        model_step(s, ev).0.plan != s.plan ==> model_step(s, ev).1 is PersistLedger,
{
}

} // verus!
