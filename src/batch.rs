//! Runs over a batch, one record after another.

use vstd::prelude::*;
use crate::store::StoreView;

verus! {

/// How many records of a batch were created, updated and failed.
pub struct Tally {
    pub created: nat,
    pub updated: nat,
    pub failed: nat,
}

impl Tally {
    pub open spec fn zero() -> Tally {
        Tally { created: 0, updated: 0, failed: 0 }
    }

    /// One more record, updated when `was_stored` and created otherwise.
    pub open spec fn count(self, was_stored: bool) -> Tally {
        if was_stored {
            Tally { updated: self.updated + 1, ..self }
        } else {
            Tally { created: self.created + 1, ..self }
        }
    }

    pub open spec fn fail(self) -> Tally {
        Tally { failed: self.failed + 1, ..self }
    }
}

/// Where a run over a batch stands: the store, the tally, and the id of the
/// server whose absence stopped the run, if one did.
pub struct Outcome {
    pub store: StoreView,
    pub tally: Tally,
    pub error: Option<Seq<char>>,
}

pub open spec fn start(v: StoreView) -> Outcome {
    Outcome { store: v, tally: Tally::zero(), error: None }
}

/// The outcome after the records `xs`, one `step` each, in order.
pub open spec fn run<T>(o: Outcome, xs: Seq<T>, step: spec_fn(Outcome, T) -> Outcome) -> Outcome
    decreases xs.len(),
{
    if xs.len() == 0 {
        o
    } else {
        step(run(o, xs.drop_last(), step), xs.last())
    }
}

pub proof fn lemma_run_step<T>(o: Outcome, xs: Seq<T>, step: spec_fn(Outcome, T) -> Outcome, i: int)
    requires
        0 <= i < xs.len(),
    ensures
        run(o, xs.subrange(0, i + 1), step) == step(run(o, xs.subrange(0, i), step), xs[i]),
{
    assert(xs.subrange(0, i + 1).drop_last() =~= xs.subrange(0, i));
}

pub proof fn lemma_run_all<T>(o: Outcome, xs: Seq<T>, step: spec_fn(Outcome, T) -> Outcome)
    ensures
        run(o, xs.subrange(0, xs.len() as int), step) == run(o, xs, step),
{
    assert(xs.subrange(0, xs.len() as int) =~= xs);
}

/// A step that leaves a stopped run alone keeps it stopped where it stopped.
pub proof fn lemma_run_stopped<T>(
    o: Outcome,
    xs: Seq<T>,
    step: spec_fn(Outcome, T) -> Outcome,
    i: int,
)
    requires
        0 <= i <= xs.len(),
        run(o, xs.subrange(0, i), step).error is Some,
        forall|q: Outcome, x: T| q.error is Some ==> #[trigger] step(q, x) == q,
    ensures
        run(o, xs, step) == run(o, xs.subrange(0, i), step),
    decreases xs.len() - i,
{
    if i == xs.len() {
        lemma_run_all(o, xs, step);
    } else {
        lemma_run_step(o, xs, step, i);
        lemma_run_stopped(o, xs, step, i + 1);
    }
}

} // verus!
