//! Readiness polling: repeated host checks until the host reports ready.
//!
//! The real driver sits outside the library: it asks the host whether it is
//! ready, hands the answer to [`poll_step`], requests a repaint, and sleeps
//! for the configured interval before asking again, until [`poll_step`]
//! reports that polling is finished. [`run_poller`] drives the same step
//! against a finite script of host answers, one check and one repaint
//! request per answer, stopping at the first `true`; it is the loop the
//! tests exercise.

use vstd::prelude::*;

use crate::state::OfficeState;
use crate::state::StateView;

verus! {

/// Effect of one readiness check on the state: the flag latches as soon as
/// the host reports ready and is never cleared.
pub open spec fn spec_poll(s: StateView, host_ready: bool) -> StateView {
    StateView { ready: s.ready || host_ready, ..s }
}

/// Whether the host reports ready at least once in a script of answers.
pub open spec fn any_ready(answers: Seq<bool>) -> bool {
    exists|i: int| 0 <= i < answers.len() && answers[i]
}

/// How many checks a poll run makes against a script of host answers: one
/// per answer up to and including the first `true`, or one per answer if
/// the host never reports ready.
pub open spec fn checks_needed(answers: Seq<bool>) -> int
    decreases answers.len(),
{
    if answers.len() == 0 {
        0
    } else if answers[0] {
        1
    } else {
        1 + checks_needed(answers.drop_first())
    }
}

/// One readiness check: merges the host's answer into the state and says
/// whether polling is finished. Only the readiness flag can change, and
/// only from false to true.
pub fn poll_step(state: &mut OfficeState, host_ready: bool) -> (done: bool)
    ensures
        final(state)@ == spec_poll(old(state)@, host_ready),
        done == final(state)@.ready,
{
    if host_ready {
        state.office_status = true;
    }
    state.office_status
}

/// What one poll run reports: how many checks it made and how many repaint
/// requests it issued (one per check).
pub struct PollReport {
    pub checks: u64,
    pub repaints: u64,
}

/// Drives the poller against a finite script of host answers: one check
/// and one repaint request per answer, stopping at the first `true`. On a
/// state that is already ready it is a permanent no-op and makes no check
/// at all.
pub fn run_poller(state: &mut OfficeState, answers: &Vec<bool>) -> (report: PollReport)
    ensures
        report.repaints == report.checks,
        old(state)@.ready ==> final(state)@ == old(state)@ && report.checks == 0,
        !old(state)@.ready ==> report.checks == checks_needed(answers@),
        !old(state)@.ready ==> final(state)@ == spec_poll(old(state)@, any_ready(answers@)),
{
    if state.office_status {
        return PollReport { checks: 0, repaints: 0 };
    }
    let ghost s0 = state@;
    let mut checks: u64 = 0;
    let mut i: usize = 0;
    while i < answers.len() && !state.office_status
        invariant
            i <= answers@.len(),
            checks == i,
            !s0.ready,
            state@ == spec_poll(s0, state@.ready),
            !state@.ready ==> forall|j: int| 0 <= j < i ==> !answers@[j],
            state@.ready ==> i >= 1 && answers@[i - 1] && (forall|j: int|
                0 <= j < i - 1 ==> !answers@[j]),
        decreases answers@.len() - i,
    {
        let host_ready = answers[i];
        poll_step(state, host_ready);
        checks = checks + 1;
        i = i + 1;
    }
    proof {
        if state@.ready {
            lemma_checks_needed_first_true(answers@, i - 1);
        } else {
            lemma_checks_needed_all_false(answers@);
        }
    }
    PollReport { checks: checks, repaints: checks }
}

proof fn lemma_checks_needed_all_false(answers: Seq<bool>)
    requires
        forall|j: int| 0 <= j < answers.len() ==> !answers[j],
    ensures
        checks_needed(answers) == answers.len(),
        !any_ready(answers),
    decreases answers.len(),
{
    if answers.len() > 0 {
        let tail = answers.drop_first();
        assert forall|j: int| 0 <= j < tail.len() implies !tail[j] by {
            assert(tail[j] == answers[j + 1]);
        }
        lemma_checks_needed_all_false(tail);
    }
}

proof fn lemma_checks_needed_first_true(answers: Seq<bool>, k: int)
    requires
        0 <= k < answers.len(),
        answers[k],
        forall|j: int| 0 <= j < k ==> !answers[j],
    ensures
        checks_needed(answers) == k + 1,
        any_ready(answers),
    decreases k,
{
    assert(any_ready(answers));
    if k > 0 {
        assert(!answers[0]);
        let tail = answers.drop_first();
        assert(tail[k - 1] == answers[k]);
        assert forall|j: int| 0 <= j < k - 1 implies !tail[j] by {
            assert(tail[j] == answers[j + 1]);
        }
        lemma_checks_needed_first_true(tail, k - 1);
    }
}

} // verus!
