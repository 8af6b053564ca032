//! The library-wide laws, stated over the state transitions that the
//! poller, the coordinator and the render-loop setters perform.

use vstd::prelude::*;

use crate::coordinator::spec_read_merge;
use crate::coordinator::spec_sheet_merge;
use crate::coordinator::spec_write_merge;
use crate::poller::spec_poll;
use crate::state::spec_set_address;
use crate::state::spec_set_new_value;
use crate::state::StateView;

verus! {

/// Readiness is monotone: once the state is ready, every transition the
/// library performs — a poll step, the merge of any operation outcome, and
/// the render loop's edits — leaves it ready, so the flag never reverts to
/// false for the lifetime of the application.
pub proof fn lemma_ready_monotone(
    s: StateView,
    host_ready: bool,
    read_outcome: Result<Seq<char>, Seq<char>>,
    write_outcome: Result<(), Seq<char>>,
    sheet_outcome: Result<Seq<char>, Seq<char>>,
    address: Seq<char>,
    new_value: Seq<char>,
)
    requires
        s.ready,
    ensures
        spec_poll(s, host_ready).ready,
        spec_read_merge(s, read_outcome).ready,
        spec_write_merge(s, write_outcome).ready,
        spec_sheet_merge(s, sheet_outcome).ready,
        spec_set_address(s, address).ready,
        spec_set_new_value(s, new_value).ready,
{
}

/// Field isolation on failure: a failing read or sheet-name fetch leaves
/// the whole state exactly as it was, and a write leaves it unchanged
/// whatever its outcome.
pub proof fn lemma_failure_preserves_state(
    s: StateView,
    diagnostic: Seq<char>,
    write_outcome: Result<(), Seq<char>>,
)
    ensures
        spec_read_merge(s, Err(diagnostic)) == s,
        spec_sheet_merge(s, Err(diagnostic)) == s,
        spec_write_merge(s, write_outcome) == s,
{
}

/// Last write wins: when two reads are merged one after the other, the
/// value left behind is the one of whichever completed later, regardless
/// of the order in which the reads were issued.
pub proof fn lemma_last_write_wins(s: StateView, first: Seq<char>, second: Seq<char>)
    ensures
        spec_read_merge(spec_read_merge(s, Ok(first)), Ok(second)).value == second,
        spec_read_merge(spec_read_merge(s, Ok(second)), Ok(first)).value == first,
{
}

} // verus!
