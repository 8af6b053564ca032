//! Cell-operation coordination: guarded requests against the host and
//! merges of their results into the shared state.
//!
//! Each of the three operations — read a cell, write a cell, fetch the
//! active sheet name — follows one pattern. A request function checks the
//! readiness guard and snapshots the inputs the host call needs; when the
//! guard fails the operation is a silent no-op and no host call may be
//! made. The driver outside the library then issues the host call and
//! hands its outcome to the matching completion function, which merges a
//! success into the state, leaves the state intact on failure, and returns
//! the diagnostic for the observability sink. The driver requests a
//! repaint after every completion, success or failure.

use vstd::prelude::*;

use crate::state::OfficeState;
use crate::state::StateView;

verus! {

/// View of a host call outcome that carries text both ways.
pub open spec fn text_outcome_view(outcome: Result<String, String>) -> Result<Seq<char>, Seq<char>> {
    match outcome {
        Ok(v) => Ok(v@),
        Err(e) => Err(e@),
    }
}

/// View of a host call outcome that carries text only on failure.
pub open spec fn unit_outcome_view(outcome: Result<(), String>) -> Result<(), Seq<char>> {
    match outcome {
        Ok(u) => Ok(u),
        Err(e) => Err(e@),
    }
}

/// View of an optional diagnostic string.
pub open spec fn diagnostic_view(err: Option<String>) -> Option<Seq<char>> {
    match err {
        Some(e) => Some(e@),
        None => None,
    }
}

/// What an outcome leaves on the observability sink: the host's error text
/// on failure, nothing on success.
pub open spec fn text_outcome_diagnostic(outcome: Result<Seq<char>, Seq<char>>) -> Option<
    Seq<char>,
> {
    match outcome {
        Ok(_) => None,
        Err(e) => Some(e),
    }
}

/// As [`text_outcome_diagnostic`], for an outcome without a success value.
pub open spec fn unit_outcome_diagnostic(outcome: Result<(), Seq<char>>) -> Option<Seq<char>> {
    match outcome {
        Ok(_) => None,
        Err(e) => Some(e),
    }
}

/// Merge of a finished read: a success overwrites the last-known cell
/// value, a failure leaves the state exactly as it was.
pub open spec fn spec_read_merge(s: StateView, outcome: Result<Seq<char>, Seq<char>>) -> StateView {
    match outcome {
        Ok(v) => StateView { value: v, ..s },
        Err(_) => s,
    }
}

/// Merge of a finished write: the state never changes, whatever the
/// outcome — a successful write is only confirmed on the sink.
pub open spec fn spec_write_merge(s: StateView, _outcome: Result<(), Seq<char>>) -> StateView {
    s
}

/// Merge of a finished sheet-name fetch: a success overwrites the sheet
/// name, a failure leaves the state exactly as it was.
pub open spec fn spec_sheet_merge(s: StateView, outcome: Result<Seq<char>, Seq<char>>) -> StateView {
    match outcome {
        Ok(name) => StateView { sheet: name, ..s },
        Err(_) => s,
    }
}

impl OfficeState {
    /// Guard and snapshot for a cell read: yields the address to query
    /// exactly when the host is ready, and nothing otherwise — in which
    /// case the operation is a silent no-op and no host call is made.
    pub fn read_cell_request(&self) -> (r: Option<String>)
        ensures
            (r is Some) <==> self@.ready,
            r matches Some(address) ==> address@ == self@.address,
    {
        if self.office_status {
            Some(self.address.clone())
        } else {
            None
        }
    }

    /// Guard and snapshot for a cell write: yields the address and the
    /// staged value exactly when the host is ready, and nothing otherwise.
    pub fn write_cell_request(&self) -> (r: Option<(String, String)>)
        ensures
            (r is Some) <==> self@.ready,
            r matches Some(request) ==> request.0@ == self@.address && request.1@
                == self@.new_value,
    {
        if self.office_status {
            Some((self.address.clone(), self.new_value.clone()))
        } else {
            None
        }
    }

    /// Guard for the active-sheet-name fetch: true exactly when the host
    /// is ready, in which case the driver may issue the host call.
    pub fn sheet_name_request(&self) -> (proceed: bool)
        ensures
            proceed == self@.ready,
    {
        self.office_status
    }

    /// Merges a finished read into the state and returns the diagnostic
    /// for the observability sink.
    pub fn read_cell_complete(&mut self, outcome: Result<String, String>) -> (err: Option<String>)
        ensures
            final(self)@ == spec_read_merge(old(self)@, text_outcome_view(outcome)),
            diagnostic_view(err) == text_outcome_diagnostic(text_outcome_view(outcome)),
    {
        match outcome {
            Ok(v) => {
                self.value = v;
                None
            },
            Err(e) => Some(e),
        }
    }

    /// Merges a finished write — which never changes the state — and
    /// returns the diagnostic for the observability sink.
    pub fn write_cell_complete(&mut self, outcome: Result<(), String>) -> (err: Option<String>)
        ensures
            final(self)@ == spec_write_merge(old(self)@, unit_outcome_view(outcome)),
            final(self)@ == old(self)@,
            diagnostic_view(err) == unit_outcome_diagnostic(unit_outcome_view(outcome)),
    {
        match outcome {
            Ok(_) => None,
            Err(e) => Some(e),
        }
    }

    /// Merges a finished sheet-name fetch into the state and returns the
    /// diagnostic for the observability sink.
    pub fn sheet_name_complete(&mut self, outcome: Result<String, String>) -> (err: Option<String>)
        ensures
            final(self)@ == spec_sheet_merge(old(self)@, text_outcome_view(outcome)),
            diagnostic_view(err) == text_outcome_diagnostic(text_outcome_view(outcome)),
    {
        match outcome {
            Ok(name) => {
                self.sheet = name;
                None
            },
            Err(e) => Some(e),
        }
    }
}

} // verus!
