//! The shared application state record and its mathematical model.

use vstd::prelude::*;

verus! {

/// Mathematical model of the shared state: the readiness flag and the four
/// text fields, each string viewed as a sequence of characters.
#[verifier::ext_equal]
pub struct StateView {
    pub ready: bool,
    pub address: Seq<char>,
    pub value: Seq<char>,
    pub sheet: Seq<char>,
    pub new_value: Seq<char>,
}

/// The single shared record behind the panel: read every frame by the
/// render loop, written by the readiness poller (`office_status` only) and
/// by the cell-operation coordinator (`value` and `sheet` on success).
///
/// All five fields are independently mutable; no transition ties two fields
/// together. The render loop edits `address` and `new_value` directly as
/// the user types.
pub struct OfficeState {
    /// True once the host has confirmed that its scripting surface is
    /// initialized; latched by the poller and never cleared.
    pub office_status: bool,
    /// Last successfully read cell value; stale until the next successful
    /// read overwrites it.
    pub value: String,
    /// User-specified cell coordinate (for instance "A1"); free-form, not
    /// validated against a grid grammar by this layer.
    pub address: String,
    /// Last successfully fetched active sheet name; empty until the first
    /// successful fetch.
    pub sheet: String,
    /// User-entered value staged for the next write; independent of
    /// `value`.
    pub new_value: String,
}

impl View for OfficeState {
    type V = StateView;

    open spec fn view(&self) -> StateView {
        StateView {
            ready: self.office_status,
            address: self.address@,
            value: self.value@,
            sheet: self.sheet@,
            new_value: self.new_value@,
        }
    }
}

/// The state a fresh application starts from: not ready, every text field
/// empty.
pub open spec fn initial_state() -> StateView {
    StateView {
        ready: false,
        address: Seq::<char>::empty(),
        value: Seq::<char>::empty(),
        sheet: Seq::<char>::empty(),
        new_value: Seq::<char>::empty(),
    }
}

/// Effect of the render loop storing a new cell address.
pub open spec fn spec_set_address(s: StateView, address: Seq<char>) -> StateView {
    StateView { address: address, ..s }
}

/// Effect of the render loop staging a new value for the next write.
pub open spec fn spec_set_new_value(s: StateView, new_value: Seq<char>) -> StateView {
    StateView { new_value: new_value, ..s }
}

impl OfficeState {
    /// Creates the state at application startup.
    pub fn new() -> (s: Self)
        ensures
            s@ == initial_state(),
    {
        OfficeState {
            office_status: false,
            value: String::new(),
            address: String::new(),
            sheet: String::new(),
            new_value: String::new(),
        }
    }

    /// Stores the cell address the user typed.
    pub fn set_address(&mut self, address: String)
        ensures
            final(self)@ == spec_set_address(old(self)@, address@),
    {
        self.address = address;
    }

    /// Stages the value the user typed for the next write.
    pub fn set_new_value(&mut self, new_value: String)
        ensures
            final(self)@ == spec_set_new_value(old(self)@, new_value@),
    {
        self.new_value = new_value;
    }

    /// Copies every field out for one frame of the render loop's pull
    /// interface.
    pub fn snapshot(&self) -> (snap: Snapshot)
        ensures
            snap.ready == self@.ready,
            snap.address@ == self@.address,
            snap.value@ == self@.value,
            snap.sheet@ == self@.sheet,
            snap.new_value@ == self@.new_value,
    {
        Snapshot {
            ready: self.office_status,
            address: self.address.clone(),
            value: self.value.clone(),
            sheet: self.sheet.clone(),
            new_value: self.new_value.clone(),
        }
    }
}

impl Default for OfficeState {
    /// Same state as [`OfficeState::new`].
    fn default() -> (s: Self)
        ensures
            s@ == initial_state(),
    {
        OfficeState::new()
    }
}

/// One-frame copy of the shared state, handed to the render loop so that
/// painting never holds the state record itself.
pub struct Snapshot {
    pub ready: bool,
    pub address: String,
    pub value: String,
    pub sheet: String,
    pub new_value: String,
}

} // verus!
