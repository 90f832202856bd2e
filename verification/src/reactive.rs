//! A single-slot observable container for one entry's display data.

use crate::display::{view_display_opt, DisplayModel, QueueItemUIData};
use vstd::prelude::*;

verus! {

/// Model of a reactive cell: the slot's value and how many dependent
/// notifications the cell has sent since it was created.
pub ghost struct CellModel {
    pub value: Option<DisplayModel>,
    pub notifies: nat,
}

/// The effect of one write: the slot is replaced and dependents are
/// notified exactly once.
pub open spec fn written(c: CellModel, v: Option<DisplayModel>) -> CellModel {
    CellModel { value: v, notifies: c.notifies + 1 }
}

/// An owned, observable single-value container. Every write replaces the
/// slot and synchronously notifies all current dependents; dependents are
/// registered by the surrounding UI layer, so the cell models them as a
/// count of notifications sent.
pub struct ReactiveCell {
    value: Option<QueueItemUIData>,
    notify_count: u64,
}

impl View for ReactiveCell {
    type V = CellModel;

    closed spec fn view(&self) -> CellModel {
        CellModel { value: view_display_opt(self.value), notifies: self.notify_count as nat }
    }
}

impl ReactiveCell {
    /// A fresh, empty cell that has notified nobody yet.
    pub fn new() -> (r: Self)
        ensures
            r@ == (CellModel { value: None, notifies: 0 }),
    {
        ReactiveCell { value: None, notify_count: 0 }
    }

    /// The current value of the slot.
    pub fn read(&self) -> (r: &Option<QueueItemUIData>)
        ensures
            view_display_opt(*r) == self@.value,
    {
        &self.value
    }

    /// Replace the slot and notify dependents exactly once.
    pub fn write(&mut self, v: Option<QueueItemUIData>)
        requires
            old(self)@.notifies < u64::MAX,
        ensures
            final(self)@ == written(old(self)@, view_display_opt(v)),
    {
        self.value = v;
        self.notify_count = self.notify_count + 1;
    }

    /// How many notifications this cell has sent to its dependents.
    pub fn notify_count(&self) -> (n: u64)
        ensures
            n as nat == self@.notifies,
    {
        self.notify_count
    }
}

} // verus!
