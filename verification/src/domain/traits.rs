//! What an experiment needs to know of the adapter that injects its fault.

use vstd::prelude::*;

verus! {

/// The parts of a storage adapter that an experiment run consults: where
/// the faulty device is found once the fault is applied, and the messages
/// announcing the fault's application and removal.
pub trait StorageAdapter {
    /// The path at which the chaos measurement is taken.
    spec fn chaos_path(&self) -> Seq<char>;

    /// The message shown before the fault is applied.
    spec fn apply_message(&self) -> Seq<char>;

    /// The message shown before the fault is removed.
    spec fn remove_message(&self) -> Seq<char>;

    fn chaos_device_path(&self) -> (p: String)
        ensures
            p@ == self.chaos_path(),
    ;

    fn apply_label(&self) -> (l: &'static str)
        ensures
            l@ == self.apply_message(),
    ;

    fn remove_label(&self) -> (l: &'static str)
        ensures
            l@ == self.remove_message(),
    ;
}

} // verus!
