//! Shared consensus state, reached through handles that composition copies.
use vstd::prelude::*;
use crate::safety::RpcError;

verus! {

/// A handle to state that lives outside the composer: the slot of that state
/// in the node's `SharedStore`. Sharing a handle copies the slot, never the
/// state, so every holder reads and writes the one instance.
#[derive(Clone, Copy, Debug, PartialEq, Eq, Structural)]
pub struct Handle {
    pub slot: usize,
}

impl Handle {
    /// A second handle to the same state.
    pub fn share(&self) -> (r: Handle)
        ensures
            r == *self,
    {
        Handle { slot: self.slot }
    }
}

/// The states that handles point to, each a version number that advances as
/// the consensus view changes.
pub struct SharedStore {
    cells: Vec<u64>,
}

impl View for SharedStore {
    type V = Seq<u64>;

    closed spec fn view(&self) -> Seq<u64> {
        self.cells@
    }
}

/// Whether `h` points to a state of `store`.
pub open spec fn holds(store: Seq<u64>, h: Handle) -> bool {
    h.slot < store.len()
}

/// What is read through each of `hs`.
pub open spec fn read_all(store: Seq<u64>, hs: Seq<Handle>) -> Seq<u64> {
    hs.map_values(|h: Handle| store[h.slot as int])
}

impl SharedStore {
    /// A store with no state in it.
    pub fn new() -> (r: SharedStore)
        ensures
            r@ == Seq::<u64>::empty(),
    {
        SharedStore { cells: Vec::new() }
    }

    /// Adds a state with version `initial` and returns the first handle to it.
    pub fn create(&mut self, initial: u64) -> (h: Handle)
        ensures
            final(self)@ == old(self)@.push(initial),
            h.slot == old(self)@.len(),
    {
        let slot = self.cells.len();
        self.cells.push(initial);
        Handle { slot }
    }

    /// The version seen through `h`, or `None` where `h` points nowhere.
    pub fn read(&self, h: Handle) -> (r: Option<u64>)
        ensures
            holds(self@, h) ==> r == Some(self@[h.slot as int]),
            !holds(self@, h) ==> r.is_none(),
    {
        if h.slot < self.cells.len() {
            Some(self.cells[h.slot])
        } else {
            None
        }
    }

    /// Sets the state behind `h` to `version`.
    pub fn update(&mut self, h: Handle, version: u64) -> (r: Result<(), RpcError>)
        ensures
            holds(old(self)@, h) ==> r.is_ok() && final(self)@ == old(self)@.update(
                h.slot as int,
                version,
            ),
            !holds(old(self)@, h) ==> r == Err::<(), RpcError>(RpcError::DependencyUnavailable)
                && final(self)@ == old(self)@,
    {
        if h.slot < self.cells.len() {
            self.cells.set(h.slot, version);
            Ok(())
        } else {
            Err(RpcError::DependencyUnavailable)
        }
    }
}

/// An update made through one handle is what a shared copy of that handle
/// reads afterwards, with nothing composed anew.
pub proof fn lemma_update_seen_through_share(store: Seq<u64>, a: Handle, b: Handle, version: u64)
    requires
        holds(store, a),
        b == a,
    ensures
        holds(store.update(a.slot as int, version), b),
        store.update(a.slot as int, version)[b.slot as int] == version,
{
}

} // verus!
