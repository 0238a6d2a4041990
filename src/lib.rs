//! Composition of a node's RPC dispatch table out of method namespaces, for a
//! full node and for a light node, with a safety guard on privileged methods,
//! shared consensus state reached through handles, and the split of collected
//! fees between treasury and block author.
use vstd::prelude::*;

pub mod compose;
pub mod fees;
pub mod safety;
pub mod shared;
pub mod table;

verus! {

} // verus!
