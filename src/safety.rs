//! The safety guard and the errors of the dispatch table.
use vstd::prelude::*;

verus! {

/// Whether calls to methods flagged unsafe are refused. Fixed for the life
/// of the node and copied into every namespace that has such methods.
#[derive(Clone, Copy, Debug, PartialEq, Eq, Structural)]
pub enum DenyUnsafe {
    /// Unsafe methods fail with `RpcError::UnsafeCallDenied`.
    Yes,
    /// Unsafe methods run.
    No,
}

/// Errors of composing and of calling through the dispatch table.
#[derive(Clone, Copy, Debug, PartialEq, Eq, Structural)]
pub enum RpcError {
    /// A method name was registered twice; composition stops.
    NamespaceCollision,
    /// An unsafe method was called while the guard denies unsafe calls.
    UnsafeCallDenied,
    /// No method of that name is registered.
    MethodNotFound,
    /// A handle named by a method refers to no shared state.
    DependencyUnavailable,
}

impl DenyUnsafe {
    pub open spec fn denies(self) -> bool {
        self == DenyUnsafe::Yes
    }

    /// The guard for the node's configuration flag `deny`.
    pub fn from_flag(deny: bool) -> (r: DenyUnsafe)
        ensures
            r.denies() == deny,
    {
        if deny {
            DenyUnsafe::Yes
        } else {
            DenyUnsafe::No
        }
    }

    /// `Ok` where unsafe calls may run, `UnsafeCallDenied` where they may not.
    pub fn check_if_safe(self) -> (r: Result<(), RpcError>)
        ensures
            self.denies() ==> r == Err::<(), RpcError>(RpcError::UnsafeCallDenied),
            !self.denies() ==> r == Ok::<(), RpcError>(()),
    {
        match self {
            DenyUnsafe::Yes => Err(RpcError::UnsafeCallDenied),
            DenyUnsafe::No => Ok(()),
        }
    }
}

} // verus!
