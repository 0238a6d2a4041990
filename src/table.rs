//! Namespaces of RPC methods and the dispatch table they are registered into.
use vstd::prelude::*;
use crate::safety::{DenyUnsafe, RpcError};
use crate::shared::{Handle, SharedStore, holds, read_all};

verus! {

/// One RPC method: its name, whether it is privileged, the guard that its
/// namespace was built with, and the shared states it reads when called.
pub struct Method {
    pub name: String,
    pub is_unsafe: bool,
    pub deny_unsafe: DenyUnsafe,
    pub reads: Vec<Handle>,
}

/// The names of `ms`, in order.
pub open spec fn names_of(ms: Seq<Method>) -> Seq<Seq<char>> {
    ms.map_values(|m: Method| m.name@)
}

/// Whether a method called `name` is in `ms`.
pub open spec fn has_name(ms: Seq<Method>, name: Seq<char>) -> bool {
    exists|i: int| 0 <= i < ms.len() && ms[i].name@ == name
}

/// A group of methods built from one handler, registered together.
pub struct Namespace {
    pub methods: Vec<Method>,
}

/// The table that serves incoming calls by method name. Names in it are
/// unique, and a registration is never removed.
pub struct DispatchTable {
    methods: Vec<Method>,
}

impl View for DispatchTable {
    type V = Seq<Method>;

    closed spec fn view(&self) -> Seq<Method> {
        self.methods@
    }
}

/// How a call of a method `m` found in the table comes out, for a store `s`.
pub open spec fn call_result(m: Method, s: Seq<u64>) -> Result<Seq<u64>, RpcError> {
    if m.is_unsafe && m.deny_unsafe.denies() {
        Err(RpcError::UnsafeCallDenied)
    } else if !(forall|k: int| 0 <= k < m.reads@.len() ==> holds(s, #[trigger] m.reads@[k])) {
        Err(RpcError::DependencyUnavailable)
    } else {
        Ok(read_all(s, m.reads@))
    }
}

/// The first index below `upto` of a method called `name`.
fn find(ms: &Vec<Method>, upto: usize, name: &String) -> (r: Option<usize>)
    requires
        upto <= ms@.len(),
    ensures
        r matches Some(i) ==> i < upto && ms@[i as int].name@ == name@,
        r is None ==> forall|j: int| 0 <= j < upto ==> ms@[j].name@ != name@,
{
    let mut i: usize = 0;
    while i < upto
        invariant
            i <= upto,
            upto <= ms@.len(),
            forall|j: int| 0 <= j < i ==> ms@[j].name@ != name@,
        decreases upto - i,
    {
        if ms[i].name == *name {
            return Some(i);
        }
        i = i + 1;
    }
    None
}

impl DispatchTable {
    /// Names in the table are pairwise distinct.
    pub open spec fn wf(&self) -> bool {
        names_of(self@).no_duplicates()
    }

    /// The names that the table serves, in order of registration.
    pub open spec fn names(&self) -> Seq<Seq<char>> {
        names_of(self@)
    }

    /// A table with no method.
    pub fn new() -> (r: DispatchTable)
        ensures
            r@ == Seq::<Method>::empty(),
            r.wf(),
    {
        DispatchTable { methods: Vec::new() }
    }

    /// Adds every method of `ns`. Where a name of `ns` is already in the
    /// table, or twice in `ns`, nothing is added and `NamespaceCollision`
    /// is returned.
    pub fn register(&mut self, ns: Namespace) -> (r: Result<(), RpcError>)
        requires
            old(self).wf(),
        ensures
            final(self).wf(),
            r.is_ok() == (names_of(old(self)@) + names_of(ns.methods@)).no_duplicates(),
            r.is_ok() ==> final(self)@ == old(self)@ + ns.methods@,
            r.is_err() ==> r == Err::<(), RpcError>(RpcError::NamespaceCollision)
                && final(self)@ == old(self)@,
    {
        let mut methods = ns.methods;
        let ghost old_names = names_of(self@);
        let ghost new_names = names_of(methods@);
        let mut i: usize = 0;
        while i < methods.len()
            invariant
                i <= methods@.len(),
                old_names == names_of(self@),
                old_names == names_of(old(self)@),
                self@ == old(self)@,
                new_names == names_of(methods@),
                new_names == names_of(ns.methods@),
                self.wf(),
                (old_names + new_names.subrange(0, i as int)).no_duplicates(),
            decreases methods@.len() - i,
        {
            let ghost cat = old_names + new_names;
            let in_table = find(&self.methods, self.methods.len(), &methods[i].name);
            let in_ns = find(&methods, i, &methods[i].name);
            if in_table.is_some() || in_ns.is_some() {
                proof {
                    let k = old_names.len() + i;
                    assert(cat[k] == new_names[i as int]);
                    assert(cat[k] == methods@[i as int].name@);
                    if let Some(j) = in_table {
                        assert(cat[j as int] == self@[j as int].name@);
                        assert(cat[j as int] == cat[k]);
                    } else if let Some(j) = in_ns {
                        assert(cat[old_names.len() + j] == methods@[j as int].name@);
                        assert(cat[old_names.len() + j] == cat[k]);
                    }
                    assert(!cat.no_duplicates());
                }
                return Err(RpcError::NamespaceCollision);
            }
            proof {
                let prev = old_names + new_names.subrange(0, i as int);
                let next = old_names + new_names.subrange(0, i + 1);
                assert(next == prev.push(new_names[i as int]));
                assert forall|a: int, b: int|
                    0 <= a < next.len() && 0 <= b < next.len() && a != b implies next[a] != next[b] by {
                    if a < prev.len() && b < prev.len() {
                    } else if a == prev.len() {
                        if b < old_names.len() {
                            assert(next[b] == self@[b].name@);
                        } else {
                            assert(next[b] == methods@[b - old_names.len()].name@);
                        }
                    } else {
                        if a < old_names.len() {
                            assert(next[a] == self@[a].name@);
                        } else {
                            assert(next[a] == methods@[a - old_names.len()].name@);
                        }
                    }
                }
            }
            i = i + 1;
        }
        proof {
            assert(new_names.subrange(0, methods@.len() as int) == new_names);
        }
        self.methods.append(&mut methods);
        proof {
            assert(names_of(self@) == old_names + new_names);
        }
        Ok(())
    }

    /// Whether a method called `name` is registered.
    pub fn contains(&self, name: &String) -> (r: bool)
        ensures
            r == self.names().contains(name@),
    {
        let r = find(&self.methods, self.methods.len(), name);
        proof {
            if let Some(i) = r {
                assert(self.names()[i as int] == name@);
            } else {
                assert forall|j: int| 0 <= j < self.names().len() implies self.names()[j] != name@ by {
                    assert(self.names()[j] == self@[j].name@);
                }
            }
        }
        r.is_some()
    }

    /// The number of registered methods.
    pub fn len(&self) -> (r: usize)
        ensures
            r == self@.len(),
    {
        self.methods.len()
    }

    /// The names of the registered methods, in order of registration.
    pub fn method_names(&self) -> (r: Vec<String>)
        ensures
            r@.len() == self@.len(),
            forall|i: int| 0 <= i < r@.len() ==> #[trigger] r@[i]@ == self@[i].name@,
    {
        let mut r: Vec<String> = Vec::new();
        let mut i: usize = 0;
        while i < self.methods.len()
            invariant
                i <= self@.len(),
                r@.len() == i,
                forall|k: int| 0 <= k < i ==> #[trigger] r@[k]@ == self@[k].name@,
            decreases self@.len() - i,
        {
            r.push(self.methods[i].name.clone());
            i = i + 1;
        }
        r
    }

    /// Serves a call of `name`: finds the method, consults its guard, and only
    /// then reads its shared states and records the call in `log`. Nothing is
    /// read or recorded when the call is refused.
    pub fn call(&self, name: &String, store: &SharedStore, log: &mut Vec<String>) -> (r: Result<
        Vec<u64>,
        RpcError,
    >)
        requires
            self.wf(),
        ensures
            !self.names().contains(name@) ==> r == Err::<Vec<u64>, RpcError>(RpcError::MethodNotFound),
            forall|i: int|
                0 <= i < self@.len() && #[trigger] self@[i].name@ == name@ ==> match call_result(
                    self@[i],
                    store@,
                ) {
                    Ok(vals) => r matches Ok(v) && v@ == vals,
                    Err(e) => r == Err::<Vec<u64>, RpcError>(e),
                },
            r.is_ok() ==> final(log)@.len() == old(log)@.len() + 1 && final(log)@.last()@ == name@
                && final(log)@.drop_last() == old(log)@,
            r.is_err() ==> final(log)@ == old(log)@,
    {
        let found = find(&self.methods, self.methods.len(), name);
        let i = match found {
            Some(i) => i,
            None => {
                proof {
                    assert forall|j: int| 0 <= j < self.names().len() implies self.names()[j] != name@ by {
                        assert(self.names()[j] == self@[j].name@);
                    }
                }
                return Err(RpcError::MethodNotFound);
            },
        };
        proof {
            assert forall|j: int| 0 <= j < self@.len() && #[trigger] self@[j].name@ == name@ implies j == i by {
                assert(self.names()[j] == self.names()[i as int]);
            }
            assert(self.names()[i as int] == name@);
        }
        let m = &self.methods[i];
        if m.is_unsafe {
            if let Err(e) = m.deny_unsafe.check_if_safe() {
                return Err(e);
            }
        }
        let mut vals: Vec<u64> = Vec::new();
        let mut k: usize = 0;
        while k < m.reads.len()
            invariant
                k <= m.reads@.len(),
                self.wf(),
                i < self@.len(),
                *m == self@[i as int],
                !(m.is_unsafe && m.deny_unsafe.denies()),
                self.names()[i as int] == name@,
                self.names().contains(name@),
                forall|j: int| 0 <= j < self@.len() && #[trigger] self@[j].name@ == name@ ==> j == i,
                vals@ == read_all(store@, m.reads@.subrange(0, k as int)),
                forall|j: int| 0 <= j < k ==> holds(store@, #[trigger] m.reads@[j]),
            decreases m.reads@.len() - k,
        {
            match store.read(m.reads[k]) {
                Some(v) => {
                    proof {
                        assert(m.reads@.subrange(0, k + 1) == m.reads@.subrange(0, k as int).push(m.reads@[k as int]));
                    }
                    vals.push(v);
                },
                None => {
                    proof {
                        assert(!holds(store@, m.reads@[k as int]));
                    }
                    return Err(RpcError::DependencyUnavailable);
                },
            }
            k = k + 1;
        }
        proof {
            assert(m.reads@.subrange(0, m.reads@.len() as int) == m.reads@);
        }
        log.push(name.clone());
        proof {
            assert(log@.drop_last() == old(log)@);
        }
        Ok(vals)
    }
}


/// Once a namespace holding `name` is registered, a second namespace holding
/// `name` collides with the table, so its registration is refused whole.
pub proof fn lemma_shared_name_collides(t: Seq<Method>, a: Seq<Method>, b: Seq<Method>, name: Seq<char>)
    requires
        has_name(a, name),
        has_name(b, name),
    ensures
        !(names_of(t + a) + names_of(b)).no_duplicates(),
{
    let i = choose|i: int| 0 <= i < a.len() && a[i].name@ == name;
    let j = choose|j: int| 0 <= j < b.len() && b[j].name@ == name;
    let cat = names_of(t + a) + names_of(b);
    let x = t.len() + i;
    let y = t.len() + a.len() + j;
    assert((t + a)[x] == a[i]);
    assert(cat[x] == name);
    assert(cat[y] == name);
}

} // verus!
