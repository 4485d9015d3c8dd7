//! A minimal state-atom primitive: an atom is a plain function from a
//! builder handle to the atom's initial value.
use vstd::prelude::*;

verus! {

/// The handle an atom's initializer receives.
pub struct AtomBuilder;

/// Read access to a unit of state whose initial value an atom produces.
pub trait Readable<V> {
    /// When the initializer may be run.
    spec fn init_req(&self) -> bool;

    /// What the initializer may return.
    spec fn init_ens(&self, r: V) -> bool;

    /// Produce the initial value.
    fn init(&self) -> (r: V)
        requires
            self.init_req(),
        ensures
            self.init_ens(r),
    ;
}

impl<V, F: Fn(AtomBuilder) -> V> Readable<V> for F {
    open spec fn init_req(&self) -> bool {
        call_requires(*self, (AtomBuilder,))
    }

    open spec fn init_ens(&self, r: V) -> bool {
        call_ensures(*self, (AtomBuilder,), r)
    }

    fn init(&self) -> (r: V) {
        (*self)(AtomBuilder)
    }
}

} // verus!
