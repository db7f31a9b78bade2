use vstd::prelude::*;

verus! {

/// An entity with a stable identifier.
pub trait Identificavel {
    spec fn id_spec(&self) -> u128;

    fn id(&self) -> (r: u128)
        ensures
            r == self.id_spec(),
    ;
}

} // verus!
