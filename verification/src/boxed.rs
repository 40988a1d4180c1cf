use vstd::prelude::*;
use crate::patchable::Patchable;

verus! {

// An exclusive-ownership wrapper adds no structure of its own, so it patches
// exactly as the value it owns: same patch shape, same error shape, and both
// operations pass straight through. This gives recursive record fields, which
// need the indirection to be representable, a patch story for free.

impl<T: Patchable> Patchable for Box<T> {
    type Patch = T::Patch;

    type Error = T::Error;

    open spec fn eqv(a: Box<T>, b: Box<T>) -> bool {
        T::eqv(*a, *b)
    }

    open spec fn produce_rel(a: Box<T>, b: Box<T>, r: Option<T::Patch>) -> bool {
        T::produce_rel(*a, *b, r)
    }

    open spec fn apply_rel(
        pre: Box<T>,
        p: T::Patch,
        post: Box<T>,
        r: Result<(), T::Error>,
    ) -> bool {
        T::apply_rel(*pre, p, *post, r)
    }

    proof fn lemma_eqv_refl(a: Box<T>) {
        T::lemma_eqv_refl(*a);
    }

    proof fn lemma_produce_absent_iff_eqv(a: Box<T>, b: Box<T>, r: Option<T::Patch>) {
        T::lemma_produce_absent_iff_eqv(*a, *b, r);
    }

    proof fn lemma_round_trip(
        a: Box<T>,
        b: Box<T>,
        p: T::Patch,
        start: Box<T>,
        post: Box<T>,
        r: Result<(), T::Error>,
    ) {
        T::lemma_round_trip(*a, *b, p, *start, *post, r);
    }

    fn dup(&self) -> (r: Box<T>) {
        Box::new((**self).dup())
    }

    fn produce(&self, other: &Box<T>) -> (r: Option<T::Patch>) {
        (**self).produce(&**other)
    }

    fn apply(&mut self, patch: T::Patch) -> (r: Result<(), T::Error>) {
        (**self).apply(patch)
    }
}

} // verus!
