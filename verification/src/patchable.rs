use vstd::prelude::*;

verus! {

/// An error that can describe itself to a human reader.
pub trait PatchError {
    /// The characters of the human-readable description.
    spec fn message_spec(&self) -> Seq<char>;

    /// Renders the human-readable description.
    fn message(&self) -> (r: String)
        ensures
            r@ == self.message_spec(),
    ;
}

/// Patch applications that cannot fail use `core::convert::Infallible` as
/// their error: no value of it exists, so the description is never rendered.
impl PatchError for core::convert::Infallible {
    open spec fn message_spec(&self) -> Seq<char> {
        Seq::empty()
    }

    fn message(&self) -> (r: String) {
        String::new()
    }
}

/// The contract every patchable type satisfies.
///
/// `produce(a, b)` compares two values and hands back `None` exactly when they
/// are equivalent, else a patch that transforms a value equivalent to `a` into
/// one equivalent to `b`. `apply` replays a patch in place and reports a typed
/// error when the patch does not fit the value it meets.
///
/// The two spec relations `produce_rel` and `apply_rel` pin down, per type,
/// what the executable operations may do; the three lemma obligations are the
/// laws every implementation must prove about those relations:
/// reflexivity of the type's equivalence, the equivalence law (the absent
/// patch signal arises exactly between equivalent values), and the round-trip
/// law (a produced patch, applied to a value equivalent to its source,
/// succeeds and yields a value equivalent to its target).
pub trait Patchable: Sized {
    /// The description of a transformation between two values of this type.
    type Patch: Clone;

    /// The description of why a patch did not fit the value it was applied to.
    type Error: PatchError;

    /// The type's notion of equality, the one `produce` decides by.
    spec fn eqv(a: Self, b: Self) -> bool;

    /// What `produce(a, b)` is allowed to return.
    spec fn produce_rel(a: Self, b: Self, r: Option<Self::Patch>) -> bool;

    /// How `apply` on value `pre` with patch `p` relates the value it leaves
    /// behind (`post`) and its outcome (`r`).
    spec fn apply_rel(pre: Self, p: Self::Patch, post: Self, r: Result<(), Self::Error>) -> bool;

    /// The type's equivalence is reflexive.
    proof fn lemma_eqv_refl(a: Self)
        ensures
            Self::eqv(a, a),
    ;

    /// Equivalence law: `produce` yields the absent signal exactly when the
    /// two values are equivalent.
    proof fn lemma_produce_absent_iff_eqv(a: Self, b: Self, r: Option<Self::Patch>)
        requires
            Self::produce_rel(a, b, r),
        ensures
            (r is None) <==> Self::eqv(a, b),
    ;

    /// Round-trip law: a patch produced from `a` toward `b`, applied to any
    /// value equivalent to `a`, succeeds and leaves a value equivalent to `b`.
    proof fn lemma_round_trip(
        a: Self,
        b: Self,
        p: Self::Patch,
        start: Self,
        post: Self,
        r: Result<(), Self::Error>,
    )
        requires
            Self::produce_rel(a, b, Some(p)),
            Self::eqv(start, a),
            Self::apply_rel(start, p, post, r),
        ensures
            r is Ok,
            Self::eqv(post, b),
    ;

    /// Duplicates a value, leaving the original untouched.
    fn dup(&self) -> (r: Self)
        ensures
            r == *self,
    ;

    /// Compares `self` with `other`: the absent signal when they are
    /// equivalent, else a patch sufficient to turn `self` into `other`.
    fn produce(&self, other: &Self) -> (r: Option<Self::Patch>)
        ensures
            Self::produce_rel(*self, *other, r),
    ;

    /// Replays `patch` onto `self` in place; fails with a typed error when the
    /// patch does not fit the current value.
    fn apply(&mut self, patch: Self::Patch) -> (r: Result<(), Self::Error>)
        ensures
            Self::apply_rel(*old(self), patch, *final(self), r),
    ;
}

} // verus!
