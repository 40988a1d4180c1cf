use vstd::prelude::*;
use crate::patchable::{PatchError, Patchable};

verus! {

/// How an optional value differs from another: either both sides hold a value
/// and the carried patch transforms the one into the other, or the value
/// appears, or it disappears. Keeping creation apart from change is what lets
/// `apply` notice a patch that was produced against the other presence state.
#[derive(Clone, Debug, PartialEq)]
pub enum OptionPatch<T: Patchable> {
    /// Both sides hold a value; the carried patch transforms the old one into
    /// the new one.
    SomeChange(T::Patch),
    /// The old side is absent; the new side holds the carried value.
    SomeCreate(T),
    /// The old side holds a value; the new side is absent.
    NoneCreate,
}

/// Why a patch for an optional value did not fit the value it met.
#[derive(Clone, Debug, PartialEq)]
pub enum OptionPatchError<T: Patchable> {
    /// A change patch arrived, but the value was absent: there was nothing to
    /// change.
    SomePatchMismatch,
    /// A creation patch arrived, but the value was already present.
    SomeCreateMismatch,
    /// The value was present and the inner apply failed; carries the inner
    /// error.
    WithinSome(T::Error),
    /// An absence patch arrived, but the value was already absent.
    NoneCreateMismatch,
}

impl<T: Patchable> PatchError for OptionPatchError<T> {
    open spec fn message_spec(&self) -> Seq<char> {
        match self {
            OptionPatchError::SomePatchMismatch => "got patch for member of variant `Option::Some` but the value was not this variant"@,
            OptionPatchError::SomeCreateMismatch => "got a creation patch for member variant `Option::Some` but the value was already this variant"@,
            OptionPatchError::WithinSome(e) => "within `Option::Some` => "@ + e.message_spec(),
            OptionPatchError::NoneCreateMismatch => "got a creation patch for member variant `Option::None` but the value was already this variant"@,
        }
    }

    fn message(&self) -> (r: String) {
        match self {
            OptionPatchError::SomePatchMismatch => "got patch for member of variant `Option::Some` but the value was not this variant".to_owned(),
            OptionPatchError::SomeCreateMismatch => "got a creation patch for member variant `Option::Some` but the value was already this variant".to_owned(),
            OptionPatchError::WithinSome(e) => {
                let head = "within `Option::Some` => ".to_owned();
                let tail = e.message();
                head.concat(tail.as_str())
            },
            OptionPatchError::NoneCreateMismatch => "got a creation patch for member variant `Option::None` but the value was already this variant".to_owned(),
        }
    }
}

impl<T: Patchable + Clone> Patchable for Option<T> {
    type Patch = OptionPatch<T>;

    type Error = OptionPatchError<T>;

    open spec fn eqv(a: Option<T>, b: Option<T>) -> bool {
        match (a, b) {
            (Some(x), Some(y)) => T::eqv(x, y),
            (None, None) => true,
            _ => false,
        }
    }

    open spec fn produce_rel(
        a: Option<T>,
        b: Option<T>,
        r: Option<OptionPatch<T>>,
    ) -> bool {
        match (a, b) {
            (Some(s), Some(o)) => match r {
                None => T::produce_rel(s, o, None),
                Some(OptionPatch::SomeChange(ip)) => T::produce_rel(s, o, Some(ip)),
                Some(_) => false,
            },
            (Some(s), None) => r == Some(OptionPatch::<T>::NoneCreate),
            (None, Some(o)) => r == Some(OptionPatch::SomeCreate(o)),
            (None, None) => r is None,
        }
    }

    open spec fn apply_rel(
        pre: Option<T>,
        p: OptionPatch<T>,
        post: Option<T>,
        r: Result<(), OptionPatchError<T>>,
    ) -> bool {
        match p {
            OptionPatch::SomeChange(ip) => match pre {
                Some(s) => match (post, r) {
                    (Some(s2), Ok(())) => T::apply_rel(s, ip, s2, Ok(())),
                    (Some(s2), Err(OptionPatchError::WithinSome(e))) => T::apply_rel(
                        s,
                        ip,
                        s2,
                        Err(e),
                    ),
                    _ => false,
                },
                None => post is None && r == Err::<(), OptionPatchError<T>>(
                    OptionPatchError::SomePatchMismatch,
                ),
            },
            OptionPatch::SomeCreate(x) => match pre {
                None => post == Some(x) && r is Ok,
                Some(_) => post == pre && r == Err::<(), OptionPatchError<T>>(
                    OptionPatchError::SomeCreateMismatch,
                ),
            },
            OptionPatch::NoneCreate => match pre {
                Some(_) => post is None && r is Ok,
                None => post is None && r == Err::<(), OptionPatchError<T>>(
                    OptionPatchError::NoneCreateMismatch,
                ),
            },
        }
    }

    proof fn lemma_eqv_refl(a: Option<T>) {
        match a {
            Some(x) => T::lemma_eqv_refl(x),
            None => {},
        }
    }

    proof fn lemma_produce_absent_iff_eqv(
        a: Option<T>,
        b: Option<T>,
        r: Option<OptionPatch<T>>,
    ) {
        match (a, b) {
            (Some(s), Some(o)) => match r {
                None => T::lemma_produce_absent_iff_eqv(s, o, None),
                Some(OptionPatch::SomeChange(ip)) => T::lemma_produce_absent_iff_eqv(
                    s,
                    o,
                    Some(ip),
                ),
                Some(_) => {},
            },
            _ => {},
        }
    }

    proof fn lemma_round_trip(
        a: Option<T>,
        b: Option<T>,
        p: OptionPatch<T>,
        start: Option<T>,
        post: Option<T>,
        r: Result<(), OptionPatchError<T>>,
    ) {
        match (a, b) {
            (Some(s), Some(o)) => {
                let ip = p->SomeChange_0;
                let s1 = start->0;
                match (post, r) {
                    (Some(s2), Ok(())) => T::lemma_round_trip(s, o, ip, s1, s2, Ok(())),
                    (Some(s2), Err(OptionPatchError::WithinSome(e))) => T::lemma_round_trip(
                        s,
                        o,
                        ip,
                        s1,
                        s2,
                        Err(e),
                    ),
                    _ => {},
                }
            },
            (None, Some(o)) => {
                T::lemma_eqv_refl(o);
            },
            _ => {},
        }
    }

    fn dup(&self) -> (r: Option<T>) {
        match self {
            Some(x) => Some(x.dup()),
            None => None,
        }
    }

    fn produce(&self, other: &Option<T>) -> (r: Option<OptionPatch<T>>) {
        if let Some(s) = self {
            if let Some(o) = other {
                match s.produce(o) {
                    Some(ip) => Some(OptionPatch::SomeChange(ip)),
                    None => None,
                }
            } else {
                Some(OptionPatch::NoneCreate)
            }
        } else {
            if let Some(o) = other {
                Some(OptionPatch::SomeCreate(o.dup()))
            } else {
                None
            }
        }
    }

    fn apply(&mut self, patch: OptionPatch<T>) -> (r: Result<(), OptionPatchError<T>>) {
        match patch {
            OptionPatch::SomeChange(ip) => match self.take() {
                Some(mut s) => {
                    let inner = s.apply(ip);
                    *self = Some(s);
                    match inner {
                        Ok(()) => {
                            proof {
                                assert(inner->Ok_0 == ());
                            }
                            Ok(())
                        },
                        Err(e) => Err(OptionPatchError::WithinSome(e)),
                    }
                },
                None => Err(OptionPatchError::SomePatchMismatch),
            },
            OptionPatch::SomeCreate(x) => {
                if self.is_none() {
                    *self = Some(x);
                    Ok(())
                } else {
                    Err(OptionPatchError::SomeCreateMismatch)
                }
            },
            OptionPatch::NoneCreate => {
                if self.is_none() {
                    Err(OptionPatchError::NoneCreateMismatch)
                } else {
                    *self = None;
                    Ok(())
                }
            },
        }
    }
}

/// Mismatch law: a patch that assumes the other presence state is rejected,
/// and the value is left as it was. A creation patch meeting a present value
/// fails with `SomeCreateMismatch`; an absence patch meeting an absent value
/// fails with `NoneCreateMismatch`; a change patch meeting an absent value
/// fails with `SomePatchMismatch`.
pub proof fn lemma_option_mismatch<T: Patchable + Clone>(
    pre: Option<T>,
    p: OptionPatch<T>,
    post: Option<T>,
    r: Result<(), OptionPatchError<T>>,
)
    requires
        <Option<T> as Patchable>::apply_rel(pre, p, post, r),
    ensures
        p is SomeCreate && pre is Some ==> r == Err::<(), OptionPatchError<T>>(
            OptionPatchError::SomeCreateMismatch,
        ) && post == pre,
        p is NoneCreate && pre is None ==> r == Err::<(), OptionPatchError<T>>(
            OptionPatchError::NoneCreateMismatch,
        ) && post == pre,
        p is SomeChange && pre is None ==> r == Err::<(), OptionPatchError<T>>(
            OptionPatchError::SomePatchMismatch,
        ) && post == pre,
{
}

} // verus!
