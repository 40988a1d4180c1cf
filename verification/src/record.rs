use vstd::prelude::*;
use crate::patchable::{PatchError, Patchable};
use crate::option::{OptionPatch, OptionPatchError};
use core::convert::Infallible;

verus! {

// A record patches field by field: its patch is an ordered sequence of tagged
// entries, one possible tag per declared field, each carrying that field's own
// patch; its error is a tagged union over the same field identities, each
// carrying that field's own error. `Test` is the worked example of that rule:
// the implementation below is exactly what a per-type registration of its
// three fields, in declaration order, must look like.

/// A record with three independently patchable fields, in declaration order
/// `foo`, `bar`, `baz`.
#[derive(Clone, Debug, PartialEq)]
pub struct Test {
    pub foo: u32,
    pub bar: Option<u16>,
    pub baz: i16,
}

/// One tagged patch entry of [`Test`]: the field it addresses and that
/// field's own patch.
#[derive(Clone, Debug, PartialEq)]
pub enum TestPatch {
    /// A patch for the `foo` field.
    Foo(u32),
    /// A patch for the `bar` field.
    Bar(OptionPatch<u16>),
    /// A patch for the `baz` field.
    Baz(i16),
}

/// Why applying a [`Test`] patch failed: the field whose own apply failed,
/// carrying that field's error.
#[derive(Debug)]
pub enum TestPatchError {
    /// The `foo` field failed (it cannot: its error is uninhabited).
    Foo(Infallible),
    /// The `bar` field failed.
    Bar(OptionPatchError<u16>),
    /// The `baz` field failed (it cannot: its error is uninhabited).
    Baz(Infallible),
}

impl PatchError for TestPatchError {
    open spec fn message_spec(&self) -> Seq<char> {
        match self {
            TestPatchError::Foo(e) => "within `foo` => "@ + e.message_spec(),
            TestPatchError::Bar(e) => "within `bar` => "@ + e.message_spec(),
            TestPatchError::Baz(e) => "within `baz` => "@ + e.message_spec(),
        }
    }

    fn message(&self) -> (r: String) {
        match self {
            TestPatchError::Foo(e) => {
                let head = "within `foo` => ".to_owned();
                let tail = e.message();
                head.concat(tail.as_str())
            },
            TestPatchError::Bar(e) => {
                let head = "within `bar` => ".to_owned();
                let tail = e.message();
                head.concat(tail.as_str())
            },
            TestPatchError::Baz(e) => {
                let head = "within `baz` => ".to_owned();
                let tail = e.message();
                head.concat(tail.as_str())
            },
        }
    }
}

/// The entry the `foo` field contributes to a patch from `a` to `b`: nothing
/// when the two values agree, else one `Foo` entry with the replacement.
pub open spec fn foo_entries(a: Test, b: Test) -> Seq<TestPatch> {
    if a.foo == b.foo {
        Seq::empty()
    } else {
        seq![TestPatch::Foo(b.foo)]
    }
}

/// The patch the `bar` field produces between two optional values; `None`
/// when they are equivalent.
pub open spec fn bar_patch(a: Option<u16>, b: Option<u16>) -> Option<OptionPatch<u16>> {
    match (a, b) {
        (Some(s), Some(o)) => if s == o {
            None
        } else {
            Some(OptionPatch::SomeChange(o))
        },
        (Some(s), None) => Some(OptionPatch::NoneCreate),
        (None, Some(o)) => Some(OptionPatch::SomeCreate(o)),
        (None, None) => None,
    }
}

/// The entry the `bar` field contributes to a patch from `a` to `b`.
pub open spec fn bar_entries(a: Test, b: Test) -> Seq<TestPatch> {
    match bar_patch(a.bar, b.bar) {
        Some(p) => seq![TestPatch::Bar(p)],
        None => Seq::empty(),
    }
}

/// The entry the `baz` field contributes to a patch from `a` to `b`.
pub open spec fn baz_entries(a: Test, b: Test) -> Seq<TestPatch> {
    if a.baz == b.baz {
        Seq::empty()
    } else {
        seq![TestPatch::Baz(b.baz)]
    }
}

/// The full entry sequence of a patch from `a` to `b`: each field's
/// contribution, in field declaration order.
pub open spec fn patch_entries(a: Test, b: Test) -> Seq<TestPatch> {
    foo_entries(a, b) + bar_entries(a, b) + baz_entries(a, b)
}

/// What applying one patch to the `bar` field leaves behind, and its outcome.
pub open spec fn bar_apply(pre: Option<u16>, p: OptionPatch<u16>) -> (
    Option<u16>,
    Result<(), OptionPatchError<u16>>,
) {
    match p {
        OptionPatch::SomeChange(ip) => match pre {
            Some(s) => (Some(ip), Ok(())),
            None => (pre, Err(OptionPatchError::SomePatchMismatch)),
        },
        OptionPatch::SomeCreate(x) => match pre {
            None => (Some(x), Ok(())),
            Some(_) => (pre, Err(OptionPatchError::SomeCreateMismatch)),
        },
        OptionPatch::NoneCreate => match pre {
            Some(_) => (None, Ok(())),
            None => (pre, Err(OptionPatchError::NoneCreateMismatch)),
        },
    }
}

/// What applying one tagged entry to a record leaves behind, and its outcome.
pub open spec fn apply_step(v: Test, e: TestPatch) -> (Test, Result<(), TestPatchError>) {
    match e {
        TestPatch::Foo(x) => (Test { foo: x, bar: v.bar, baz: v.baz }, Ok(())),
        TestPatch::Bar(p) => {
            let stepped = bar_apply(v.bar, p);
            let v2 = Test { foo: v.foo, bar: stepped.0, baz: v.baz };
            match stepped.1 {
                Ok(_) => (v2, Ok(())),
                Err(e2) => (v2, Err(TestPatchError::Bar(e2))),
            }
        },
        TestPatch::Baz(x) => (Test { foo: v.foo, bar: v.bar, baz: x }, Ok(())),
    }
}

/// What applying a whole entry sequence leaves behind: entries are replayed
/// strictly in order, and the first failing entry stops the run, leaving the
/// fields already visited in their new state.
pub open spec fn apply_seq(v: Test, s: Seq<TestPatch>) -> (Test, Result<(), TestPatchError>)
    decreases s.len(),
{
    if s.len() == 0 {
        (v, Ok(()))
    } else {
        let stepped = apply_step(v, s[0]);
        if stepped.1 is Ok {
            apply_seq(stepped.0, s.drop_first())
        } else {
            stepped
        }
    }
}

/// The produce relation of `Option<u16>` is a function of its arguments:
/// whatever `produce` returned equals [`bar_patch`] of the two sides.
proof fn lemma_bar_produce_functional(
    a: Option<u16>,
    b: Option<u16>,
    r: Option<OptionPatch<u16>>,
)
    requires
        <Option<u16> as Patchable>::produce_rel(a, b, r),
    ensures
        r == bar_patch(a, b),
{
}

/// The apply relation of `Option<u16>` is a function of its arguments:
/// whatever `apply` did equals [`bar_apply`] of the old value and the patch.
proof fn lemma_bar_apply_functional(
    pre: Option<u16>,
    p: OptionPatch<u16>,
    post: Option<u16>,
    r: Result<(), OptionPatchError<u16>>,
)
    requires
        <Option<u16> as Patchable>::apply_rel(pre, p, post, r),
    ensures
        (post, r) == bar_apply(pre, p),
{
    if r is Ok {
        assert(r->Ok_0 == ());
    }
}

/// Replaying a concatenation of entry runs replays the first run and, if it
/// succeeded, goes on with the second from where the first left off.
proof fn lemma_apply_seq_concat(v: Test, s1: Seq<TestPatch>, s2: Seq<TestPatch>)
    ensures
        ({
            let first = apply_seq(v, s1);
            apply_seq(v, s1 + s2) == if first.1 is Ok {
                apply_seq(first.0, s2)
            } else {
                first
            }
        }),
    decreases s1.len(),
{
    if s1.len() == 0 {
        assert(s1 + s2 =~= s2);
    } else {
        assert((s1 + s2)[0] == s1[0]);
        assert((s1 + s2).drop_first() =~= s1.drop_first() + s2);
        let stepped = apply_step(v, s1[0]);
        if stepped.1 is Ok {
            lemma_apply_seq_concat(stepped.0, s1.drop_first(), s2);
        }
    }
}

/// Replaying a single entry is one step of [`apply_step`].
proof fn lemma_apply_seq_single(v: Test, e: TestPatch)
    ensures
        apply_seq(v, seq![e]) == apply_step(v, e),
{
    let s = seq![e];
    assert(s[0] == e);
    assert(s.drop_first() =~= Seq::<TestPatch>::empty());
    let stepped = apply_step(v, e);
    if stepped.1 is Ok {
        assert(stepped.1 == Ok::<(), TestPatchError>(())) by {
            assert(stepped.1->Ok_0 == ());
        }
        assert(apply_seq(stepped.0, s.drop_first()) == (stepped.0, Ok::<(), TestPatchError>(())));
    }
}

impl Patchable for Test {
    type Patch = Vec<TestPatch>;

    type Error = TestPatchError;

    open spec fn eqv(a: Test, b: Test) -> bool {
        a.foo == b.foo && <Option<u16> as Patchable>::eqv(a.bar, b.bar) && a.baz == b.baz
    }

    open spec fn produce_rel(a: Test, b: Test, r: Option<Vec<TestPatch>>) -> bool {
        match r {
            None => patch_entries(a, b).len() == 0,
            Some(v) => patch_entries(a, b).len() > 0 && v@ == patch_entries(a, b),
        }
    }

    open spec fn apply_rel(
        pre: Test,
        p: Vec<TestPatch>,
        post: Test,
        r: Result<(), TestPatchError>,
    ) -> bool {
        (post, r) == apply_seq(pre, p@)
    }

    proof fn lemma_eqv_refl(a: Test) {
    }

    proof fn lemma_produce_absent_iff_eqv(a: Test, b: Test, r: Option<Vec<TestPatch>>) {
    }

    proof fn lemma_round_trip(
        a: Test,
        b: Test,
        p: Vec<TestPatch>,
        start: Test,
        post: Test,
        r: Result<(), TestPatchError>,
    ) {
        assert(start.bar == a.bar);
        assert(start == a);
        let fe = foo_entries(a, b);
        let be = bar_entries(a, b);
        let ze = baz_entries(a, b);
        assert(p@ =~= (fe + be) + ze);
        lemma_apply_seq_concat(a, fe + be, ze);
        lemma_apply_seq_concat(a, fe, be);
        let mid = Test { foo: b.foo, bar: a.bar, baz: a.baz };
        if a.foo == b.foo {
            assert(fe =~= Seq::<TestPatch>::empty());
        } else {
            lemma_apply_seq_single(a, TestPatch::Foo(b.foo));
            assert(fe =~= seq![TestPatch::Foo(b.foo)]);
        }
        assert(apply_seq(a, fe) == (mid, Ok::<(), TestPatchError>(())));
        let mid2 = Test { foo: b.foo, bar: b.bar, baz: a.baz };
        match bar_patch(a.bar, b.bar) {
            None => {
                assert(a.bar == b.bar);
                assert(be =~= Seq::<TestPatch>::empty());
            },
            Some(pz) => {
                lemma_apply_seq_single(mid, TestPatch::Bar(pz));
                assert(be =~= seq![TestPatch::Bar(pz)]);
                assert(apply_step(mid, TestPatch::Bar(pz)) == (
                    mid2,
                    Ok::<(), TestPatchError>(()),
                ));
            },
        }
        assert(apply_seq(mid, be) == (mid2, Ok::<(), TestPatchError>(())));
        assert(apply_seq(a, fe + be) == (mid2, Ok::<(), TestPatchError>(())));
        if a.baz == b.baz {
            assert(ze =~= Seq::<TestPatch>::empty());
            assert(apply_seq(mid2, ze) == (b, Ok::<(), TestPatchError>(())));
        } else {
            lemma_apply_seq_single(mid2, TestPatch::Baz(b.baz));
            assert(ze =~= seq![TestPatch::Baz(b.baz)]);
            assert(apply_step(mid2, TestPatch::Baz(b.baz)) == (
                b,
                Ok::<(), TestPatchError>(()),
            ));
        }
        assert(apply_seq(a, p@) == (b, Ok::<(), TestPatchError>(())));
        assert((post, r) == (b, Ok::<(), TestPatchError>(())));
        Option::<u16>::lemma_eqv_refl(b.bar);
    }

    fn dup(&self) -> (r: Test) {
        Test { foo: self.foo, bar: self.bar.dup(), baz: self.baz }
    }

    fn produce(&self, other: &Test) -> (r: Option<Vec<TestPatch>>) {
        let mut patch: Vec<TestPatch> = Vec::new();
        if let Some(x) = self.foo.produce(&other.foo) {
            patch.push(TestPatch::Foo(x));
        }
        assert(patch@ =~= foo_entries(*self, *other));
        let br = self.bar.produce(&other.bar);
        proof {
            lemma_bar_produce_functional(self.bar, other.bar, br);
        }
        if let Some(x) = br {
            patch.push(TestPatch::Bar(x));
        }
        assert(patch@ =~= foo_entries(*self, *other) + bar_entries(*self, *other));
        if let Some(x) = self.baz.produce(&other.baz) {
            patch.push(TestPatch::Baz(x));
        }
        assert(patch@ =~= patch_entries(*self, *other));
        if patch.len() == 0 {
            None
        } else {
            Some(patch)
        }
    }

    fn apply(&mut self, patch: Vec<TestPatch>) -> (r: Result<(), TestPatchError>) {
        let ghost pre = *self;
        let ghost all = patch@;
        let mut rest = patch;
        #[verifier::loop_isolation(false)]
        while rest.len() > 0
            invariant
                apply_seq(pre, all) == apply_seq(*self, rest@),
            decreases rest.len(),
        {
            let ghost before = *self;
            let ghost remaining = rest@;
            let entry = rest.remove(0);
            proof {
                assert(remaining.drop_first() =~= rest@);
            }
            match entry {
                TestPatch::Foo(x) => {
                    let fr = self.foo.apply(x);
                    if let Err(e) = fr {
                        return Err(TestPatchError::Foo(e));
                    }
                },
                TestPatch::Bar(p) => {
                    let ghost gp = p;
                    let ghost bar_before = self.bar;
                    let fr = self.bar.apply(p);
                    proof {
                        lemma_bar_apply_functional(bar_before, gp, self.bar, fr);
                    }
                    if let Err(e) = fr {
                        proof {
                            assert(apply_step(before, TestPatch::Bar(gp)) == (
                                *self,
                                Err::<(), TestPatchError>(TestPatchError::Bar(e)),
                            ));
                            assert(remaining[0] == TestPatch::Bar(gp));
                            assert(apply_seq(before, remaining) == (
                                *self,
                                Err::<(), TestPatchError>(TestPatchError::Bar(e)),
                            ));
                            assert(apply_seq(pre, all) == (
                                *self,
                                Err::<(), TestPatchError>(TestPatchError::Bar(e)),
                            ));
                        }
                        return Err(TestPatchError::Bar(e));
                    }
                },
                TestPatch::Baz(x) => {
                    let fr = self.baz.apply(x);
                    if let Err(e) = fr {
                        return Err(TestPatchError::Baz(e));
                    }
                },
            }
            proof {
                assert(apply_seq(before, remaining) == apply_seq(*self, rest@));
            }
        }
        Ok(())
    }
}

/// The declaration-order rank of the field a patch entry addresses.
pub open spec fn entry_rank(e: TestPatch) -> int {
    match e {
        TestPatch::Foo(_) => 0,
        TestPatch::Bar(_) => 1,
        TestPatch::Baz(_) => 2,
    }
}

/// Where each position of a produced patch falls: first the `foo` entry if
/// any, then the `bar` entry if any, then the `baz` entry if any.
proof fn lemma_entry_zones(a: Test, b: Test, v: Vec<TestPatch>)
    requires
        <Test as Patchable>::produce_rel(a, b, Some(v)),
    ensures
        forall|i: int| 0 <= i < v@.len() ==> {
            let fl = foo_entries(a, b).len();
            let bl = bar_entries(a, b).len();
            &&& (i < fl ==> #[trigger] v@[i] is Foo)
            &&& (fl <= i < fl + bl ==> v@[i] is Bar)
            &&& (fl + bl <= i ==> v@[i] is Baz)
        },
{
    let fe = foo_entries(a, b);
    let be = bar_entries(a, b);
    let ze = baz_entries(a, b);
    assert(v@ == (fe + be) + ze);
    assert forall|i: int| 0 <= i < v@.len() implies {
        &&& (i < fe.len() ==> #[trigger] v@[i] is Foo)
        &&& (fe.len() <= i < fe.len() + be.len() ==> v@[i] is Bar)
        &&& (fe.len() + be.len() <= i ==> v@[i] is Baz)
    } by {
        if i < fe.len() {
            assert(v@[i] == fe[i]);
        } else if i < fe.len() + be.len() {
            assert(v@[i] == be[i - fe.len()]);
        } else {
            assert(v@[i] == ze[i - fe.len() - be.len()]);
        }
    }
}

/// Field-omission law: a produced patch never carries an entry for a field
/// whose two values are equivalent.
pub proof fn lemma_field_omission(a: Test, b: Test, v: Vec<TestPatch>)
    requires
        <Test as Patchable>::produce_rel(a, b, Some(v)),
    ensures
        a.foo == b.foo ==> forall|i: int| 0 <= i < v@.len() ==> !(#[trigger] v@[i] is Foo),
        <Option<u16> as Patchable>::eqv(a.bar, b.bar) ==> forall|i: int|
            0 <= i < v@.len() ==> !(#[trigger] v@[i] is Bar),
        a.baz == b.baz ==> forall|i: int| 0 <= i < v@.len() ==> !(#[trigger] v@[i] is Baz),
{
    lemma_entry_zones(a, b, v);
}

/// Order law: the entries of a produced patch address fields in strictly
/// increasing declaration order — a subsequence of the field list, never
/// reordered and never repeated.
pub proof fn lemma_entry_order(a: Test, b: Test, v: Vec<TestPatch>)
    requires
        <Test as Patchable>::produce_rel(a, b, Some(v)),
    ensures
        forall|i: int, j: int|
            0 <= i < j < v@.len() ==> entry_rank(#[trigger] v@[i]) < entry_rank(
                #[trigger] v@[j],
            ),
{
    lemma_entry_zones(a, b, v);
    assert(foo_entries(a, b).len() <= 1);
    assert(bar_entries(a, b).len() <= 1);
    assert(baz_entries(a, b).len() <= 1);
}

} // verus!
