use immers::{OptionPatch, OptionPatchError, PatchError, Patchable, Test, TestPatch, TestPatchError};

#[test]
fn record_equal_is_absent() {
    let a = Test { foo: 1, bar: Some(2), baz: 10 };
    assert_eq!(a.produce(&a.clone()), None);
}

#[test]
fn record_patch_skips_unchanged_fields() {
    let before = Test { foo: 1, bar: None, baz: 10 };
    let after = Test { foo: 1, bar: Some(2), baz: 20 };
    let p = before.produce(&after).unwrap();
    assert_eq!(
        p,
        vec![TestPatch::Bar(OptionPatch::SomeCreate(2)), TestPatch::Baz(20)]
    );
    let mut v = before.clone();
    assert!(v.apply(p).is_ok());
    assert_eq!(v, after);
}

#[test]
fn record_patch_keeps_declaration_order() {
    let before = Test { foo: 1, bar: Some(7), baz: 10 };
    let after = Test { foo: 2, bar: None, baz: 20 };
    let p = before.produce(&after).unwrap();
    assert_eq!(
        p,
        vec![
            TestPatch::Foo(2),
            TestPatch::Bar(OptionPatch::NoneCreate),
            TestPatch::Baz(20),
        ]
    );
}

#[test]
fn record_single_field_change() {
    let before = Test { foo: 1, bar: Some(7), baz: 10 };
    let after = Test { foo: 1, bar: Some(9), baz: 10 };
    let p = before.produce(&after).unwrap();
    assert_eq!(p, vec![TestPatch::Bar(OptionPatch::SomeChange(9))]);
    let mut v = before.clone();
    assert!(v.apply(p).is_ok());
    assert_eq!(v, after);
}

#[test]
fn record_round_trip_all_fields() {
    let before = Test { foo: 3, bar: None, baz: -8 };
    let after = Test { foo: 9, bar: Some(11), baz: 5 };
    let p = before.produce(&after).unwrap();
    let mut v = before.dup();
    assert!(v.apply(p).is_ok());
    assert_eq!(v, after);
}

#[test]
fn record_failure_leaves_later_fields_unmutated() {
    let mut v = Test { foo: 1, bar: Some(9), baz: 10 };
    let p = vec![TestPatch::Bar(OptionPatch::SomeCreate(2)), TestPatch::Baz(20)];
    let r = v.apply(p);
    match r {
        Err(TestPatchError::Bar(inner)) => {
            assert!(matches!(inner, OptionPatchError::SomeCreateMismatch));
        },
        _ => panic!("expected the `bar` field to be the one that failed"),
    }
    assert_eq!(v.foo, 1);
    assert_eq!(v.bar, Some(9));
    assert_eq!(v.baz, 10);
}

#[test]
fn record_failure_keeps_earlier_mutations() {
    let mut v = Test { foo: 1, bar: Some(9), baz: 10 };
    let p = vec![
        TestPatch::Foo(5),
        TestPatch::Bar(OptionPatch::SomeCreate(2)),
        TestPatch::Baz(20),
    ];
    let r = v.apply(p);
    assert!(matches!(r, Err(TestPatchError::Bar(_))));
    assert_eq!(v.foo, 5);
    assert_eq!(v.bar, Some(9));
    assert_eq!(v.baz, 10);
}

#[test]
fn record_error_message_names_the_field() {
    let e = TestPatchError::Bar(OptionPatchError::SomePatchMismatch);
    assert_eq!(
        e.message(),
        "within `bar` => got patch for member of variant `Option::Some` but the value was not this variant"
    );
}

#[test]
fn record_dup_copies_every_field() {
    let a = Test { foo: 4, bar: Some(6), baz: -1 };
    let d = a.dup();
    assert_eq!(d, a);
}
