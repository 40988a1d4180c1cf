use immers::{OptionPatch, OptionPatchError, PatchError, Patchable};

#[test]
fn optional_equal_is_absent() {
    let some: Option<u16> = Some(3);
    let none: Option<u16> = None;
    assert_eq!(some.produce(&Some(3)), None);
    assert_eq!(none.produce(&None), None);
}

#[test]
fn optional_create_and_reapply_mismatch() {
    let before: Option<u16> = None;
    let after: Option<u16> = Some(3);
    let p = before.produce(&after).unwrap();
    assert_eq!(p, OptionPatch::SomeCreate(3));
    let mut v: Option<u16> = None;
    assert!(v.apply(p.clone()).is_ok());
    assert_eq!(v, Some(3));
    let r = v.apply(p);
    assert!(matches!(r, Err(OptionPatchError::SomeCreateMismatch)));
    assert_eq!(v, Some(3));
}

#[test]
fn optional_clear_and_reapply_mismatch() {
    let before: Option<u16> = Some(3);
    let after: Option<u16> = None;
    let p = before.produce(&after).unwrap();
    assert_eq!(p, OptionPatch::NoneCreate);
    let mut v: Option<u16> = Some(3);
    assert!(v.apply(p.clone()).is_ok());
    assert_eq!(v, None);
    let r = v.apply(p);
    assert!(matches!(r, Err(OptionPatchError::NoneCreateMismatch)));
    assert_eq!(v, None);
}

#[test]
fn optional_inner_change() {
    let before: Option<u16> = Some(3);
    let after: Option<u16> = Some(5);
    let p = before.produce(&after).unwrap();
    assert_eq!(p, OptionPatch::SomeChange(5));
    let mut v: Option<u16> = Some(3);
    assert!(v.apply(p).is_ok());
    assert_eq!(v, Some(5));
}

#[test]
fn optional_change_on_absent_mismatch() {
    let mut v: Option<u16> = None;
    let r = v.apply(OptionPatch::SomeChange(5));
    assert!(matches!(r, Err(OptionPatchError::SomePatchMismatch)));
    assert_eq!(v, None);
}

#[test]
fn optional_mismatch_messages() {
    let e: OptionPatchError<u16> = OptionPatchError::SomePatchMismatch;
    assert_eq!(
        e.message(),
        "got patch for member of variant `Option::Some` but the value was not this variant"
    );
    let e: OptionPatchError<u16> = OptionPatchError::SomeCreateMismatch;
    assert_eq!(
        e.message(),
        "got a creation patch for member variant `Option::Some` but the value was already this variant"
    );
    let e: OptionPatchError<u16> = OptionPatchError::NoneCreateMismatch;
    assert_eq!(
        e.message(),
        "got a creation patch for member variant `Option::None` but the value was already this variant"
    );
}

#[test]
fn nested_optional_wraps_inner_error() {
    let mut v: Option<Option<u16>> = Some(None);
    let r = v.apply(OptionPatch::SomeChange(OptionPatch::SomeChange(5)));
    match r {
        Err(OptionPatchError::WithinSome(inner)) => {
            assert!(matches!(inner, OptionPatchError::SomePatchMismatch));
            assert_eq!(
                inner.message(),
                "got patch for member of variant `Option::Some` but the value was not this variant"
            );
        },
        _ => panic!("expected a wrapped inner error"),
    }
    assert_eq!(v, Some(None));
}
