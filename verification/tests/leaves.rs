use immers::Patchable;
use immers::get_name;

#[test]
fn integer_leaf_equal_is_absent() {
    let a: u32 = 5;
    assert_eq!(a.produce(&5), None);
}

#[test]
fn integer_leaf_produce_and_apply() {
    let a: u32 = 5;
    let p = a.produce(&7).unwrap();
    assert_eq!(p, 7);
    let mut v: u32 = 5;
    assert!(v.apply(p).is_ok());
    assert_eq!(v, 7);
}

#[test]
fn signed_leaf_produce_and_apply() {
    let a: i16 = -3;
    assert_eq!(a.produce(&-3), None);
    let p = a.produce(&12).unwrap();
    let mut v: i16 = -3;
    assert!(v.apply(p).is_ok());
    assert_eq!(v, 12);
}

#[test]
fn bool_leaf_produce_and_apply() {
    let a = true;
    assert_eq!(a.produce(&true), None);
    let p = a.produce(&false).unwrap();
    let mut v = true;
    assert!(v.apply(p).is_ok());
    assert!(!v);
}

#[test]
fn char_leaf_produce_and_apply() {
    let a = 'x';
    assert_eq!(a.produce(&'x'), None);
    let p = a.produce(&'y').unwrap();
    let mut v = 'x';
    assert!(v.apply(p).is_ok());
    assert_eq!(v, 'y');
}

#[test]
fn string_leaf_produce_and_apply() {
    let a = String::from("old");
    assert_eq!(a.produce(&String::from("old")), None);
    let p = a.produce(&String::from("new")).unwrap();
    assert_eq!(p, "new");
    let mut v = String::from("old");
    assert!(v.apply(p).is_ok());
    assert_eq!(v, "new");
}

#[test]
fn boxed_value_delegates() {
    let a = Box::new(5u32);
    assert_eq!(a.produce(&Box::new(5u32)), None);
    let p = a.produce(&Box::new(7u32)).unwrap();
    assert_eq!(p, 7);
    let mut v = Box::new(5u32);
    assert!(v.apply(p).is_ok());
    assert_eq!(*v, 7);
}

#[test]
fn dup_copies_a_leaf() {
    let a: u32 = 41;
    assert_eq!(a.dup(), 41);
    let s = String::from("text");
    assert_eq!(s.dup(), "text");
}

#[test]
fn positional_names_single_letter() {
    assert_eq!(get_name(0), "A");
    assert_eq!(get_name(1), "B");
    assert_eq!(get_name(25), "Z");
}

#[test]
fn positional_names_repeat_past_alphabet() {
    assert_eq!(get_name(26), "AA");
    assert_eq!(get_name(27), "BB");
    assert_eq!(get_name(54), "CCC");
}
