use call_by::{clone_via_mut, copy_via_mut, narrow, reborrow, Convert, Mut, Ref, Val};

#[test]
fn scenario_u8_seven() {
    let a: u8 = <u8 as Convert<Val, Val>>::convert(7);
    assert_eq!(a, 7);

    let b: u8 = <u8 as Convert<Ref, Val>>::convert(&7);
    assert_eq!(b, 7);

    let c: u8 = <u8 as Convert<Mut, Val>>::convert(&mut 7);
    assert_eq!(c, 7);

    let d: &u8 = <u8 as Convert<Ref, Ref>>::convert(&7);
    assert_eq!(*d, 7);

    let mut x: u8 = 7;
    let e: &u8 = <u8 as Convert<Mut, Ref>>::convert(&mut x);
    assert_eq!(*e, 7);

    let mut y: u8 = 7;
    let f: &mut u8 = <u8 as Convert<Mut, Mut>>::convert(&mut y);
    assert_eq!(*f, 7);
}

fn pass_through<'a, C, T>(x: <T as call_by::By<'a, C>>::Type) -> <T as call_by::By<'a, C>>::Type
where
    C: call_by::Convention,
    T: Convert<'a, C, C>,
{
    T::convert(x)
}

#[test]
fn a_caller_can_be_polymorphic_over_the_convention() {
    let a: u8 = pass_through::<Val, u8>(7);
    assert_eq!(a, 7);
    let x: u8 = 7;
    let r: &u8 = pass_through::<Ref, u8>(&x);
    assert_eq!(*r, 7);
    let mut y: u8 = 7;
    let m: &mut u8 = pass_through::<Mut, u8>(&mut y);
    *m = 9;
    assert_eq!(y, 9);
}

#[test]
fn identity_conversion_by_value() {
    let a: String = <String as Convert<Val, Val>>::convert(String::from("seven"));
    assert_eq!(a, "seven");
}

#[test]
fn identity_conversion_by_reference_is_the_same_view() {
    let x: u8 = 7;
    let d: &u8 = <u8 as Convert<Ref, Ref>>::convert(&x);
    assert_eq!(*d, 7);
    assert!(std::ptr::eq(d, &x));
}

#[test]
fn identity_conversion_by_mutable_reference_is_the_same_view() {
    let mut x: u8 = 7;
    let f: &mut u8 = <u8 as Convert<Mut, Mut>>::convert(&mut x);
    assert_eq!(*f, 7);
    *f = 9;
    assert_eq!(x, 9);
}

#[test]
fn duplicating_conversion_from_ref_equals_source() {
    let x: String = String::from("seven");
    let owned: String = <String as Convert<Ref, Val>>::convert(&x);
    assert_eq!(owned, x);
}

#[test]
fn duplicating_conversion_from_mut_is_independent_storage() {
    let mut x: String = String::from("seven");
    let owned: String = <String as Convert<Mut, Val>>::convert(&mut x);
    assert_eq!(owned, "seven");
    x.push('!');
    assert_eq!(owned, "seven");
    assert_eq!(x, "seven!");
}

#[test]
fn narrowing_reads_what_the_exclusive_view_showed() {
    let mut x: u8 = 7;
    let before: u8 = x;
    let shared: &u8 = <u8 as Convert<Mut, Ref>>::convert(&mut x);
    assert_eq!(*shared, before);
}

#[test]
fn narrow_leaves_the_storage_unchanged() {
    let mut x: u8 = 7;
    let shared: &u8 = narrow(&mut x);
    assert_eq!(*shared, 7);
    assert_eq!(x, 7);
}

#[test]
fn reborrow_writes_land_in_the_original() {
    let mut x: u8 = 7;
    let again: &mut u8 = reborrow(&mut x);
    *again = 9;
    assert_eq!(x, 9);
}

#[test]
fn copy_and_clone_via_mut_leave_the_source() {
    let mut x: u8 = 7;
    let copied: u8 = copy_via_mut(&mut x);
    assert_eq!(copied, 7);
    assert_eq!(x, 7);
    let mut s: String = String::from("seven");
    let cloned: String = clone_via_mut(&mut s);
    assert_eq!(cloned, "seven");
    assert_eq!(s, "seven");
}
