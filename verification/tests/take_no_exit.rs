use take_mut::take_no_exit;
use take_mut::Sentinel;

#[derive(PartialEq, Eq, Debug)]
enum Foo {
    A,
    B,
}

#[test]
fn increments_present_value() {
    let mut slot: Option<i32> = Some(5);
    take_no_exit(&mut slot, |v: Option<i32>| v.map(|x: i32| x + 1));
    assert_eq!(slot, Some(6));
}

#[test]
fn identity_swap_preserves_value() {
    let mut slot: Option<String> = Some(String::from("payload"));
    take_no_exit(&mut slot, |v: Option<String>| v);
    assert_eq!(slot, Some(String::from("payload")));
}

#[test]
fn two_valued_swap_consumes_original() {
    let mut disposed: usize = 0;
    let mut slot: Option<Foo> = Some(Foo::A);
    take_no_exit(&mut slot, |v: Option<Foo>| {
        assert_eq!(v, Some(Foo::A));
        drop(v);
        disposed += 1;
        Some(Foo::B)
    });
    assert_eq!(disposed, 1);
    assert_eq!(slot, Some(Foo::B));
}

#[test]
fn sentinel_for_option_is_absent() {
    let s: Option<u8> = <Option<u8> as Sentinel>::new_sentinel();
    assert_eq!(s, None);
}

#[test]
fn releasing_fresh_sentinel() {
    let s: Option<u8> = <Option<u8> as Sentinel>::new_sentinel();
    Sentinel::release_sentinel(s);
    let t: Option<String> = <Option<String> as Sentinel>::new_sentinel();
    assert_eq!(t, None);
    t.release_sentinel();
}
