use std::fmt::Debug;
use varargs::{Argument, Variant};

fn test_borrowed<T>(item: &T)
where
    T: Variant + Clone + Eq + Debug,
{
    let borrowed = Argument::new_borrowed(item);

    let cloned: T = test_borrowed_state(borrowed);

    assert_eq!(cloned, item.clone());
}

fn test_borrowed_state<T>(borrowed: Argument<'_>) -> T
where
    T: Variant + Clone + Eq + Debug,
{
    assert!(borrowed.is_borrowed());

    assert!(borrowed.is_type::<T>());

    borrowed.downcast_cloned_unchecked::<T>()
}

fn test_owned<T>(item: T)
where
    T: Variant + Clone + Eq + Debug,
{
    let owned = Argument::new_owned(item.clone());

    assert!(owned.is_owned());

    {
        let ref_ = owned.as_ref();

        let cloned_item: T = test_borrowed_state(ref_);

        assert_eq!(item.clone(), cloned_item, "Cloned items do not match!");
    }

    assert!(owned.is_owned());

    assert!(owned.is_type::<T>());

    let current_item: T = owned.downcast_owned_unchecked();

    assert_eq!(current_item, item);
}

#[test]
fn test_borrowed_zst() {
    let state = ();

    test_borrowed(&state);
}

#[test]
fn test_owned_zst() {
    let state = ();

    test_owned(state);
}

#[test]
fn test_borrowed_i32() {
    let current = 1_i32;
    test_borrowed(&current);
}

#[test]
fn test_owned_i32() {
    let current = 1_i32;
    test_owned(current);
}

#[test]
fn test_borrowed_box() {
    let current = Box::new(1_i32);
    test_borrowed(&current);
}

#[test]
fn test_owned_box() {
    let current = Box::new(1_i32);
    test_owned(current);
}

#[test]
fn test_borrowed_alloc() {
    let current = vec![1_u8; 100];
    test_borrowed(&current);
}

#[test]
fn test_owned_alloc() {
    let current = vec![1_u8; 100];
    test_owned(current);
}

#[test]
fn test_owned_string() {
    test_owned(String::from("a string longer than one pointer"));
    test_borrowed(&String::from("short"));
}

#[test]
fn test_owned_scalars() {
    test_owned(true);
    test_owned('x');
    test_owned(7_u8);
    test_owned(70_000_u32);
    test_owned(u64::MAX);
    test_owned(usize::MAX);
    test_owned(i64::MIN);
    test_owned(u128::MAX);
}
