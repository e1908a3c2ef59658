use varargs::{Discriminant, OwnedArgument, Variant};

fn test_owned<T>(item: T)
where
    T: Variant,
{
    let owned = OwnedArgument::new(item);

    if std::mem::size_of::<T>() <= std::mem::size_of::<usize>() {
        assert!(owned.is_inlined())
    } else {
        assert!(!owned.is_inlined())
    }

    match owned.downcast_owned::<T>() {
        Ok(o) => drop(o),
        Err(e) => {
            assert!(e.is_type::<T>());
            unreachable!()
        }
    }
}

#[test]
fn test_zst() {
    test_owned(())
}

#[test]
fn test_boxed() {
    test_owned(Box::new(1_i32));
}

#[test]
fn test_alloc() {
    test_owned(vec![1_u8; 100]);
}

#[test]
fn owned_small_values_are_inlined() {
    assert_eq!(OwnedArgument::new(()).discriminant(), Discriminant::Inlined);
    assert_eq!(OwnedArgument::new(0_i32).discriminant(), Discriminant::Inlined);
    assert_eq!(OwnedArgument::new(0_usize).discriminant(), Discriminant::Inlined);
    assert_eq!(OwnedArgument::new('c').discriminant(), Discriminant::Inlined);
    assert_eq!(OwnedArgument::new(Box::new(3_i32)).discriminant(), Discriminant::Inlined);
}

#[test]
fn owned_large_values_are_allocated() {
    assert_eq!(OwnedArgument::new(0_u128).discriminant(), Discriminant::Allocated);
    assert_eq!(OwnedArgument::new(vec![0_u8; 100]).discriminant(), Discriminant::Allocated);
    assert_eq!(OwnedArgument::new(String::new()).discriminant(), Discriminant::Allocated);
}

#[test]
fn owned_downcast_to_other_type_gives_value_back() {
    let owned = OwnedArgument::new(vec![3_u8, 4, 5]);
    let back = match owned.downcast_owned::<i32>() {
        Ok(_) => panic!("a byte vector is no i32"),
        Err(e) => e,
    };
    assert!(back.is_type::<Vec<u8>>());
    assert!(!back.is_inlined());
    assert_eq!(back.downcast_owned::<Vec<u8>>().ok(), Some(vec![3_u8, 4, 5]));
}

#[test]
fn owned_clone_is_independent() {
    let mut first = OwnedArgument::new(vec![1_u8, 2]);
    let second = first.clone();
    first.downcast_mut::<Vec<u8>>().unwrap().push(3);
    assert_eq!(first.downcast_cloned::<Vec<u8>>(), Some(vec![1_u8, 2, 3]));
    assert_eq!(second.downcast_cloned::<Vec<u8>>(), Some(vec![1_u8, 2]));
}

#[test]
fn owned_mutation_keeps_representation() {
    let mut n = OwnedArgument::new(41_i64);
    *n.downcast_mut::<i64>().unwrap() += 1;
    assert!(n.downcast_mut::<u64>().is_none());
    assert!(n.is_inlined());
    assert_eq!(n.downcast_cloned::<i64>(), Some(42));
    assert_eq!(n.downcast_cloned::<u64>(), None);
}

#[test]
fn owned_downcast_ref_reads_value() {
    let s = OwnedArgument::new(String::from("abc"));
    assert_eq!(s.downcast_ref::<String>().map(|s| s.as_str()), Some("abc"));
    assert!(s.downcast_ref::<char>().is_none());
}
