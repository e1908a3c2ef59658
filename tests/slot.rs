use varargs::{Argument, ArgumentKind, Discriminant, TypeTag, Value};

#[test]
fn owned_i32_is_inline_and_round_trips() {
    let arg = Argument::new_owned(0_i32);
    assert!(arg.is_owned());
    assert_eq!(arg.discriminant(), Discriminant::Inlined);
    assert_eq!(arg.downcast_owned::<i32>().ok(), Some(0));
}

#[test]
fn owned_vector_is_allocated_and_round_trips() {
    let bytes: Vec<u8> = (0..100).collect();
    let arg = Argument::new_owned(bytes.clone());
    assert!(arg.is_owned());
    assert_eq!(arg.discriminant(), Discriminant::Allocated);
    assert_eq!(arg.downcast_owned::<Vec<u8>>().ok(), Some(bytes));
}

#[test]
fn borrowed_slot_is_never_consumed() {
    let five = 5_i32;
    let arg = Argument::new_borrowed(&five);
    let back = match arg.downcast_owned::<i32>() {
        Ok(_) => panic!("a borrowed slot gave its value away"),
        Err(e) => e,
    };
    assert!(back.is_borrowed());
    assert_eq!(back.discriminant(), Discriminant::Borrowed);
    assert_eq!(back.downcast_cloned::<i32>(), Some(5));
}

#[test]
fn borrowed_slot_of_other_type_is_not_consumed() {
    let text = String::from("kept");
    let arg = Argument::new_borrowed(&text);
    let back = arg.downcast_owned::<u8>().err().unwrap();
    assert!(back.is_borrowed());
    assert_eq!(back.downcast_cloned::<String>(), Some(String::from("kept")));
}

#[test]
fn promotion_copies_and_leaves_the_source() {
    let source: Vec<u8> = vec![1, 2, 3];
    let mut arg = Argument::new_borrowed(&source);
    assert!(arg.is_borrowed());
    {
        let owned = arg.to_mut();
        assert_eq!(owned.downcast_cloned::<Vec<u8>>(), Some(vec![1_u8, 2, 3]));
        owned.downcast_mut::<Vec<u8>>().unwrap().push(4);
    }
    assert!(arg.is_owned());
    assert_eq!(arg.discriminant(), Discriminant::Allocated);
    assert_eq!(arg.downcast_cloned::<Vec<u8>>(), Some(vec![1_u8, 2, 3, 4]));
    assert_eq!(source, vec![1_u8, 2, 3]);
}

#[test]
fn promotion_of_small_value_is_inline() {
    let source = 10_u32;
    let mut arg = Argument::new_borrowed(&source);
    *arg.to_mut().downcast_mut::<u32>().unwrap() += 5;
    assert_eq!(arg.discriminant(), Discriminant::Inlined);
    assert_eq!(arg.downcast_owned::<u32>().ok(), Some(15));
    assert_eq!(source, 10);
}

#[test]
fn to_mut_on_owned_slot_keeps_it() {
    let mut arg = Argument::new_owned(String::from("ab"));
    arg.to_mut().downcast_mut::<String>().unwrap().push('c');
    assert_eq!(arg.downcast_owned::<String>().ok(), Some(String::from("abc")));
}

#[test]
fn clone_of_owned_slot_is_independent() {
    let mut first = Argument::new_owned(vec![9_u8]);
    let second = first.clone();
    assert!(second.is_owned());
    first.to_mut().downcast_mut::<Vec<u8>>().unwrap().clear();
    assert_eq!(first.downcast_cloned::<Vec<u8>>(), Some(Vec::new()));
    assert_eq!(second.downcast_cloned::<Vec<u8>>(), Some(vec![9_u8]));
}

#[test]
fn clone_of_borrowed_slot_stays_borrowed() {
    let value = 'q';
    let first = Argument::new_borrowed(&value);
    let second = first.clone();
    assert!(second.is_borrowed());
    assert_eq!(second.downcast_cloned::<char>(), Some('q'));
}

#[test]
fn type_mismatch_keeps_the_slot() {
    let arg = Argument::new_owned(7_u64);
    let back = arg.downcast_owned::<i64>().err().unwrap();
    assert!(back.is_owned());
    assert_eq!(back.type_tag(), TypeTag::U64);
    assert!(back.is_type::<u64>());
    assert_eq!(back.downcast_owned::<u64>().ok(), Some(7));
}

#[test]
fn downcast_cloned_leaves_slot() {
    let arg = Argument::new_owned(true);
    assert_eq!(arg.downcast_cloned::<bool>(), Some(true));
    assert_eq!(arg.downcast_cloned::<u8>(), None);
    assert!(arg.is_owned());
}

#[test]
fn as_ref_borrows_owned_value() {
    let arg = Argument::new_owned(u128::MAX);
    let alias = arg.as_ref();
    assert!(alias.is_borrowed());
    assert_eq!(alias.downcast_cloned::<u128>(), Some(u128::MAX));
    assert!(alias.downcast_owned::<u128>().is_err());
    assert!(arg.is_owned());
}

#[test]
fn to_owned_copies_borrowed_value() {
    let n = 3_usize;
    let arg = Argument::new_borrowed(&n);
    let owned = arg.to_owned();
    assert!(owned.is_owned());
    assert_eq!(owned.downcast_owned::<usize>().ok(), Some(3));
    assert!(arg.is_borrowed());
}

#[test]
fn into_inner_reports_representation() {
    let n = 8_u8;
    match Argument::new_borrowed(&n).into_inner() {
        ArgumentKind::Borrowed(r) => assert!(matches!(r.to_value(), Value::U8(8))),
        ArgumentKind::Owned(_) => panic!("expected a borrowed value"),
    }
    match Argument::new_owned(8_u8).into_inner() {
        ArgumentKind::Owned(o) => assert_eq!(o.downcast_owned::<u8>().ok(), Some(8)),
        ArgumentKind::Borrowed(_) => panic!("expected an owned value"),
    }
}

#[test]
fn discriminant_from_flags() {
    assert_eq!(Discriminant::from_flags(true, false), Discriminant::Borrowed);
    assert_eq!(Discriminant::from_flags(false, false), Discriminant::Borrowed);
    assert_eq!(Discriminant::from_flags(true, true), Discriminant::Inlined);
    assert_eq!(Discriminant::from_flags(false, true), Discriminant::Allocated);
}

#[test]
fn zero_sized_value_round_trips() {
    let arg = Argument::new_owned(());
    assert_eq!(arg.discriminant(), Discriminant::Inlined);
    assert_eq!(arg.downcast_owned::<()>().ok(), Some(()));
}

#[test]
fn from_owned_value_keeps_representation() {
    let arg: Argument = varargs::OwnedArgument::new(vec![1_u8; 100]).into();
    assert!(arg.is_owned());
    assert_eq!(arg.discriminant(), Discriminant::Allocated);
    assert_eq!(arg.downcast_owned::<Vec<u8>>().ok(), Some(vec![1_u8; 100]));
}
