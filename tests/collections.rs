use varargs::{
    validate_key, validate_key_ident, Argument, Arguments, ArgumentsBuilder, ErrorKind,
    MAX_ARG_COUNT,
};

fn many(n: usize) -> Vec<Argument<'static>> {
    (0..n).map(|i| Argument::new_owned(i)).collect()
}

#[test]
fn max_arg_count_is_1024() {
    assert_eq!(MAX_ARG_COUNT, 1024);
}

#[test]
fn from_args_accepts_up_to_the_limit() {
    let args = Arguments::from_args(many(1024)).ok().unwrap();
    assert_eq!(args.len(), 1024);
    assert_eq!(args.as_slice()[1023].downcast_cloned::<usize>(), Some(1023));
}

#[test]
fn from_args_gives_back_too_many() {
    let rejected = Arguments::from_args(many(1025)).err().unwrap();
    assert_eq!(rejected.len(), 1025);
    assert_eq!(rejected[1024].downcast_cloned::<usize>(), Some(1024));
}

#[test]
fn from_boxed_checks_the_limit() {
    assert!(Arguments::from_boxed(many(3).into_boxed_slice()).is_ok());
    let back = Arguments::from_boxed_args(many(2000).into_boxed_slice()).err().unwrap();
    assert_eq!(back.len(), 2000);
}

#[test]
fn from_slice_clones_the_slots() {
    let n = 4_i32;
    let slots = vec![Argument::new_borrowed(&n), Argument::new_owned(5_i32)];
    let args = Arguments::from_slice(&slots).unwrap();
    assert!(args.as_slice()[0].is_borrowed());
    assert!(args.as_slice()[1].is_owned());
    assert!(Arguments::from_slice(&many(1025)).is_none());
}

#[test]
fn from_iter_checks_the_limit() {
    assert_eq!(Arguments::from_iter(many(10).into_iter()).ok().unwrap().len(), 10);
    assert_eq!(Arguments::from_iter(many(1030).into_iter()).err().unwrap().len(), 1030);
}

#[test]
fn iter_mut_promotes_borrowed_slots() {
    let a = 1_u32;
    let b = 2_u32;
    let mut args =
        Arguments::from_args(vec![Argument::new_borrowed(&a), Argument::new_borrowed(&b)])
            .ok()
            .unwrap();
    assert!(args.iter().all(|x| x.is_borrowed()));
    for slot in args.iter_mut().iter_mut() {
        assert!(slot.is_owned());
        *slot.to_mut().downcast_mut::<u32>().unwrap() *= 10;
    }
    let values: Vec<u32> = args.iter().map(|x| x.downcast_cloned::<u32>().unwrap()).collect();
    assert_eq!(values, vec![10, 20]);
    assert_eq!((a, b), (1, 2));
}

#[test]
fn builder_fills_up_to_the_limit() {
    let mut builder = ArgumentsBuilder::with_capacity(5000);
    assert!(builder.capacity() <= 2 * MAX_ARG_COUNT);
    for i in 0..MAX_ARG_COUNT {
        assert!(builder.insert_owned(i as u64).is_ok());
    }
    assert!(builder.is_full());
    assert_eq!(builder.insert_owned(7_u64), Err(7));
    let x = 1_i32;
    assert!(!builder.insert_borrowed(&x));
    assert!(builder.insert_argument(Argument::new_owned(1_u8)).is_err());
    let args = builder.build();
    assert_eq!(args.len(), MAX_ARG_COUNT);
}

#[test]
fn builder_remove_and_pop() {
    let mut builder = ArgumentsBuilder::new();
    let x = 'x';
    builder.insert_owned(1_i32).unwrap();
    assert!(builder.insert_borrowed(&x));
    builder.insert_argument(Argument::new_owned(3_i32)).ok().unwrap();
    assert_eq!(builder.len(), 3);
    assert!(builder.remove(3).is_none());
    let removed = builder.remove(1).unwrap();
    assert!(removed.is_borrowed());
    assert_eq!(removed.downcast_cloned::<char>(), Some('x'));
    assert_eq!(builder.pop().unwrap().downcast_cloned::<i32>(), Some(3));
    assert_eq!(builder.pop().unwrap().downcast_cloned::<i32>(), Some(1));
    assert!(builder.pop().is_none());
}

#[test]
fn builder_extend_returns_what_does_not_fit() {
    let mut builder = ArgumentsBuilder::new();
    builder.reserve(10);
    assert!(builder.extend(many(1000).into_iter()).is_empty());
    let rest = builder.extend(many(30).into_iter());
    assert_eq!(rest.len(), 6);
    assert_eq!(rest[0].downcast_cloned::<usize>(), Some(24));
    assert!(builder.is_full());
    assert_eq!(builder.as_slice()[1023].downcast_cloned::<usize>(), Some(23));
}

#[test]
fn builder_extend_from_vec_splits_exactly() {
    let mut builder = ArgumentsBuilder::new();
    let rest = builder.extend_from_vec(many(1100));
    assert_eq!(builder.len(), MAX_ARG_COUNT);
    assert_eq!(rest.len(), 76);
    assert_eq!(rest[75].downcast_cloned::<usize>(), Some(1099));
}

#[test]
fn validate_key_accepts_identifiers() {
    assert_eq!(validate_key("name_1"), Ok(()));
    assert_eq!(validate_key("_"), Ok(()));
    assert_eq!(validate_key("ABCxyz0189"), Ok(()));
}

#[test]
fn validate_key_rejects_each_fault() {
    assert_eq!(validate_key("näme"), Err(ErrorKind::NonASCIIKey));
    assert_eq!(validate_key(""), Err(ErrorKind::EmptyKey));
    assert_eq!(validate_key("a-b"), Err(ErrorKind::InvalidKeyName));
    assert_eq!(validate_key("a b"), Err(ErrorKind::InvalidKeyName));
}

#[test]
fn validate_key_ident_checks_bytes() {
    assert_eq!(validate_key_ident(b"az_AZ09"), Ok(()));
    assert_eq!(validate_key_ident(b""), Ok(()));
    assert_eq!(validate_key_ident(b"a.b"), Err(ErrorKind::InvalidKeyName));
    assert_eq!(validate_key_ident(&[0x80]), Err(ErrorKind::InvalidKeyName));
}

#[test]
fn collections_clone_and_default() {
    let n = 2_i32;
    let mut builder = ArgumentsBuilder::default();
    builder.insert_owned(1_i32).unwrap();
    assert!(builder.insert_borrowed(&n));
    let copy = builder.clone();
    assert_eq!(builder.pop().unwrap().downcast_cloned::<i32>(), Some(2));
    assert_eq!(copy.len(), 2);
    assert!(copy.as_slice()[1].is_borrowed());
    let args = copy.build();
    let args_copy = args.clone();
    assert_eq!(args_copy.len(), 2);
    assert!(args_copy.as_slice()[0].is_owned());
}

#[test]
fn arguments_into_iter_yields_in_order() {
    let args = Arguments::from_args(many(5)).ok().unwrap();
    let values: Vec<usize> =
        args.into_iter().map(|a| a.downcast_owned::<usize>().ok().unwrap()).collect();
    assert_eq!(values, vec![0, 1, 2, 3, 4]);
}
