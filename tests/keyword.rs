use varargs::{Argument, ErrorKind, KeywordArgumentsBuilder, MAX_ARG_COUNT};

#[test]
fn keyword_insert_keeps_key_order() {
    let mut builder = KeywordArgumentsBuilder::new();
    let flag = true;
    builder.insert_owned("zeta", 1_i32).unwrap();
    builder.insert_borrowed("alpha", &flag).unwrap();
    builder.insert_argument("mid_1", Argument::new_owned(2_u8)).ok().unwrap();
    builder.insert_owned("Mid", 3_i32).unwrap();
    let keys: Vec<&str> = builder.keys().into_iter().map(|k| k.as_str()).collect();
    assert_eq!(keys, vec!["Mid", "alpha", "mid_1", "zeta"]);
    assert_eq!(builder.len(), 4);
    let table = builder.build();
    assert_eq!(table.len(), 4);
    assert!(table.as_slice()[1].1.is_borrowed());
    assert_eq!(table.as_slice()[3].1.downcast_cloned::<i32>(), Some(1));
}

#[test]
fn keyword_prefix_comes_first() {
    let mut builder = KeywordArgumentsBuilder::new();
    builder.insert_owned("ab", 1_i32).unwrap();
    builder.insert_owned("a", 2_i32).unwrap();
    builder.insert_owned("abc", 3_i32).unwrap();
    let keys: Vec<&str> = builder.iter().map(|(k, _)| k.as_str()).collect();
    assert_eq!(keys, vec!["a", "ab", "abc"]);
}

#[test]
fn keyword_insert_refusals_hand_back_key_and_value() {
    let mut builder = KeywordArgumentsBuilder::new();
    builder.insert_owned("taken", 1_i32).unwrap();

    let e = builder.insert_owned("taken", vec![1_u8]).err().unwrap();
    assert_eq!(e.error_kind(), ErrorKind::KeyExists);
    let (key, value) = e.into_inner();
    assert_eq!(key.as_str(), "taken");
    assert_eq!(value, vec![1_u8]);

    let e = builder.insert_owned("", 5_u32).err().unwrap();
    assert_eq!(e.error_kind(), ErrorKind::EmptyKey);
    let e = builder.insert_owned("bad key", 5_u32).err().unwrap();
    assert_eq!(e.error_kind(), ErrorKind::InvalidKeyName);
    let x = 'x';
    let e = builder.insert_borrowed("clé", &x).err().unwrap();
    assert_eq!(e.error_kind(), ErrorKind::NonASCIIKey);
    let e = builder.insert_argument("taken", Argument::new_owned(9_i64)).err().unwrap();
    assert_eq!(e.error_kind(), ErrorKind::KeyExists);
    assert_eq!(e.into_inner().1.downcast_owned::<i64>().ok(), Some(9));
    assert_eq!(builder.len(), 1);
}

#[test]
fn keyword_builder_is_bounded() {
    let mut builder = KeywordArgumentsBuilder::new();
    for i in 0..MAX_ARG_COUNT {
        builder.insert_owned(&format!("k{}", i), i).unwrap();
    }
    assert!(builder.is_full());
    let e = builder.insert_owned("another", 0_usize).err().unwrap();
    assert_eq!(e.error_kind(), ErrorKind::MaxArguments);
    let e = builder.insert_owned("k5", 0_usize).err().unwrap();
    assert_eq!(e.error_kind(), ErrorKind::MaxArguments);
}

#[test]
fn keyword_contains_and_remove() {
    let mut builder = KeywordArgumentsBuilder::new();
    builder.insert_owned("one", 1_i32).unwrap();
    builder.insert_owned("two", 2_i32).unwrap();
    assert_eq!(builder.contains_key("one"), Some(true));
    assert_eq!(builder.contains_key("three"), Some(false));
    assert_eq!(builder.contains_key("not valid"), None);
    assert_eq!(builder.remove("one").ok().unwrap().downcast_cloned::<i32>(), Some(1));
    assert_eq!(builder.contains_key("one"), Some(false));
    assert_eq!(builder.remove("one").err(), Some(ErrorKind::KeyDoesNotExist));
    assert_eq!(builder.remove("").err(), Some(ErrorKind::EmptyKey));
    assert_eq!(builder.remove("ü").err(), Some(ErrorKind::NonASCIIKey));
    assert_eq!(builder.len(), 1);
}
