use crate::datum::{Datum, TypeTag};
use vstd::prelude::*;

verus! {

/// An owned value of one of the recognised types, with its type erased into
/// the variant.
#[derive(Debug)]
pub enum Value {
    Unit(()),
    Bool(bool),
    Char(char),
    U8(u8),
    U32(u32),
    U64(u64),
    Usize(usize),
    I32(i32),
    I64(i64),
    U128(u128),
    BoxedI32(Box<i32>),
    Bytes(Vec<u8>),
    Text(String),
}

/// A shared reference to a value of one of the recognised types, owned
/// elsewhere.
#[derive(Debug)]
pub enum ValueRef<'a> {
    Unit(&'a ()),
    Bool(&'a bool),
    Char(&'a char),
    U8(&'a u8),
    U32(&'a u32),
    U64(&'a u64),
    Usize(&'a usize),
    I32(&'a i32),
    I64(&'a i64),
    U128(&'a u128),
    BoxedI32(&'a Box<i32>),
    Bytes(&'a Vec<u8>),
    Text(&'a String),
}

impl View for Value {
    type V = Datum;

    open spec fn view(&self) -> Datum {
        match self {
            Value::Unit(_) => Datum::Unit,
            Value::Bool(b) => Datum::Bool(*b),
            Value::Char(c) => Datum::Char(*c),
            Value::U8(n) => Datum::U8(*n),
            Value::U32(n) => Datum::U32(*n),
            Value::U64(n) => Datum::U64(*n),
            Value::Usize(n) => Datum::Usize(*n),
            Value::I32(n) => Datum::I32(*n),
            Value::I64(n) => Datum::I64(*n),
            Value::U128(n) => Datum::U128(*n),
            Value::BoxedI32(b) => Datum::BoxedI32(**b),
            Value::Bytes(v) => Datum::Bytes(v@),
            Value::Text(s) => Datum::Text(s@),
        }
    }
}

impl<'a> View for ValueRef<'a> {
    type V = Datum;

    open spec fn view(&self) -> Datum {
        match self {
            ValueRef::Unit(_) => Datum::Unit,
            ValueRef::Bool(b) => Datum::Bool(**b),
            ValueRef::Char(c) => Datum::Char(**c),
            ValueRef::U8(n) => Datum::U8(**n),
            ValueRef::U32(n) => Datum::U32(**n),
            ValueRef::U64(n) => Datum::U64(**n),
            ValueRef::Usize(n) => Datum::Usize(**n),
            ValueRef::I32(n) => Datum::I32(**n),
            ValueRef::I64(n) => Datum::I64(**n),
            ValueRef::U128(n) => Datum::U128(**n),
            ValueRef::BoxedI32(b) => Datum::BoxedI32(***b),
            ValueRef::Bytes(v) => Datum::Bytes(v@),
            ValueRef::Text(s) => Datum::Text(s@),
        }
    }
}

/// A copy of a byte vector with the same contents.
pub(crate) fn copy_bytes(v: &Vec<u8>) -> (r: Vec<u8>)
    ensures
        r@ == v@,
{
    let r = v.clone();
    assert(r@ =~= v@);
    r
}

impl Value {
    /// The runtime type of the value.
    pub fn type_tag(&self) -> (t: TypeTag)
        ensures
            t == self@.tag(),
    {
        match self {
            Value::Unit(_) => TypeTag::Unit,
            Value::Bool(_) => TypeTag::Bool,
            Value::Char(_) => TypeTag::Char,
            Value::U8(_) => TypeTag::U8,
            Value::U32(_) => TypeTag::U32,
            Value::U64(_) => TypeTag::U64,
            Value::Usize(_) => TypeTag::Usize,
            Value::I32(_) => TypeTag::I32,
            Value::I64(_) => TypeTag::I64,
            Value::U128(_) => TypeTag::U128,
            Value::BoxedI32(_) => TypeTag::BoxedI32,
            Value::Bytes(_) => TypeTag::Bytes,
            Value::Text(_) => TypeTag::Text,
        }
    }

    /// A shared reference to the value, with its type erased.
    pub fn as_value_ref(&self) -> (r: ValueRef<'_>)
        ensures
            r@ == self@,
    {
        match self {
            Value::Unit(u) => ValueRef::Unit(u),
            Value::Bool(b) => ValueRef::Bool(b),
            Value::Char(c) => ValueRef::Char(c),
            Value::U8(n) => ValueRef::U8(n),
            Value::U32(n) => ValueRef::U32(n),
            Value::U64(n) => ValueRef::U64(n),
            Value::Usize(n) => ValueRef::Usize(n),
            Value::I32(n) => ValueRef::I32(n),
            Value::I64(n) => ValueRef::I64(n),
            Value::U128(n) => ValueRef::U128(n),
            Value::BoxedI32(b) => ValueRef::BoxedI32(b),
            Value::Bytes(v) => ValueRef::Bytes(v),
            Value::Text(s) => ValueRef::Text(s),
        }
    }
}

impl Clone for Value {
    /// A fresh value with the same contents, sharing no storage.
    fn clone(&self) -> (r: Self)
        ensures
            r@ == self@,
    {
        self.as_value_ref().to_value()
    }
}

impl<'a> ValueRef<'a> {
    /// The runtime type of the referenced value.
    pub fn type_tag(&self) -> (t: TypeTag)
        ensures
            t == self@.tag(),
    {
        match self {
            ValueRef::Unit(_) => TypeTag::Unit,
            ValueRef::Bool(_) => TypeTag::Bool,
            ValueRef::Char(_) => TypeTag::Char,
            ValueRef::U8(_) => TypeTag::U8,
            ValueRef::U32(_) => TypeTag::U32,
            ValueRef::U64(_) => TypeTag::U64,
            ValueRef::Usize(_) => TypeTag::Usize,
            ValueRef::I32(_) => TypeTag::I32,
            ValueRef::I64(_) => TypeTag::I64,
            ValueRef::U128(_) => TypeTag::U128,
            ValueRef::BoxedI32(_) => TypeTag::BoxedI32,
            ValueRef::Bytes(_) => TypeTag::Bytes,
            ValueRef::Text(_) => TypeTag::Text,
        }
    }

    /// Clones the referenced value into a fresh owned value.
    pub fn to_value(&self) -> (r: Value)
        ensures
            r@ == self@,
    {
        match self {
            ValueRef::Unit(_) => Value::Unit(()),
            ValueRef::Bool(b) => Value::Bool(**b),
            ValueRef::Char(c) => Value::Char(**c),
            ValueRef::U8(n) => Value::U8(**n),
            ValueRef::U32(n) => Value::U32(**n),
            ValueRef::U64(n) => Value::U64(**n),
            ValueRef::Usize(n) => Value::Usize(**n),
            ValueRef::I32(n) => Value::I32(**n),
            ValueRef::I64(n) => Value::I64(**n),
            ValueRef::U128(n) => Value::U128(**n),
            ValueRef::BoxedI32(b) => Value::BoxedI32(Box::new(***b)),
            ValueRef::Bytes(v) => Value::Bytes(copy_bytes(v)),
            ValueRef::Text(s) => Value::Text((*s).clone()),
        }
    }
}

impl<'a> Clone for ValueRef<'a> {
    /// Another reference to the same value.
    fn clone(&self) -> (r: Self)
        ensures
            r@ == self@,
    {
        match self {
            ValueRef::Unit(x) => ValueRef::Unit(x),
            ValueRef::Bool(x) => ValueRef::Bool(x),
            ValueRef::Char(x) => ValueRef::Char(x),
            ValueRef::U8(x) => ValueRef::U8(x),
            ValueRef::U32(x) => ValueRef::U32(x),
            ValueRef::U64(x) => ValueRef::U64(x),
            ValueRef::Usize(x) => ValueRef::Usize(x),
            ValueRef::I32(x) => ValueRef::I32(x),
            ValueRef::I64(x) => ValueRef::I64(x),
            ValueRef::U128(x) => ValueRef::U128(x),
            ValueRef::BoxedI32(x) => ValueRef::BoxedI32(x),
            ValueRef::Bytes(x) => ValueRef::Bytes(x),
            ValueRef::Text(x) => ValueRef::Text(x),
        }
    }
}

} // verus!
