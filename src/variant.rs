use crate::datum::{Datum, TypeTag};
use crate::value::{copy_bytes, Value, ValueRef};
use vstd::layout::size_of;
use vstd::prelude::*;

verus! {

/// The operations every storable type offers once its type is erased: a type
/// check, a consuming downcast, a borrowing downcast and a clone.
pub trait Variant: Sized {
    /// The type tag that names `Self`.
    spec fn tag() -> TypeTag;

    /// The content of a value of `Self`, as an erased datum.
    spec fn datum(&self) -> Datum;

    /// Every value of `Self` has content of `Self`'s type.
    proof fn lemma_datum_tag(&self)
        ensures
            self.datum().tag() == Self::tag(),
    ;

    /// The runtime type tag of `Self`.
    fn type_tag() -> (t: TypeTag)
        ensures
            t == Self::tag(),
            t.byte_size() == size_of::<Self>(),
    ;

    /// Erases the type of an owned value.
    fn into_value(self) -> (v: Value)
        ensures
            v@ == self.datum(),
            v@.tag() == Self::tag(),
    ;

    /// Takes a value of `Self` out of an erased value, or gives the value back
    /// unchanged when it holds another type.
    fn from_value(v: Value) -> (r: Result<Self, Value>)
        ensures
            match r {
                Ok(x) => v@.tag() == Self::tag() && x.datum() == v@,
                Err(e) => v@.tag() != Self::tag() && e == v,
            },
    ;

    /// Erases the type of a shared reference.
    fn as_value_ref(&self) -> (r: ValueRef<'_>)
        ensures
            r@ == self.datum(),
    ;

    /// A reference to the `Self` behind an erased reference, when it holds one.
    fn downcast_ref<'a>(r: &ValueRef<'a>) -> (o: Option<&'a Self>)
        ensures
            o is Some <==> r@.tag() == Self::tag(),
            o is Some ==> o->0.datum() == r@,
    ;

    /// A mutable reference to the `Self` inside an erased value, when it
    /// holds one. Writing through it keeps the type of the value.
    fn downcast_mut(v: &mut Value) -> (o: Option<&mut Self>)
        ensures
            o is Some <==> old(v)@.tag() == Self::tag(),
            o is Some ==> o->0.datum() == old(v)@,
            o is Some ==> final(v)@ == final(o->0).datum(),
            o is None ==> *final(v) == *old(v),
    ;

    /// A fresh copy with the same content.
    fn duplicate(&self) -> (r: Self)
        ensures
            r.datum() == self.datum(),
    ;
}

impl Variant for () {
    open spec fn tag() -> TypeTag {
        TypeTag::Unit
    }

    open spec fn datum(&self) -> Datum {
        Datum::Unit
    }

    proof fn lemma_datum_tag(&self) {
    }

    fn type_tag() -> (t: TypeTag) {
        TypeTag::Unit
    }

    fn into_value(self) -> (v: Value) {
        Value::Unit(self)
    }

    fn as_value_ref(&self) -> (r: ValueRef<'_>) {
        ValueRef::Unit(self)
    }

    fn from_value(v: Value) -> (r: Result<Self, Value>) {
        match v {
            Value::Unit(x) => Ok(x),
            other => Err(other),
        }
    }

    fn downcast_ref<'a>(r: &ValueRef<'a>) -> (o: Option<&'a Self>) {
        match r {
            ValueRef::Unit(x) => Some(*x),
            _ => None,
        }
    }

    fn downcast_mut(v: &mut Value) -> (o: Option<&mut Self>) {
        match v {
            Value::Unit(x) => Some(x),
            _ => None,
        }
    }

    fn duplicate(&self) -> (r: Self) {
        *self
    }
}

impl Variant for bool {
    open spec fn tag() -> TypeTag {
        TypeTag::Bool
    }

    open spec fn datum(&self) -> Datum {
        Datum::Bool(*self)
    }

    proof fn lemma_datum_tag(&self) {
    }

    fn type_tag() -> (t: TypeTag) {
        TypeTag::Bool
    }

    fn into_value(self) -> (v: Value) {
        Value::Bool(self)
    }

    fn as_value_ref(&self) -> (r: ValueRef<'_>) {
        ValueRef::Bool(self)
    }

    fn from_value(v: Value) -> (r: Result<Self, Value>) {
        match v {
            Value::Bool(x) => Ok(x),
            other => Err(other),
        }
    }

    fn downcast_ref<'a>(r: &ValueRef<'a>) -> (o: Option<&'a Self>) {
        match r {
            ValueRef::Bool(x) => Some(*x),
            _ => None,
        }
    }

    fn downcast_mut(v: &mut Value) -> (o: Option<&mut Self>) {
        match v {
            Value::Bool(x) => Some(x),
            _ => None,
        }
    }

    fn duplicate(&self) -> (r: Self) {
        *self
    }
}

impl Variant for char {
    open spec fn tag() -> TypeTag {
        TypeTag::Char
    }

    open spec fn datum(&self) -> Datum {
        Datum::Char(*self)
    }

    proof fn lemma_datum_tag(&self) {
    }

    fn type_tag() -> (t: TypeTag) {
        TypeTag::Char
    }

    fn into_value(self) -> (v: Value) {
        Value::Char(self)
    }

    fn as_value_ref(&self) -> (r: ValueRef<'_>) {
        ValueRef::Char(self)
    }

    fn from_value(v: Value) -> (r: Result<Self, Value>) {
        match v {
            Value::Char(x) => Ok(x),
            other => Err(other),
        }
    }

    fn downcast_ref<'a>(r: &ValueRef<'a>) -> (o: Option<&'a Self>) {
        match r {
            ValueRef::Char(x) => Some(*x),
            _ => None,
        }
    }

    fn downcast_mut(v: &mut Value) -> (o: Option<&mut Self>) {
        match v {
            Value::Char(x) => Some(x),
            _ => None,
        }
    }

    fn duplicate(&self) -> (r: Self) {
        *self
    }
}

impl Variant for u8 {
    open spec fn tag() -> TypeTag {
        TypeTag::U8
    }

    open spec fn datum(&self) -> Datum {
        Datum::U8(*self)
    }

    proof fn lemma_datum_tag(&self) {
    }

    fn type_tag() -> (t: TypeTag) {
        TypeTag::U8
    }

    fn into_value(self) -> (v: Value) {
        Value::U8(self)
    }

    fn as_value_ref(&self) -> (r: ValueRef<'_>) {
        ValueRef::U8(self)
    }

    fn from_value(v: Value) -> (r: Result<Self, Value>) {
        match v {
            Value::U8(x) => Ok(x),
            other => Err(other),
        }
    }

    fn downcast_ref<'a>(r: &ValueRef<'a>) -> (o: Option<&'a Self>) {
        match r {
            ValueRef::U8(x) => Some(*x),
            _ => None,
        }
    }

    fn downcast_mut(v: &mut Value) -> (o: Option<&mut Self>) {
        match v {
            Value::U8(x) => Some(x),
            _ => None,
        }
    }

    fn duplicate(&self) -> (r: Self) {
        *self
    }
}

impl Variant for u32 {
    open spec fn tag() -> TypeTag {
        TypeTag::U32
    }

    open spec fn datum(&self) -> Datum {
        Datum::U32(*self)
    }

    proof fn lemma_datum_tag(&self) {
    }

    fn type_tag() -> (t: TypeTag) {
        TypeTag::U32
    }

    fn into_value(self) -> (v: Value) {
        Value::U32(self)
    }

    fn as_value_ref(&self) -> (r: ValueRef<'_>) {
        ValueRef::U32(self)
    }

    fn from_value(v: Value) -> (r: Result<Self, Value>) {
        match v {
            Value::U32(x) => Ok(x),
            other => Err(other),
        }
    }

    fn downcast_ref<'a>(r: &ValueRef<'a>) -> (o: Option<&'a Self>) {
        match r {
            ValueRef::U32(x) => Some(*x),
            _ => None,
        }
    }

    fn downcast_mut(v: &mut Value) -> (o: Option<&mut Self>) {
        match v {
            Value::U32(x) => Some(x),
            _ => None,
        }
    }

    fn duplicate(&self) -> (r: Self) {
        *self
    }
}

impl Variant for u64 {
    open spec fn tag() -> TypeTag {
        TypeTag::U64
    }

    open spec fn datum(&self) -> Datum {
        Datum::U64(*self)
    }

    proof fn lemma_datum_tag(&self) {
    }

    fn type_tag() -> (t: TypeTag) {
        TypeTag::U64
    }

    fn into_value(self) -> (v: Value) {
        Value::U64(self)
    }

    fn as_value_ref(&self) -> (r: ValueRef<'_>) {
        ValueRef::U64(self)
    }

    fn from_value(v: Value) -> (r: Result<Self, Value>) {
        match v {
            Value::U64(x) => Ok(x),
            other => Err(other),
        }
    }

    fn downcast_ref<'a>(r: &ValueRef<'a>) -> (o: Option<&'a Self>) {
        match r {
            ValueRef::U64(x) => Some(*x),
            _ => None,
        }
    }

    fn downcast_mut(v: &mut Value) -> (o: Option<&mut Self>) {
        match v {
            Value::U64(x) => Some(x),
            _ => None,
        }
    }

    fn duplicate(&self) -> (r: Self) {
        *self
    }
}

impl Variant for usize {
    open spec fn tag() -> TypeTag {
        TypeTag::Usize
    }

    open spec fn datum(&self) -> Datum {
        Datum::Usize(*self)
    }

    proof fn lemma_datum_tag(&self) {
    }

    fn type_tag() -> (t: TypeTag) {
        TypeTag::Usize
    }

    fn into_value(self) -> (v: Value) {
        Value::Usize(self)
    }

    fn as_value_ref(&self) -> (r: ValueRef<'_>) {
        ValueRef::Usize(self)
    }

    fn from_value(v: Value) -> (r: Result<Self, Value>) {
        match v {
            Value::Usize(x) => Ok(x),
            other => Err(other),
        }
    }

    fn downcast_ref<'a>(r: &ValueRef<'a>) -> (o: Option<&'a Self>) {
        match r {
            ValueRef::Usize(x) => Some(*x),
            _ => None,
        }
    }

    fn downcast_mut(v: &mut Value) -> (o: Option<&mut Self>) {
        match v {
            Value::Usize(x) => Some(x),
            _ => None,
        }
    }

    fn duplicate(&self) -> (r: Self) {
        *self
    }
}

impl Variant for i32 {
    open spec fn tag() -> TypeTag {
        TypeTag::I32
    }

    open spec fn datum(&self) -> Datum {
        Datum::I32(*self)
    }

    proof fn lemma_datum_tag(&self) {
    }

    fn type_tag() -> (t: TypeTag) {
        TypeTag::I32
    }

    fn into_value(self) -> (v: Value) {
        Value::I32(self)
    }

    fn as_value_ref(&self) -> (r: ValueRef<'_>) {
        ValueRef::I32(self)
    }

    fn from_value(v: Value) -> (r: Result<Self, Value>) {
        match v {
            Value::I32(x) => Ok(x),
            other => Err(other),
        }
    }

    fn downcast_ref<'a>(r: &ValueRef<'a>) -> (o: Option<&'a Self>) {
        match r {
            ValueRef::I32(x) => Some(*x),
            _ => None,
        }
    }

    fn downcast_mut(v: &mut Value) -> (o: Option<&mut Self>) {
        match v {
            Value::I32(x) => Some(x),
            _ => None,
        }
    }

    fn duplicate(&self) -> (r: Self) {
        *self
    }
}

impl Variant for i64 {
    open spec fn tag() -> TypeTag {
        TypeTag::I64
    }

    open spec fn datum(&self) -> Datum {
        Datum::I64(*self)
    }

    proof fn lemma_datum_tag(&self) {
    }

    fn type_tag() -> (t: TypeTag) {
        TypeTag::I64
    }

    fn into_value(self) -> (v: Value) {
        Value::I64(self)
    }

    fn as_value_ref(&self) -> (r: ValueRef<'_>) {
        ValueRef::I64(self)
    }

    fn from_value(v: Value) -> (r: Result<Self, Value>) {
        match v {
            Value::I64(x) => Ok(x),
            other => Err(other),
        }
    }

    fn downcast_ref<'a>(r: &ValueRef<'a>) -> (o: Option<&'a Self>) {
        match r {
            ValueRef::I64(x) => Some(*x),
            _ => None,
        }
    }

    fn downcast_mut(v: &mut Value) -> (o: Option<&mut Self>) {
        match v {
            Value::I64(x) => Some(x),
            _ => None,
        }
    }

    fn duplicate(&self) -> (r: Self) {
        *self
    }
}

impl Variant for u128 {
    open spec fn tag() -> TypeTag {
        TypeTag::U128
    }

    open spec fn datum(&self) -> Datum {
        Datum::U128(*self)
    }

    proof fn lemma_datum_tag(&self) {
    }

    fn type_tag() -> (t: TypeTag) {
        TypeTag::U128
    }

    fn into_value(self) -> (v: Value) {
        Value::U128(self)
    }

    fn as_value_ref(&self) -> (r: ValueRef<'_>) {
        ValueRef::U128(self)
    }

    fn from_value(v: Value) -> (r: Result<Self, Value>) {
        match v {
            Value::U128(x) => Ok(x),
            other => Err(other),
        }
    }

    fn downcast_ref<'a>(r: &ValueRef<'a>) -> (o: Option<&'a Self>) {
        match r {
            ValueRef::U128(x) => Some(*x),
            _ => None,
        }
    }

    fn downcast_mut(v: &mut Value) -> (o: Option<&mut Self>) {
        match v {
            Value::U128(x) => Some(x),
            _ => None,
        }
    }

    fn duplicate(&self) -> (r: Self) {
        *self
    }
}

impl Variant for Box<i32> {
    open spec fn tag() -> TypeTag {
        TypeTag::BoxedI32
    }

    open spec fn datum(&self) -> Datum {
        Datum::BoxedI32(**self)
    }

    proof fn lemma_datum_tag(&self) {
    }

    fn type_tag() -> (t: TypeTag) {
        TypeTag::BoxedI32
    }

    fn into_value(self) -> (v: Value) {
        Value::BoxedI32(self)
    }

    fn as_value_ref(&self) -> (r: ValueRef<'_>) {
        ValueRef::BoxedI32(self)
    }

    fn from_value(v: Value) -> (r: Result<Self, Value>) {
        match v {
            Value::BoxedI32(x) => Ok(x),
            other => Err(other),
        }
    }

    fn downcast_ref<'a>(r: &ValueRef<'a>) -> (o: Option<&'a Self>) {
        match r {
            ValueRef::BoxedI32(x) => Some(*x),
            _ => None,
        }
    }

    fn downcast_mut(v: &mut Value) -> (o: Option<&mut Self>) {
        match v {
            Value::BoxedI32(x) => Some(x),
            _ => None,
        }
    }

    fn duplicate(&self) -> (r: Self) {
        Box::new(**self)
    }
}

impl Variant for Vec<u8> {
    open spec fn tag() -> TypeTag {
        TypeTag::Bytes
    }

    open spec fn datum(&self) -> Datum {
        Datum::Bytes(self@)
    }

    proof fn lemma_datum_tag(&self) {
    }

    fn type_tag() -> (t: TypeTag) {
        TypeTag::Bytes
    }

    fn into_value(self) -> (v: Value) {
        Value::Bytes(self)
    }

    fn as_value_ref(&self) -> (r: ValueRef<'_>) {
        ValueRef::Bytes(self)
    }

    fn from_value(v: Value) -> (r: Result<Self, Value>) {
        match v {
            Value::Bytes(x) => Ok(x),
            other => Err(other),
        }
    }

    fn downcast_ref<'a>(r: &ValueRef<'a>) -> (o: Option<&'a Self>) {
        match r {
            ValueRef::Bytes(x) => Some(*x),
            _ => None,
        }
    }

    fn downcast_mut(v: &mut Value) -> (o: Option<&mut Self>) {
        match v {
            Value::Bytes(x) => Some(x),
            _ => None,
        }
    }

    fn duplicate(&self) -> (r: Self) {
        copy_bytes(self)
    }
}

impl Variant for String {
    open spec fn tag() -> TypeTag {
        TypeTag::Text
    }

    open spec fn datum(&self) -> Datum {
        Datum::Text(self@)
    }

    proof fn lemma_datum_tag(&self) {
    }

    fn type_tag() -> (t: TypeTag) {
        TypeTag::Text
    }

    fn into_value(self) -> (v: Value) {
        Value::Text(self)
    }

    fn as_value_ref(&self) -> (r: ValueRef<'_>) {
        ValueRef::Text(self)
    }

    fn from_value(v: Value) -> (r: Result<Self, Value>) {
        match v {
            Value::Text(x) => Ok(x),
            other => Err(other),
        }
    }

    fn downcast_ref<'a>(r: &ValueRef<'a>) -> (o: Option<&'a Self>) {
        match r {
            ValueRef::Text(x) => Some(*x),
            _ => None,
        }
    }

    fn downcast_mut(v: &mut Value) -> (o: Option<&mut Self>) {
        match v {
            Value::Text(x) => Some(x),
            _ => None,
        }
    }

    fn duplicate(&self) -> (r: Self) {
        self.clone()
    }
}

} // verus!
