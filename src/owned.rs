use crate::datum::{Datum, TypeTag};
use crate::discriminant::Discriminant;
use crate::value::{Value, ValueRef};
use crate::variant::Variant;
use vstd::layout::size_of;
use vstd::prelude::*;

verus! {

/// An owned value kept behind one allocation of its own.
#[derive(Debug)]
pub struct Boxed {
    value: Box<Value>,
}

impl View for Boxed {
    type V = Datum;

    closed spec fn view(&self) -> Datum {
        self.value@
    }
}

impl Boxed {
    /// Moves a value into a fresh allocation.
    pub fn new(value: Value) -> (r: Boxed)
        ensures
            r@ == value@,
    {
        Boxed { value: Box::new(value) }
    }

    /// The runtime type of the value.
    pub fn tag(&self) -> (t: TypeTag)
        ensures
            t == self@.tag(),
    {
        self.value.type_tag()
    }

    /// A shared reference to the value.
    pub fn get(&self) -> (r: &Value)
        ensures
            r@ == self@,
    {
        &self.value
    }

    /// A mutable reference to the value.
    pub fn get_mut(&mut self) -> (r: &mut Value)
        ensures
            r@ == old(self)@,
            final(self)@ == final(r)@,
    {
        &mut self.value
    }

    /// Moves the value back out, releasing the allocation.
    pub fn into_value(self) -> (r: Value)
        ensures
            r@ == self@,
    {
        *self.value
    }
}

impl Clone for Boxed {
    /// A fresh allocation holding a copy of the value.
    fn clone(&self) -> (r: Self)
        ensures
            r@ == self@,
    {
        Boxed { value: Box::new((*self.value).clone()) }
    }
}

/// The two owned representations.
#[derive(Debug)]
enum Storage {
    Inlined(Value),
    Allocated(Boxed),
}

impl View for Storage {
    type V = Datum;

    closed spec fn view(&self) -> Datum {
        match self {
            Storage::Inlined(v) => v@,
            Storage::Allocated(b) => b@,
        }
    }
}

/// A mutable reference to the stored value as a `T`, when it is one.
fn downcast_storage_mut<T: Variant>(store: &mut Storage) -> (o: Option<&mut T>)
    ensures
        o is Some <==> old(store)@.tag() == T::tag(),
        o is Some ==> o->0.datum() == old(store)@,
        o is Some ==> final(store)@ == final(o->0).datum(),
        o is Some ==> ((*final(store)) is Inlined <==> (*old(store)) is Inlined),
        o is None ==> *final(store) == *old(store),
{
    let tag = match &*store {
        Storage::Inlined(v) => v.type_tag(),
        Storage::Allocated(b) => b.tag(),
    };
    if tag != T::type_tag() {
        return None;
    }
    match store {
        Storage::Inlined(v) => T::downcast_mut(v),
        Storage::Allocated(b) => T::downcast_mut(b.get_mut()),
    }
}

/// A value of one of the recognised types, owned, with its type erased.
///
/// A value no larger than a pointer is stored inline; a larger one behind one
/// allocation.
#[derive(Debug)]
pub struct OwnedArgument {
    store: Storage,
}

impl View for OwnedArgument {
    type V = Datum;

    closed spec fn view(&self) -> Datum {
        self.store@
    }
}

impl OwnedArgument {
    /// The value is stored inline rather than behind an allocation.
    pub closed spec fn inline_stored(&self) -> bool {
        self.store is Inlined
    }

    /// The representation follows the size of the value's type: inline when
    /// it is no larger than a pointer, allocated otherwise.
    pub open spec fn well_sized(&self) -> bool {
        self.inline_stored() == self@.tag().fits_inline()
    }

    /// The discriminant of the representation.
    pub open spec fn spec_discriminant(&self) -> Discriminant {
        Discriminant::spec_from_flags(self.inline_stored(), true)
    }

    /// Stores an erased value, inline when its type is no larger than a
    /// pointer, behind an allocation otherwise.
    pub fn from_value(value: Value) -> (r: OwnedArgument)
        ensures
            r@ == value@,
            r.well_sized(),
    {
        let tag = value.type_tag();
        if tag.is_inline_sized() {
            OwnedArgument { store: Storage::Inlined(value) }
        } else {
            OwnedArgument { store: Storage::Allocated(Boxed::new(value)) }
        }
    }
}

impl OwnedArgument {
    /// Erases the type of `item` and stores it: inline when `T` is no larger
    /// than a pointer, behind one allocation otherwise.
    pub fn new<T: Variant>(item: T) -> (r: OwnedArgument)
        ensures
            r@ == item.datum(),
            r@.tag() == T::tag(),
            r.inline_stored() == (size_of::<T>() <= size_of::<usize>()),
            r.well_sized(),
    {
        let tag = T::type_tag();
        let value = item.into_value();
        if core::mem::size_of::<T>() <= core::mem::size_of::<usize>() {
            OwnedArgument { store: Storage::Inlined(value) }
        } else {
            OwnedArgument { store: Storage::Allocated(Boxed::new(value)) }
        }
    }

    /// Whether the value is inlined or allocated, read from the storage
    /// alone.
    pub fn discriminant(&self) -> (d: Discriminant)
        ensures
            d == self.spec_discriminant(),
    {
        match &self.store {
            Storage::Inlined(_) => Discriminant::from_flags(true, true),
            Storage::Allocated(_) => Discriminant::from_flags(false, true),
        }
    }

    /// The value is stored inline.
    pub fn is_inlined(&self) -> (r: bool)
        ensures
            r == self.inline_stored(),
    {
        match &self.store {
            Storage::Inlined(_) => true,
            Storage::Allocated(_) => false,
        }
    }

    /// The erased value, wherever it is stored.
    fn value_ref(&self) -> (r: &Value)
        ensures
            r@ == self@,
    {
        match &self.store {
            Storage::Inlined(v) => v,
            Storage::Allocated(b) => b.get(),
        }
    }

    /// The runtime type of the value.
    pub fn type_tag(&self) -> (t: TypeTag)
        ensures
            t == self@.tag(),
    {
        self.value_ref().type_tag()
    }

    /// The value is of type `T`.
    pub fn is_type<T: Variant>(&self) -> (r: bool)
        ensures
            r == (self@.tag() == T::tag()),
    {
        self.type_tag() == T::type_tag()
    }

    /// A shared reference to the value, with its type erased.
    pub fn raw_ref(&self) -> (r: ValueRef<'_>)
        ensures
            r@ == self@,
    {
        self.value_ref().as_value_ref()
    }

    /// Consumes the storage and hands back the erased value.
    pub fn into_value(self) -> (r: Value)
        ensures
            r@ == self@,
    {
        match self.store {
            Storage::Inlined(v) => v,
            Storage::Allocated(b) => b.into_value(),
        }
    }

    /// Takes the value out as a `T`. When the value is of another type, the
    /// owned value comes back unchanged.
    pub fn downcast_owned<T: Variant>(self) -> (r: Result<T, OwnedArgument>)
        ensures
            match r {
                Ok(x) => self@.tag() == T::tag() && x.datum() == self@,
                Err(e) => self@.tag() != T::tag() && e == self,
            },
    {
        match self.store {
            Storage::Inlined(v) => match T::from_value(v) {
                Ok(x) => Ok(x),
                Err(v) => Err(OwnedArgument { store: Storage::Inlined(v) }),
            },
            Storage::Allocated(b) => {
                if b.tag() == T::type_tag() {
                    match T::from_value(b.into_value()) {
                        Ok(x) => Ok(x),
                        Err(v) => Err(OwnedArgument { store: Storage::Allocated(Boxed::new(v)) }),
                    }
                } else {
                    Err(OwnedArgument { store: Storage::Allocated(b) })
                }
            },
        }
    }

    /// Takes the value out as a `T`, which the caller knows it to be.
    pub fn downcast_owned_unchecked<T: Variant>(self) -> (x: T)
        requires
            self@.tag() == T::tag(),
        ensures
            x.datum() == self@,
    {
        match self.downcast_owned::<T>() {
            Ok(x) => x,
            Err(_) => vstd::pervasive::unreached(),
        }
    }

    /// A reference to the value as a `T`, when it is one.
    pub fn downcast_ref<T: Variant>(&self) -> (o: Option<&T>)
        ensures
            o is Some <==> self@.tag() == T::tag(),
            o is Some ==> o->0.datum() == self@,
    {
        T::downcast_ref(&self.raw_ref())
    }

    /// A copy of the value as a `T`, when it is one. The value stays.
    pub fn downcast_cloned<T: Variant>(&self) -> (o: Option<T>)
        ensures
            o is Some <==> self@.tag() == T::tag(),
            o is Some ==> o->0.datum() == self@,
    {
        match self.downcast_ref::<T>() {
            Some(x) => Some(x.duplicate()),
            None => None,
        }
    }

    /// A copy of the value as a `T`, which the caller knows it to be.
    pub fn downcast_cloned_unchecked<T: Variant>(&self) -> (x: T)
        requires
            self@.tag() == T::tag(),
        ensures
            x.datum() == self@,
    {
        match self.downcast_cloned::<T>() {
            Some(x) => x,
            None => vstd::pervasive::unreached(),
        }
    }

    /// A mutable reference to the value as a `T`, when it is one. Writing
    /// through it changes the value but never its type.
    pub fn downcast_mut<T: Variant>(&mut self) -> (o: Option<&mut T>)
        ensures
            o is Some <==> old(self)@.tag() == T::tag(),
            o is Some ==> o->0.datum() == old(self)@,
            o is Some ==> final(self)@ == final(o->0).datum(),
            o is Some ==> final(self).inline_stored() == old(self).inline_stored(),
            o is None ==> *final(self) == *old(self),
    {
        downcast_storage_mut(&mut self.store)
    }
}

impl Clone for OwnedArgument {
    /// A fresh owned value with the same content and representation, sharing
    /// no storage with this one.
    fn clone(&self) -> (r: Self)
        ensures
            r@ == self@,
            r.inline_stored() == self.inline_stored(),
    {
        match &self.store {
            Storage::Inlined(v) => OwnedArgument { store: Storage::Inlined(v.clone()) },
            Storage::Allocated(b) => OwnedArgument { store: Storage::Allocated(b.clone()) },
        }
    }
}

} // verus!
