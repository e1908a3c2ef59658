use crate::datum::{Datum, TypeTag};
use crate::discriminant::Discriminant;
use crate::owned::OwnedArgument;
use crate::value::ValueRef;
use crate::variant::Variant;
use vstd::layout::size_of;
use vstd::prelude::*;

verus! {

/// What a slot is, seen from outside: how it holds its value, and the value.
pub struct ArgumentView {
    pub discriminant: Discriminant,
    pub content: Datum,
}

impl ArgumentView {
    /// The view of a slot that owns `o`.
    pub open spec fn owning(o: OwnedArgument) -> ArgumentView {
        ArgumentView { discriminant: o.spec_discriminant(), content: o@ }
    }

    /// The view of a slot that borrows a value with content `d`.
    pub open spec fn borrowing(d: Datum) -> ArgumentView {
        ArgumentView { discriminant: Discriminant::Borrowed, content: d }
    }

    /// The slot owns its value.
    pub open spec fn owned(self) -> bool {
        self.discriminant.is_owned()
    }
}

/// The discriminant with which a value of type `T` is owned.
pub open spec fn owned_discriminant<T>() -> Discriminant {
    Discriminant::spec_from_flags(size_of::<T>() <= size_of::<usize>(), true)
}

/// The storage of a slot: an owned value, or a reference to one that lives
/// elsewhere.
#[derive(Debug)]
pub enum InnerArgument<'a> {
    Owned(OwnedArgument),
    Borrowed(ValueRef<'a>),
}

impl<'a> View for InnerArgument<'a> {
    type V = ArgumentView;

    open spec fn view(&self) -> ArgumentView {
        match self {
            InnerArgument::Owned(o) => ArgumentView::owning(*o),
            InnerArgument::Borrowed(r) => ArgumentView::borrowing(r@),
        }
    }
}

impl<'a> InnerArgument<'a> {
    /// Storage that owns `item`.
    pub fn new_owned(item: OwnedArgument) -> (r: InnerArgument<'a>)
        ensures
            r == InnerArgument::<'a>::Owned(item),
    {
        InnerArgument::Owned(item)
    }

    /// Storage that borrows the value behind `r`.
    pub fn new_ref(r: ValueRef<'a>) -> (s: InnerArgument<'a>)
        ensures
            s == InnerArgument::Borrowed(r),
    {
        InnerArgument::Borrowed(r)
    }

    /// How the storage holds its value.
    pub fn discriminant(&self) -> (d: Discriminant)
        ensures
            d == self@.discriminant,
    {
        match self {
            InnerArgument::Owned(o) => o.discriminant(),
            InnerArgument::Borrowed(_) => Discriminant::from_flags(false, false),
        }
    }

    /// The storage owns its value.
    pub fn is_owned(&self) -> (r: bool)
        ensures
            r == self@.owned(),
    {
        match self.discriminant() {
            Discriminant::Inlined | Discriminant::Allocated => true,
            Discriminant::Borrowed => false,
        }
    }

    /// The storage borrows its value.
    pub fn is_borrowed(&self) -> (r: bool)
        ensures
            r == !self@.owned(),
    {
        match self.discriminant() {
            Discriminant::Borrowed => true,
            Discriminant::Inlined | Discriminant::Allocated => false,
        }
    }

    /// The reference held by borrowing storage.
    pub fn ref_unchecked(&self) -> (r: ValueRef<'a>)
        requires
            !self@.owned(),
        ensures
            r@ == self@.content,
    {
        match self {
            InnerArgument::Borrowed(r) => r.clone(),
            InnerArgument::Owned(_) => vstd::pervasive::unreached(),
        }
    }

    /// Storage that borrows the value of this one, owned or not.
    pub fn as_ref(&'a self) -> (r: InnerArgument<'a>)
        ensures
            r@ == ArgumentView::borrowing(self@.content),
    {
        InnerArgument::new_ref(self.to_ref())
    }

    /// Mutable access to the owned value. Borrowing storage first clones the
    /// value it borrows and from then on owns the copy.
    pub fn to_mut(&mut self) -> (r: &mut OwnedArgument)
        ensures
            r@ == old(self)@.content,
            old(self)@.owned() ==> r.spec_discriminant() == old(self)@.discriminant,
            !old(self)@.owned() ==> r.well_sized(),
            final(self)@ == ArgumentView::owning(*final(r)),
    {
        if let InnerArgument::Borrowed(b) = self {
            let owned = OwnedArgument::from_value(b.to_value());
            *self = InnerArgument::Owned(owned);
        }
        match self {
            InnerArgument::Owned(o) => o,
            InnerArgument::Borrowed(_) => vstd::pervasive::unreached(),
        }
    }

    /// Consumes the storage and tells what it held.
    pub fn into_inner(self) -> (r: ArgumentKind<'a>)
        ensures
            match r {
                ArgumentKind::Borrowed(b) => self@ == ArgumentView::borrowing(b@),
                ArgumentKind::Owned(o) => self@ == ArgumentView::owning(o),
            },
    {
        match self {
            InnerArgument::Owned(o) => ArgumentKind::Owned(o),
            InnerArgument::Borrowed(b) => ArgumentKind::Borrowed(b),
        }
    }

    /// A shared reference to the value, owned or not.
    pub fn to_ref(&self) -> (r: ValueRef<'_>)
        ensures
            r@ == self@.content,
    {
        match self {
            InnerArgument::Owned(o) => o.raw_ref(),
            InnerArgument::Borrowed(r) => r.clone(),
        }
    }
}

/// What a slot held, handed out by [`Argument::into_inner`].
#[derive(Debug)]
pub enum ArgumentKind<'a> {
    /// The slot borrowed its value.
    Borrowed(ValueRef<'a>),
    /// The slot owned its value.
    Owned(OwnedArgument),
}

/// A slot for one value of a recognised type, with copy-on-write semantics.
///
/// The slot either owns its value, inline or behind one allocation, or
/// borrows a value that lives elsewhere. A mutable access turns a borrowing
/// slot into an owning one by cloning the value.
#[derive(Debug)]
pub struct Argument<'a> {
    inner: InnerArgument<'a>,
}

impl<'a> View for Argument<'a> {
    type V = ArgumentView;

    closed spec fn view(&self) -> ArgumentView {
        self.inner@
    }
}

impl<'a> Argument<'a> {
    /// A slot that owns `item`: inline when `T` is no larger than a pointer,
    /// behind one allocation otherwise.
    pub fn new_owned<T: Variant>(item: T) -> (r: Argument<'a>)
        ensures
            r@.discriminant == owned_discriminant::<T>(),
            r@.content == item.datum(),
    {
        Argument { inner: InnerArgument::new_owned(OwnedArgument::new(item)) }
    }

    /// A slot that borrows `item`.
    pub fn new_borrowed<T: Variant>(item: &'a T) -> (r: Argument<'a>)
        ensures
            r@ == ArgumentView::borrowing(item.datum()),
    {
        Argument { inner: InnerArgument::new_ref(item.as_value_ref()) }
    }

    /// A slot that owns `item`, stored as it is.
    pub fn from_owned(item: OwnedArgument) -> (r: Argument<'a>)
        ensures
            r@ == ArgumentView::owning(item),
    {
        Argument { inner: InnerArgument::new_owned(item) }
    }

    /// How the slot holds its value.
    pub fn discriminant(&self) -> (d: Discriminant)
        ensures
            d == self@.discriminant,
    {
        self.inner.discriminant()
    }

    /// The slot owns its value.
    pub fn is_owned(&self) -> (r: bool)
        ensures
            r == self@.owned(),
    {
        self.inner.is_owned()
    }

    /// The slot borrows its value.
    pub fn is_borrowed(&self) -> (r: bool)
        ensures
            r == !self@.owned(),
    {
        self.inner.is_borrowed()
    }

    /// The runtime type of the value.
    pub fn type_tag(&self) -> (t: TypeTag)
        ensures
            t == self@.content.tag(),
    {
        self.inner.to_ref().type_tag()
    }

    /// The value is of type `T`.
    pub fn is_type<T: Variant>(&self) -> (r: bool)
        ensures
            r == (self@.content.tag() == T::tag()),
    {
        self.type_tag() == T::type_tag()
    }

    /// A slot that borrows the value of this one, owned or not.
    pub fn as_ref(&'a self) -> (r: Argument<'a>)
        ensures
            r@ == ArgumentView::borrowing(self@.content),
    {
        Argument { inner: self.inner.as_ref() }
    }

    /// Mutable access to the owned value. A borrowing slot first clones the
    /// value it borrows and from then on owns the copy; the borrowed value is
    /// left as it was.
    pub fn to_mut(&mut self) -> (r: &mut OwnedArgument)
        ensures
            r@ == old(self)@.content,
            old(self)@.owned() ==> r.spec_discriminant() == old(self)@.discriminant,
            !old(self)@.owned() ==> r.well_sized(),
            final(self)@ == ArgumentView::owning(*final(r)),
    {
        self.inner.to_mut()
    }

    /// An owning slot with the same value: a clone of this slot when it owns
    /// its value, a clone of the borrowed value otherwise.
    pub fn to_owned(&self) -> (r: Argument<'a>)
        ensures
            r@.owned(),
            r@.content == self@.content,
            self@.owned() ==> r@ == self@,
    {
        match &self.inner {
            InnerArgument::Owned(o) => Argument { inner: InnerArgument::new_owned(o.clone()) },
            InnerArgument::Borrowed(_) => Argument {
                inner: InnerArgument::new_owned(
                    OwnedArgument::from_value(self.inner.ref_unchecked().to_value()),
                ),
            },
        }
    }

    /// Takes the value out as a `T`. This succeeds only when the slot owns
    /// its value and the value is of type `T`; otherwise the slot comes back
    /// unchanged.
    pub fn downcast_owned<T: Variant>(self) -> (r: Result<T, Argument<'a>>)
        ensures
            match r {
                Ok(x) => self@.owned() && self@.content.tag() == T::tag() && x.datum()
                    == self@.content,
                Err(e) => !(self@.owned() && self@.content.tag() == T::tag()) && e == self,
            },
    {
        match self.inner {
            InnerArgument::Owned(o) => match o.downcast_owned::<T>() {
                Ok(x) => Ok(x),
                Err(o) => Err(Argument { inner: InnerArgument::Owned(o) }),
            },
            InnerArgument::Borrowed(b) => Err(Argument { inner: InnerArgument::Borrowed(b) }),
        }
    }

    /// Takes the value out as a `T`, where the caller knows that the slot owns
    /// a value of that type.
    pub fn downcast_owned_unchecked<T: Variant>(self) -> (x: T)
        requires
            self@.owned(),
            self@.content.tag() == T::tag(),
        ensures
            x.datum() == self@.content,
    {
        match self.downcast_owned::<T>() {
            Ok(x) => x,
            Err(_) => vstd::pervasive::unreached(),
        }
    }

    /// A copy of the value as a `T`, when it is one. The slot is left as it
    /// is, owned or borrowed.
    pub fn downcast_cloned<T: Variant>(&self) -> (o: Option<T>)
        ensures
            o is Some <==> self@.content.tag() == T::tag(),
            o is Some ==> o->0.datum() == self@.content,
    {
        match T::downcast_ref(&self.inner.to_ref()) {
            Some(x) => Some(x.duplicate()),
            None => None,
        }
    }

    /// A copy of the value as a `T`, where the caller knows the value to be of
    /// that type.
    pub fn downcast_cloned_unchecked<T: Variant>(&self) -> (x: T)
        requires
            self@.content.tag() == T::tag(),
        ensures
            x.datum() == self@.content,
    {
        match self.downcast_cloned::<T>() {
            Some(x) => x,
            None => vstd::pervasive::unreached(),
        }
    }

    /// Consumes the slot and tells what it held: the borrowed reference, or
    /// the owned value.
    pub fn into_inner(self) -> (r: ArgumentKind<'a>)
        ensures
            match r {
                ArgumentKind::Borrowed(b) => self@ == ArgumentView::borrowing(b@),
                ArgumentKind::Owned(o) => self@ == ArgumentView::owning(o),
            },
    {
        self.inner.into_inner()
    }
}

impl<'a> Clone for Argument<'a> {
    /// An owning slot clones its value into fresh storage; a borrowing slot
    /// gives another reference to the same value.
    fn clone(&self) -> (r: Self)
        ensures
            r@ == self@,
    {
        match &self.inner {
            InnerArgument::Owned(o) => Argument { inner: InnerArgument::new_owned(o.clone()) },
            InnerArgument::Borrowed(_) => Argument {
                inner: InnerArgument::new_ref(self.inner.ref_unchecked()),
            },
        }
    }
}

impl<'a> From<OwnedArgument> for Argument<'a> {
    /// A slot that owns `item`, stored as it is.
    fn from(item: OwnedArgument) -> (r: Argument<'a>)
        ensures
            r@ == ArgumentView::owning(item),
    {
        Argument { inner: InnerArgument::Owned(item) }
    }
}

impl<'a> vstd::std_specs::convert::FromSpecImpl<OwnedArgument> for Argument<'a> {
    open spec fn obeys_from_spec() -> bool {
        true
    }

    closed spec fn from_spec(item: OwnedArgument) -> Argument<'a> {
        Argument { inner: InnerArgument::Owned(item) }
    }
}

} // verus!
