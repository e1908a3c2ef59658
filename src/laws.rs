use crate::argument::{Argument, ArgumentView};
use crate::owned::OwnedArgument;
use crate::variant::Variant;
use vstd::prelude::*;

verus! {

/// An owned slot gives back the value it was made with: downcasting
/// `Argument::new_owned(v)` to `T` succeeds and yields a value equal to `v`,
/// whether `v` was stored inline or behind an allocation.
pub proof fn lemma_owned_round_trip<'a, T: Variant>(
    v: T,
    s: Argument<'a>,
    r: Result<T, Argument<'a>>,
)
    requires
        call_ensures(Argument::<'a>::new_owned::<T>, (v,), s),
        call_ensures(Argument::<'a>::downcast_owned::<T>, (s,), r),
    ensures
        r is Ok,
        r->Ok_0.datum() == v.datum(),
{
    v.lemma_datum_tag();
}

/// The same round trip on an owned value alone: `OwnedArgument::new(v)`
/// downcast to `T` gives back a value equal to `v`.
pub proof fn lemma_owned_value_round_trip<T: Variant>(
    v: T,
    o: OwnedArgument,
    r: Result<T, OwnedArgument>,
)
    requires
        call_ensures(OwnedArgument::new::<T>, (v,), o),
        call_ensures(OwnedArgument::downcast_owned::<T>, (o,), r),
    ensures
        r is Ok,
        r->Ok_0.datum() == v.datum(),
{
}

/// A borrowing slot is never consumed: downcasting
/// `Argument::new_borrowed(&v)` to any type fails, and the slot that comes
/// back still borrows a value equal to `v`.
pub proof fn lemma_borrowed_never_consumed<'a, T: Variant, U: Variant>(
    v: &'a T,
    s: Argument<'a>,
    r: Result<U, Argument<'a>>,
)
    requires
        call_ensures(Argument::<'a>::new_borrowed::<T>, (v,), s),
        call_ensures(Argument::<'a>::downcast_owned::<U>, (s,), r),
    ensures
        r is Err,
        r->Err_0@ == ArgumentView::borrowing(v.datum()),
{
}

/// Downcasting a slot to a type other than that of its value changes
/// nothing: the very same slot comes back, with its content and type.
pub proof fn lemma_mismatch_keeps_slot<'a, B: Variant>(s: Argument<'a>, r: Result<B, Argument<'a>>)
    requires
        s@.content.tag() != B::tag(),
        call_ensures(Argument::<'a>::downcast_owned::<B>, (s,), r),
    ensures
        r == Err::<B, Argument<'a>>(s),
{
}

/// The same for an owned value alone: downcasting it to another type gives
/// it back unchanged.
pub proof fn lemma_mismatch_keeps_value<B: Variant>(o: OwnedArgument, r: Result<B, OwnedArgument>)
    requires
        o@.tag() != B::tag(),
        call_ensures(OwnedArgument::downcast_owned::<B>, (o,), r),
    ensures
        r == Err::<B, OwnedArgument>(o),
{
}

/// Promoting a borrowing slot over `v` makes it an owning slot whose value
/// equals `v`; what is then written through the promoted value is what the
/// slot holds, while `v`, reached only through a shared reference, stays as
/// it was.
pub proof fn lemma_promotion<'a, 'b, T: Variant>(
    v: &'a T,
    m: &'b mut Argument<'a>,
    r: &'b mut OwnedArgument,
)
    requires
        old(m)@ == ArgumentView::borrowing(v.datum()),
        call_ensures(Argument::<'a>::to_mut, (m,), r),
    ensures
        final(m)@.owned(),
        old(r)@ == v.datum(),
        final(m)@.content == final(r)@,
{
}

/// A clone of an owning slot is independent of it: the clone starts with
/// the same representation and content, and what is written through the
/// clone's mutable access ends up in the clone alone, while the slot that
/// was cloned keeps its view.
pub proof fn lemma_clone_independent<'a, 'b>(
    a: Argument<'a>,
    c: &'b mut Argument<'a>,
    r: &'b mut OwnedArgument,
)
    requires
        a@.owned(),
        call_ensures(Argument::<'a>::clone, (&a,), *old(c)),
        call_ensures(Argument::<'a>::to_mut, (c,), r),
    ensures
        old(c)@ == a@,
        old(r)@ == a@.content,
        old(r).spec_discriminant() == a@.discriminant,
        final(c)@ == ArgumentView::owning(*final(r)),
{
}

} // verus!
