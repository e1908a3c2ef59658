use crate::argument::{owned_discriminant, Argument, ArgumentView};
use crate::arguments::{views, Arguments, MAX_ARG_COUNT};
use crate::variant::Variant;
use vstd::prelude::*;

verus! {

/// The number of elements `v` can hold without reallocating.
///
/// Relies on `Vec::capacity`, which is never below the length.
#[verifier::external_body]
fn vec_capacity<'a>(v: &Vec<Argument<'a>>) -> (r: usize)
    ensures
        r >= v@.len(),
{
    v.capacity()
}

/// Collects what an iterator yields.
///
/// Relies on `Iterator::collect` into a `Vec`; what the iterator yields is
/// not known here.
#[verifier::external_body]
pub(crate) fn collect_arguments<'a, I: Iterator<Item = Argument<'a>>>(items: I) -> (r: Vec<
    Argument<'a>,
>) {
    items.collect()
}

/// Builds an [`Arguments`] table one argument at a time, never letting it
/// grow past [`MAX_ARG_COUNT`] arguments.
#[derive(Debug)]
pub struct ArgumentsBuilder<'a> {
    table: Vec<Argument<'a>>,
}

impl<'a> View for ArgumentsBuilder<'a> {
    type V = Seq<ArgumentView>;

    closed spec fn view(&self) -> Seq<ArgumentView> {
        views(self.table@)
    }
}

impl<'a> ArgumentsBuilder<'a> {
    /// The builder holds no more than [`MAX_ARG_COUNT`] arguments.
    pub open spec fn wf(&self) -> bool {
        self@.len() <= MAX_ARG_COUNT
    }

    /// An empty builder.
    pub fn new() -> (r: ArgumentsBuilder<'a>)
        ensures
            r@ == Seq::<ArgumentView>::empty(),
            r.wf(),
    {
        ArgumentsBuilder { table: Vec::new() }
    }

    /// An empty builder with room for `cap` arguments, or for
    /// [`MAX_ARG_COUNT`] when `cap` is larger.
    pub fn with_capacity(cap: usize) -> (r: ArgumentsBuilder<'a>)
        ensures
            r@ == Seq::<ArgumentView>::empty(),
            r.wf(),
    {
        let cap = if cap <= MAX_ARG_COUNT {
            cap
        } else {
            MAX_ARG_COUNT
        };
        ArgumentsBuilder { table: Vec::with_capacity(cap) }
    }

    /// The number of arguments so far.
    pub fn len(&self) -> (r: usize)
        ensures
            r == self@.len(),
    {
        self.table.len()
    }

    /// The arguments so far, in order.
    pub fn as_slice(&self) -> (r: &[Argument<'a>])
        ensures
            views(r@) == self@,
    {
        self.table.as_slice()
    }

    /// The builder holds [`MAX_ARG_COUNT`] arguments and takes no more.
    pub fn is_full(&self) -> (r: bool)
        ensures
            r == (self@.len() >= MAX_ARG_COUNT),
    {
        self.len() >= MAX_ARG_COUNT
    }

    /// There is room for one more argument.
    fn can_insert_args(&self) -> (r: bool)
        ensures
            r == (self@.len() < MAX_ARG_COUNT),
    {
        self.len() < MAX_ARG_COUNT
    }

    /// How many more arguments the builder takes.
    fn remaining(&self) -> (r: usize)
        requires
            self.wf(),
        ensures
            r == MAX_ARG_COUNT - self@.len(),
    {
        MAX_ARG_COUNT - self.len()
    }

    /// The number of arguments the builder can hold without reallocating.
    pub fn capacity(&self) -> (r: usize)
        ensures
            r >= self@.len(),
    {
        vec_capacity(&self.table)
    }

    /// Reserves room for `count` more arguments, but never for more than the
    /// builder can take. Nothing happens once the capacity reaches
    /// [`MAX_ARG_COUNT`].
    pub fn reserve(&mut self, count: usize)
        requires
            old(self).wf(),
        ensures
            final(self)@ == old(self)@,
    {
        if self.capacity() < MAX_ARG_COUNT {
            let remaining = self.remaining();
            let count = if count > remaining {
                remaining
            } else {
                count
            };
            self.table.reserve(count);
        }
    }

    /// Appends `arg` when there is room for it.
    fn push_checked(&mut self, arg: Argument<'a>) -> (r: Result<(), Argument<'a>>)
        requires
            old(self).wf(),
        ensures
            final(self).wf(),
            match r {
                Ok(()) => old(self)@.len() < MAX_ARG_COUNT && final(self)@ == old(self)@.push(arg@),
                Err(e) => old(self)@.len() >= MAX_ARG_COUNT && e == arg && final(self)@ == old(self)@,
            },
    {
        if self.can_insert_args() {
            self.table.push(arg);
            proof {
                assert(views(self.table@) =~= views(old(self).table@).push(arg@));
            }
            Ok(())
        } else {
            Err(arg)
        }
    }

    /// Appends an owning slot for `owned`; when the builder is full, `owned`
    /// comes back.
    pub fn insert_owned<T: Variant>(&mut self, owned: T) -> (r: Result<(), T>)
        requires
            old(self).wf(),
        ensures
            final(self).wf(),
            match r {
                Ok(()) => old(self)@.len() < MAX_ARG_COUNT && final(self)@ == old(self)@.push(
                    ArgumentView { discriminant: owned_discriminant::<T>(), content: owned.datum() },
                ),
                Err(e) => old(self)@.len() >= MAX_ARG_COUNT && e == owned && final(self)@ == old(self)@,
            },
    {
        if self.can_insert_args() {
            let r = self.push_checked(Argument::new_owned(owned));
            proof {
                let ghost v = ArgumentView {
                    discriminant: owned_discriminant::<T>(),
                    content: owned.datum(),
                };
                assert(final(self)@.last() == v);
            }
            Ok(())
        } else {
            Err(owned)
        }
    }

    /// Appends a slot that borrows `borrowed`, and tells whether there was
    /// room for it.
    pub fn insert_borrowed<T: Variant>(&mut self, borrowed: &'a T) -> (r: bool)
        requires
            old(self).wf(),
        ensures
            final(self).wf(),
            r == (old(self)@.len() < MAX_ARG_COUNT),
            r ==> final(self)@ == old(self)@.push(ArgumentView::borrowing(borrowed.datum())),
            !r ==> final(self)@ == old(self)@,
    {
        match self.push_checked(Argument::new_borrowed(borrowed)) {
            Ok(()) => true,
            Err(_) => false,
        }
    }

    /// Appends `arg`; when the builder is full, `arg` comes back.
    pub fn insert_argument(&mut self, arg: Argument<'a>) -> (r: Result<(), Argument<'a>>)
        requires
            old(self).wf(),
        ensures
            final(self).wf(),
            match r {
                Ok(()) => old(self)@.len() < MAX_ARG_COUNT && final(self)@ == old(self)@.push(arg@),
                Err(e) => old(self)@.len() >= MAX_ARG_COUNT && e == arg && final(self)@ == old(self)@,
            },
    {
        self.push_checked(arg)
    }

    /// Removes and returns the argument at `idx`, or `None` when there is no
    /// argument there.
    pub fn remove(&mut self, idx: usize) -> (r: Option<Argument<'a>>)
        requires
            old(self).wf(),
        ensures
            final(self).wf(),
            r is Some <==> idx < old(self)@.len(),
            r is Some ==> r->0@ == old(self)@[idx as int] && final(self)@ == old(self)@.remove(
                idx as int,
            ),
            r is None ==> final(self)@ == old(self)@,
    {
        if idx < self.len() {
            let a = self.table.remove(idx);
            proof {
                assert(views(self.table@) =~= views(old(self).table@).remove(idx as int));
            }
            Some(a)
        } else {
            None
        }
    }

    /// Removes and returns the last argument, or `None` when there is none.
    pub fn pop(&mut self) -> (r: Option<Argument<'a>>)
        requires
            old(self).wf(),
        ensures
            final(self).wf(),
            r is Some <==> old(self)@.len() > 0,
            r is Some ==> r->0@ == old(self)@.last() && final(self)@ == old(self)@.drop_last(),
            r is None ==> final(self)@ == old(self)@,
    {
        let r = self.table.pop();
        proof {
            if old(self)@.len() > 0 {
                assert(views(self.table@) =~= views(old(self).table@).drop_last());
            }
        }
        r
    }

    /// Appends the leading arguments of `items` while there is room, and
    /// returns the ones that did not fit, in order.
    pub fn extend_from_vec(&mut self, items: Vec<Argument<'a>>) -> (rest: Vec<Argument<'a>>)
        requires
            old(self).wf(),
        ensures
            final(self).wf(),
            ({
                let k = if items@.len() <= MAX_ARG_COUNT - old(self)@.len() {
                    items@.len() as int
                } else {
                    MAX_ARG_COUNT - old(self)@.len()
                };
                &&& final(self)@ == old(self)@ + views(items@.subrange(0, k))
                &&& rest@ == items@.subrange(k, items@.len() as int)
            }),
    {
        let room = self.remaining();
        let k = if items.len() <= room {
            items.len()
        } else {
            room
        };
        let mut items = items;
        let rest = items.split_off(k);
        let ghost front = items@;
        self.table.append(&mut items);
        proof {
            assert(views(self.table@) =~= views(old(self).table@) + views(front));
        }
        rest
    }

    /// Appends what `args` yields while there is room, and returns the rest,
    /// in order. When anything is returned, the builder is full.
    pub fn extend<I: Iterator<Item = Argument<'a>>>(&mut self, args: I) -> (rest: Vec<Argument<'a>>)
        requires
            old(self).wf(),
        ensures
            final(self).wf(),
            final(self)@.subrange(0, old(self)@.len() as int) == old(self)@,
            rest@.len() > 0 ==> final(self)@.len() == MAX_ARG_COUNT,
    {
        let rest = self.extend_from_vec(collect_arguments(args));
        proof {
            assert(final(self)@.subrange(0, old(self)@.len() as int) =~= old(self)@);
        }
        rest
    }

    /// The finished table, holding the arguments in order.
    pub fn build(self) -> (r: Arguments<'a>)
        requires
            self.wf(),
        ensures
            r@ == self@,
    {
        match Arguments::from_args(self.table) {
            Ok(a) => a,
            Err(_) => vstd::pervasive::unreached(),
        }
    }
}

impl<'a> Clone for ArgumentsBuilder<'a> {
    /// A copy of every slot, in order: owned values are cloned, borrowed ones
    /// borrowed again.
    fn clone(&self) -> (r: Self)
        ensures
            r@ == self@,
    {
        let table = self.table.clone();
        proof {
            assert forall|i: int| 0 <= i < table@.len() implies (#[trigger] table@[i])@
                == self.table@[i]@ by {
                assert(cloned::<Argument<'a>>(self.table@[i], table@[i]));
            }
            assert(views(table@) =~= views(self.table@));
        }
        ArgumentsBuilder { table }
    }
}

impl<'a> Default for ArgumentsBuilder<'a> {
    /// An empty builder.
    fn default() -> (r: Self)
        ensures
            r@ == Seq::<ArgumentView>::empty(),
    {
        ArgumentsBuilder::new()
    }
}

} // verus!
