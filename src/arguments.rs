use crate::argument::{Argument, ArgumentView};
use crate::builder::collect_arguments;
use vstd::prelude::*;
use vstd::std_specs::iter::IteratorSpec;

verus! {

/// The largest number of arguments that a container holds.
pub const MAX_ARG_COUNT: usize = 1024;

/// The views of a sequence of slots.
pub open spec fn views<'a>(s: Seq<Argument<'a>>) -> Seq<ArgumentView> {
    s.map_values(|a: Argument<'a>| a@)
}

/// Turns the slot at `i` into an owning one, keeping its content.
fn promote_at<'a>(table: &mut Vec<Argument<'a>>, i: usize)
    requires
        i < old(table)@.len(),
    ensures
        final(table)@.len() == old(table)@.len(),
        final(table)@[i as int]@.owned(),
        final(table)@[i as int]@.content == old(table)@[i as int]@.content,
        forall|j: int| 0 <= j < old(table)@.len() && j != i ==> #[trigger] final(table)@[j] == old(table)@[j],
{
    let _ = table[i].to_mut();
}

/// A fixed-length table of at most [`MAX_ARG_COUNT`] arguments.
///
/// The slots can be changed in place, but none added or removed.
#[derive(Debug)]
pub struct Arguments<'a> {
    table: Vec<Argument<'a>>,
}

impl<'a> View for Arguments<'a> {
    type V = Seq<ArgumentView>;

    closed spec fn view(&self) -> Seq<ArgumentView> {
        views(self.table@)
    }
}

impl<'a> Arguments<'a> {
    /// A table holding clones of `contents`, or `None` when there are more
    /// than [`MAX_ARG_COUNT`] of them.
    pub fn from_slice(contents: &[Argument<'a>]) -> (r: Option<Arguments<'a>>)
        ensures
            r is Some <==> contents@.len() <= MAX_ARG_COUNT,
            r is Some ==> r->0@ == views(contents@),
    {
        let count = contents.len();
        if count > MAX_ARG_COUNT {
            return None;
        }
        let mut table: Vec<Argument<'a>> = Vec::new();
        let mut i: usize = 0;
        while i < count
            invariant
                count == contents@.len(),
                i <= count,
                table@.len() == i,
                forall|j: int| 0 <= j < i ==> (#[trigger] table@[j])@ == contents@[j]@,
            decreases count - i,
        {
            table.push(contents[i].clone());
            i = i + 1;
        }
        proof {
            assert(views(table@) =~= views(contents@));
        }
        Some(Arguments { table })
    }

    /// A table taking over `contents`, or `contents` back unchanged when it
    /// holds more than [`MAX_ARG_COUNT`] arguments.
    pub fn from_boxed(contents: Box<[Argument<'a>]>) -> (r: Result<
        Arguments<'a>,
        Box<[Argument<'a>]>,
    >)
        ensures
            match r {
                Ok(a) => contents@.len() <= MAX_ARG_COUNT && a@ == views(contents@),
                Err(e) => contents@.len() > MAX_ARG_COUNT && e == contents,
            },
    {
        if contents.len() > MAX_ARG_COUNT {
            return Err(contents);
        }
        Ok(Arguments { table: contents.into_vec() })
    }

    /// The same as [`Arguments::from_boxed`].
    pub fn from_boxed_args(args: Box<[Argument<'a>]>) -> (r: Result<
        Arguments<'a>,
        Box<[Argument<'a>]>,
    >)
        ensures
            match r {
                Ok(a) => args@.len() <= MAX_ARG_COUNT && a@ == views(args@),
                Err(e) => args@.len() > MAX_ARG_COUNT && e == args,
            },
    {
        Self::from_boxed(args)
    }

    /// A table taking over `args`, or `args` back unchanged when it holds
    /// more than [`MAX_ARG_COUNT`] arguments.
    pub fn from_args(args: Vec<Argument<'a>>) -> (r: Result<Arguments<'a>, Vec<Argument<'a>>>)
        ensures
            match r {
                Ok(a) => args@.len() <= MAX_ARG_COUNT && a@ == views(args@),
                Err(e) => args@.len() > MAX_ARG_COUNT && e == args,
            },
    {
        if args.len() <= MAX_ARG_COUNT {
            Ok(Arguments { table: args })
        } else {
            Err(args)
        }
    }

    /// A table of what `args` yields, or all of it collected into a vector
    /// when that is more than [`MAX_ARG_COUNT`] arguments.
    pub fn from_iter<I: Iterator<Item = Argument<'a>>>(args: I) -> (r: Result<
        Arguments<'a>,
        Vec<Argument<'a>>,
    >)
        ensures
            match r {
                Ok(a) => a@.len() <= MAX_ARG_COUNT,
                Err(e) => e@.len() > MAX_ARG_COUNT,
            },
    {
        Self::from_args(collect_arguments(args))
    }

    /// The number of arguments.
    pub fn len(&self) -> (r: usize)
        ensures
            r == self@.len(),
    {
        self.table.len()
    }

    /// The arguments, in order.
    pub fn as_slice(&self) -> (r: &[Argument<'a>])
        ensures
            views(r@) == self@,
    {
        self.table.as_slice()
    }

    /// Iterates over the arguments in order.
    pub fn iter(&self) -> (r: core::slice::Iter<'_, Argument<'a>>)
        ensures
            r.remaining().len() == self@.len(),
            forall|i: int| 0 <= i < self@.len() ==> (#[trigger] r.remaining()[i])@ == self@[i],
    {
        self.table.as_slice().iter()
    }

    /// Turns every borrowing slot into an owning one.
    fn into_owned(&mut self)
        ensures
            final(self).table@.len() == old(self).table@.len(),
            forall|i: int|
                0 <= i < old(self).table@.len() ==> (#[trigger] final(self).table@[i])@.owned()
                    && final(self).table@[i]@.content == old(self).table@[i]@.content,
    {
        let n = self.table.len();
        let mut i: usize = 0;
        while i < n
            invariant
                n == old(self).table@.len(),
                i <= n,
                self.table@.len() == n,
                forall|j: int|
                    0 <= j < i ==> (#[trigger] self.table@[j])@.owned() && self.table@[j]@.content
                        == old(self).table@[j]@.content,
                forall|j: int| i <= j < n ==> #[trigger] self.table@[j] == old(self).table@[j],
            decreases n - i,
        {
            promote_at(&mut self.table, i);
            i = i + 1;
        }
    }

    /// Mutable access to the arguments. Every borrowing slot is first turned
    /// into an owning one, since the borrowed values cannot be relied on to
    /// outlive the mutable access.
    pub fn iter_mut(&mut self) -> (r: &mut [Argument<'a>])
        ensures
            r@.len() == old(self)@.len(),
            forall|i: int|
                0 <= i < old(self)@.len() ==> (#[trigger] r@[i])@.owned() && r@[i]@.content == old(self)@[i].content,
            final(self)@ == views(final(r)@),
    {
        self.into_owned();
        let r = self.table.as_mut_slice();
        proof {
            assert forall|i: int| 0 <= i < old(self)@.len() implies (#[trigger] r@[i])@.owned()
                && r@[i]@.content == old(self)@[i].content by {
                assert(old(self)@[i] == old(self).table@[i]@);
            }
        }
        r
    }
}

impl<'a> Clone for Arguments<'a> {
    /// A copy of every slot, in order: owned values are cloned, borrowed ones
    /// borrowed again.
    fn clone(&self) -> (r: Self)
        ensures
            r@ == self@,
    {
        let table = self.table.clone();
        proof {
            assert forall|i: int| 0 <= i < table@.len() implies (#[trigger] table@[i])@
                == self.table@[i]@ by {
                assert(cloned::<Argument<'a>>(self.table@[i], table@[i]));
            }
            assert(views(table@) =~= views(self.table@));
        }
        Arguments { table }
    }
}

impl<'a> IntoIterator for Arguments<'a> {
    type Item = Argument<'a>;

    type IntoIter = std::vec::IntoIter<Argument<'a>>;

    /// Consumes the table, yielding its arguments in order.
    fn into_iter(self) -> (r: std::vec::IntoIter<Argument<'a>>)
        ensures
            r.remaining().len() == self@.len(),
            forall|i: int| 0 <= i < self@.len() ==> (#[trigger] r.remaining()[i])@ == self@[i],
    {
        self.table.into_iter()
    }
}

} // verus!
