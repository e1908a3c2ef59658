use vstd::prelude::*;

verus! {

/// How a slot holds its value.
#[derive(Clone, Copy, Debug, PartialEq, Eq, Structural)]
pub enum Discriminant {
    /// Owned, stored directly in the slot.
    Inlined,
    /// Owned, stored behind one allocation.
    Allocated,
    /// Not owned: a reference to a value that lives elsewhere.
    Borrowed,
}

impl Discriminant {
    /// The discriminant for storage with the given flags.
    pub open spec fn spec_from_flags(is_inline: bool, is_owned: bool) -> Discriminant {
        if !is_owned {
            Discriminant::Borrowed
        } else if is_inline {
            Discriminant::Inlined
        } else {
            Discriminant::Allocated
        }
    }

    /// Maps the storage flags to a discriminant: anything not owned is
    /// borrowed; owned storage is inlined or allocated.
    pub fn from_flags(is_inline: bool, is_owned: bool) -> (d: Discriminant)
        ensures
            d == Self::spec_from_flags(is_inline, is_owned),
    {
        if !is_owned {
            Discriminant::Borrowed
        } else if is_inline {
            Discriminant::Inlined
        } else {
            Discriminant::Allocated
        }
    }

    /// The discriminant stands for owned storage.
    pub open spec fn is_owned(self) -> bool {
        self != Discriminant::Borrowed
    }
}

} // verus!
