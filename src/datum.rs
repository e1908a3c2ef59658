use vstd::layout::size_of;
use vstd::prelude::*;

verus! {

/// The runtime identity of a recognised value type.
#[derive(Clone, Copy, Debug, PartialEq, Eq, Structural)]
pub enum TypeTag {
    Unit,
    Bool,
    Char,
    U8,
    U32,
    U64,
    Usize,
    I32,
    I64,
    U128,
    BoxedI32,
    Bytes,
    Text,
}

impl TypeTag {
    /// The size in bytes of the concrete type that this tag names.
    pub open spec fn byte_size(self) -> nat {
        match self {
            TypeTag::Unit => size_of::<()>(),
            TypeTag::Bool => size_of::<bool>(),
            TypeTag::Char => size_of::<char>(),
            TypeTag::U8 => size_of::<u8>(),
            TypeTag::U32 => size_of::<u32>(),
            TypeTag::U64 => size_of::<u64>(),
            TypeTag::Usize => size_of::<usize>(),
            TypeTag::I32 => size_of::<i32>(),
            TypeTag::I64 => size_of::<i64>(),
            TypeTag::U128 => size_of::<u128>(),
            TypeTag::BoxedI32 => size_of::<Box<i32>>(),
            TypeTag::Bytes => size_of::<Vec<u8>>(),
            TypeTag::Text => size_of::<String>(),
        }
    }

    /// A value of this type is stored inline: it is no larger than a pointer.
    pub open spec fn fits_inline(self) -> bool {
        self.byte_size() <= size_of::<usize>()
    }

    /// Compares the size of the type that this tag names with the size of a
    /// pointer.
    pub fn is_inline_sized(self) -> (r: bool)
        ensures
            r == self.fits_inline(),
    {
        let pointer = core::mem::size_of::<usize>();
        match self {
            TypeTag::Unit => core::mem::size_of::<()>() <= pointer,
            TypeTag::Bool => core::mem::size_of::<bool>() <= pointer,
            TypeTag::Char => core::mem::size_of::<char>() <= pointer,
            TypeTag::U8 => core::mem::size_of::<u8>() <= pointer,
            TypeTag::U32 => core::mem::size_of::<u32>() <= pointer,
            TypeTag::U64 => core::mem::size_of::<u64>() <= pointer,
            TypeTag::Usize => core::mem::size_of::<usize>() <= pointer,
            TypeTag::I32 => core::mem::size_of::<i32>() <= pointer,
            TypeTag::I64 => core::mem::size_of::<i64>() <= pointer,
            TypeTag::U128 => core::mem::size_of::<u128>() <= pointer,
            TypeTag::BoxedI32 => core::mem::size_of::<Box<i32>>() <= pointer,
            TypeTag::Bytes => core::mem::size_of::<Vec<u8>>() <= pointer,
            TypeTag::Text => core::mem::size_of::<String>() <= pointer,
        }
    }
}

/// The mathematical content of an erased value: its type and what it holds.
pub enum Datum {
    Unit,
    Bool(bool),
    Char(char),
    U8(u8),
    U32(u32),
    U64(u64),
    Usize(usize),
    I32(i32),
    I64(i64),
    U128(u128),
    BoxedI32(i32),
    Bytes(Seq<u8>),
    Text(Seq<char>),
}

impl Datum {
    /// The type of the value.
    pub open spec fn tag(self) -> TypeTag {
        match self {
            Datum::Unit => TypeTag::Unit,
            Datum::Bool(_) => TypeTag::Bool,
            Datum::Char(_) => TypeTag::Char,
            Datum::U8(_) => TypeTag::U8,
            Datum::U32(_) => TypeTag::U32,
            Datum::U64(_) => TypeTag::U64,
            Datum::Usize(_) => TypeTag::Usize,
            Datum::I32(_) => TypeTag::I32,
            Datum::I64(_) => TypeTag::I64,
            Datum::U128(_) => TypeTag::U128,
            Datum::BoxedI32(_) => TypeTag::BoxedI32,
            Datum::Bytes(_) => TypeTag::Bytes,
            Datum::Text(_) => TypeTag::Text,
        }
    }
}

} // verus!
