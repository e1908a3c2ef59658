//! Compact, type-erased, copy-on-write argument slots.
//!
//! An [`Argument`] holds one value of a recognised type, either owned or
//! borrowed. Owned values no larger than a pointer are kept inline in the
//! slot; larger ones sit behind one allocation. Borrowed slots are promoted
//! to owned ones on the first mutable access.

mod argument;
mod arguments;
mod builder;
mod datum;
mod discriminant;
mod key;
mod keyword;
pub mod laws;
mod owned;
mod value;
mod variant;

pub use argument::{Argument, ArgumentKind, ArgumentView, InnerArgument};
pub use arguments::{views, Arguments, MAX_ARG_COUNT};
pub use builder::ArgumentsBuilder;
pub use datum::{Datum, TypeTag};
pub use discriminant::Discriminant;
pub use key::{validate_key, validate_key_ident, ErrorKind};
pub use keyword::{Error, Key, KeywordArguments, KeywordArgumentsBuilder};
pub use owned::{Boxed, OwnedArgument};
pub use value::{Value, ValueRef};
pub use variant::Variant;
