//! A builder for hierarchical documents of objects, arrays and scalar values.
//!
//! A document is built by a chain of calls. Each call consumes the current state and returns the
//! next one: the same level one entry longer, a level nested in it, or the enclosing level
//! resumed. Which calls exist in a state is decided by the type of the state, so every opened
//! container is closed once and every named key gets one value.

use vstd::prelude::*;

pub mod builder;
pub mod contexts;
pub mod holders;
pub mod keys;
pub mod laws;
pub mod protocol;
pub mod values;

/// The values of a document, under the name that readers of finished documents know them by.
pub use values::AllowedValues as JSONValues;

use contexts::{ArrayContext, ObjectContext};
use holders::{ArrayHolder, ObjectHolder};
use values::ValueModel;

verus! {

/// Starts a document whose root is an array: an empty array inside no enclosing state.
pub fn array() -> (root: ArrayContext<()>)
    ensures
        root@ == Seq::<ValueModel>::empty(),
{
    ArrayContext { parent: (), holder: ArrayHolder { data: Vec::new() } }
}

/// Starts a document whose root is an object: an empty object inside no enclosing state.
pub fn object() -> (root: ObjectContext<()>)
    ensures
        root@ == Seq::<(Seq<char>, ValueModel)>::empty(),
{
    ObjectContext { parent: (), holder: ObjectHolder { data: Vec::new() } }
}

} // verus!
