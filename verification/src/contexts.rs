//! The states of a document under construction.
//!
//! Each state is a value that an operation consumes and that the next state replaces, so a level
//! of the document has one handle at a time. The enclosing state is owned by the state nested in
//! it, and comes back when the nested state is closed.

use crate::holders::{ArrayHolder, ObjectHolder};
use crate::protocol::{GetHolder, GetParent};
use crate::values::ValueModel;
use vstd::prelude::*;

verus! {

/// An array that is being filled, together with the state it was opened from (`()` at the
/// root).
pub struct ArrayContext<ParentType> {
    pub(crate) parent: ParentType,
    pub(crate) holder: ArrayHolder,
}

/// An object that is being filled, together with the state it was opened from (`()` at the
/// root).
pub struct ObjectContext<ParentType> {
    pub(crate) parent: ParentType,
    pub(crate) holder: ObjectHolder,
}

/// A key that has been named in an object and waits for its value. It is no context: the ways
/// on are to fill in the value, as it is or as a container nested under the key, and to call
/// `discard`, which records the key as absent. The proxy owns the object, so a proxy that is
/// neither filled nor discarded takes the object with it.
#[must_use]
pub struct ObjectContextProxy<ParentType> {
    pub(crate) key: String,
    pub(crate) object: ObjectContext<ParentType>,
}

impl<ParentType> View for ArrayContext<ParentType> {
    type V = Seq<ValueModel>;

    /// The values appended to this level so far, in call order.
    open spec fn view(&self) -> Seq<ValueModel> {
        self.spec_holder()@
    }
}

impl<ParentType> View for ObjectContext<ParentType> {
    type V = Seq<(Seq<char>, ValueModel)>;

    /// The key and value pairs completed at this level so far, in call order.
    open spec fn view(&self) -> Seq<(Seq<char>, ValueModel)> {
        self.spec_holder()@
    }
}

impl<ParentType> ArrayContext<ParentType> {
    /// Whether `next` is `self` with one more value at the end, whose model is `item`, inside
    /// the same enclosing state.
    pub open spec fn spec_appended(self, item: ValueModel, next: Self) -> bool {
        &&& next.spec_parent() == self.spec_parent()
        &&& next@ == self@.push(item)
    }
}

impl<ParentType> ObjectContext<ParentType> {
    /// Whether `next` is `self` with one more pair at the end, made of `key` and a value whose
    /// model is `item`, inside the same enclosing state. Earlier pairs stay, whatever their key.
    pub open spec fn spec_inserted(self, key: Seq<char>, item: ValueModel, next: Self) -> bool {
        &&& next.spec_parent() == self.spec_parent()
        &&& next@ == self@.push((key, item))
    }
}

impl<ParentType> ObjectContextProxy<ParentType> {
    /// The characters of the key that waits for its value.
    pub open(crate) spec fn spec_key(self) -> Seq<char> {
        self.key@
    }

    /// The object that the key was named in, as it was when the key was named.
    pub open(crate) spec fn spec_object(self) -> ObjectContext<ParentType> {
        self.object
    }
}

} // verus!
