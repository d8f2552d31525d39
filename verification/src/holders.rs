//! Ordered backing storage for arrays and objects.

use crate::values::{AllowedValues, ValueModel};
use vstd::prelude::*;

verus! {

/// What an array holder stores: the values in insertion order.
pub type ArrayHolderContainer = Vec<AllowedValues>;

/// An insertion-ordered sequence of values. Equal values and values of different kinds may
/// stand side by side.
pub struct ArrayHolder {
    pub(crate) data: ArrayHolderContainer,
}

/// What an object holder stores: the key and value pairs in insertion order.
pub type ObjectHolderContainer = Vec<(String, AllowedValues)>;

/// An insertion-ordered sequence of key and value pairs. It is a log, not a dictionary: a key
/// that is inserted twice is held twice.
pub struct ObjectHolder {
    pub(crate) data: ObjectHolderContainer,
}

impl View for ArrayHolder {
    type V = Seq<ValueModel>;

    /// The models of the held values, in insertion order. The bound on `i` inside the closure
    /// is what shows that the definition descends into a held value.
    open(crate) spec fn view(&self) -> Seq<ValueModel>
        decreases self,
    {
        Seq::new(
            self.data@.len(),
            |i: int|
                if 0 <= i < self.data@.len() {
                    self.data@[i]@
                } else {
                    ValueModel::Absent
                },
        )
    }
}

impl View for ObjectHolder {
    type V = Seq<(Seq<char>, ValueModel)>;

    /// The held pairs in insertion order, each as the characters of its key and the model of
    /// its value.
    open(crate) spec fn view(&self) -> Seq<(Seq<char>, ValueModel)>
        decreases self,
    {
        Seq::new(
            self.data@.len(),
            |i: int|
                if 0 <= i < self.data@.len() {
                    (self.data@[i].0@, self.data@[i].1@)
                } else {
                    (Seq::empty(), ValueModel::Absent)
                },
        )
    }
}

} // verus!
