//! The values a document may hold, and the mathematical model the contracts speak of.

use crate::holders::{ArrayHolder, ObjectHolder};
use vstd::prelude::*;
use vstd::std_specs::convert::{FromSpec, FromSpecImpl};

verus! {

/// The mathematical model of a document value: what a value is, apart from how it is stored.
///
/// Text is a sequence of characters, an array is a sequence of models, and an object is a
/// sequence of key and model pairs in insertion order, in which a key may occur more than once.
pub enum ValueModel {
    /// A signed integer of 64 bits.
    Integer(i64),
    /// Text, character by character.
    Text(Seq<char>),
    /// A truth value.
    Boolean(bool),
    /// The pairs of an object, in insertion order.
    Object(Seq<(Seq<char>, ValueModel)>),
    /// The values of an array, in insertion order.
    Array(Seq<ValueModel>),
    /// The explicit marker that no value was supplied.
    Absent,
}

/// A value of a document: a scalar, a finished container, or the explicit marker that no value
/// was supplied.
pub enum AllowedValues {
    /// A signed integer of 64 bits.
    Integer(i64),
    /// Owned text.
    String(String),
    /// A truth value.
    Boolean(bool),
    /// A finished object.
    Object(ObjectHolder),
    /// A finished array.
    Array(ArrayHolder),
    /// No value: what a key holds that was named and then given up.
    Absent,
}

impl View for AllowedValues {
    type V = ValueModel;

    /// The model of a value: the same kind, with text and containers replaced by their models.
    open spec fn view(&self) -> ValueModel
        decreases self,
    {
        match self {
            AllowedValues::Integer(number) => ValueModel::Integer(*number),
            AllowedValues::String(text) => ValueModel::Text(text@),
            AllowedValues::Boolean(flag) => ValueModel::Boolean(*flag),
            AllowedValues::Object(pairs) => ValueModel::Object(pairs@),
            AllowedValues::Array(items) => ValueModel::Array(items@),
            AllowedValues::Absent => ValueModel::Absent,
        }
    }
}

impl DeepView for AllowedValues {
    type V = ValueModel;

    /// The view of a value is deep already, so a vector of values has the sequence of their
    /// models as its deep view.
    open spec fn deep_view(&self) -> ValueModel {
        self@
    }
}

/// Whether the conversion of a `Value` into a document value is specified, so that
/// `spec_converted` says what it gives. It is for each of the six kinds of input that are
/// converted here.
pub open spec fn spec_converts<Value>() -> bool where AllowedValues: From<Value> {
    <AllowedValues as FromSpec<Value>>::obeys_from_spec()
}

/// The model of the document value that `value` converts to.
pub open spec fn spec_converted<Value>(value: Value) -> ValueModel where
    AllowedValues: From<Value>,
{
    <AllowedValues as FromSpec<Value>>::from_spec(value)@
}

// Each conversion is preceded by its model, so that the model is at hand where the conversion
// is verified against it.
impl FromSpecImpl<i64> for AllowedValues {
    open spec fn obeys_from_spec() -> bool {
        true
    }

    open spec fn from_spec(value: i64) -> Self {
        AllowedValues::Integer(value)
    }
}

impl From<i64> for AllowedValues {
    fn from(value: i64) -> (converted: Self)
        ensures
            converted == AllowedValues::Integer(value),
    {
        AllowedValues::Integer(value)
    }
}

impl FromSpecImpl<bool> for AllowedValues {
    open spec fn obeys_from_spec() -> bool {
        true
    }

    open spec fn from_spec(value: bool) -> Self {
        AllowedValues::Boolean(value)
    }
}

impl From<bool> for AllowedValues {
    fn from(value: bool) -> (converted: Self)
        ensures
            converted == AllowedValues::Boolean(value),
    {
        AllowedValues::Boolean(value)
    }
}

impl FromSpecImpl<String> for AllowedValues {
    open spec fn obeys_from_spec() -> bool {
        true
    }

    open spec fn from_spec(value: String) -> Self {
        AllowedValues::String(value)
    }
}

impl From<String> for AllowedValues {
    fn from(value: String) -> (converted: Self)
        ensures
            converted == AllowedValues::String(value),
    {
        AllowedValues::String(value)
    }
}

impl FromSpecImpl<ArrayHolder> for AllowedValues {
    open spec fn obeys_from_spec() -> bool {
        true
    }

    open spec fn from_spec(value: ArrayHolder) -> Self {
        AllowedValues::Array(value)
    }
}

impl From<ArrayHolder> for AllowedValues {
    fn from(value: ArrayHolder) -> (converted: Self)
        ensures
            converted == AllowedValues::Array(value),
    {
        AllowedValues::Array(value)
    }
}

impl FromSpecImpl<ObjectHolder> for AllowedValues {
    open spec fn obeys_from_spec() -> bool {
        true
    }

    open spec fn from_spec(value: ObjectHolder) -> Self {
        AllowedValues::Object(value)
    }
}

impl From<ObjectHolder> for AllowedValues {
    fn from(value: ObjectHolder) -> (converted: Self)
        ensures
            converted == AllowedValues::Object(value),
    {
        AllowedValues::Object(value)
    }
}

impl FromSpecImpl<()> for AllowedValues {
    open spec fn obeys_from_spec() -> bool {
        true
    }

    open spec fn from_spec(_nothing: ()) -> Self {
        AllowedValues::Absent
    }
}

impl From<()> for AllowedValues {
    fn from(_nothing: ()) -> (converted: Self)
        ensures
            converted == AllowedValues::Absent,
    {
        AllowedValues::Absent
    }
}

} // verus!
