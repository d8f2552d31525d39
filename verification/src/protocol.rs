//! The capabilities that decide which operation exists in which state.
//!
//! A state can be filled, nested into or closed only where its type has the capability, so a
//! call sequence that would leave the document ill-formed is no program. What an operation
//! returns is stated here once, for every state that has the capability.

use crate::contexts::{ArrayContext, ObjectContext};
use crate::holders::{ArrayHolder, ObjectHolder};
use crate::values::{AllowedValues, ValueModel};
use vstd::prelude::*;

verus! {

/// Something that holds an ordered container and can be turned into it.
pub trait GetContainer {
    type Container;

    /// The container that is held.
    spec fn spec_container(self) -> Self::Container;

    /// Hands out the container. This is the terminal operation on a root.
    fn get_container(self) -> (container: Self::Container)
        ensures
            container == self.spec_container(),
    ;
}

/// A state that holds its container inside a holder.
pub trait GetHolder: GetContainer {
    type Holder;

    /// The holder of this level.
    spec fn spec_holder(self) -> Self::Holder;

    /// Hands out the holder of this level, dropping the enclosing state.
    fn get_holder(self) -> (holder: Self::Holder)
        ensures
            holder == self.spec_holder(),
    ;
}

/// A state that owns the state it was opened from.
pub trait GetParent<Parent> {
    type Parent;

    /// The enclosing state.
    spec fn spec_parent(self) -> Parent;

    /// Hands out the enclosing state, dropping what this level holds.
    fn get_parent(self) -> (parent: Parent)
        ensures
            parent == self.spec_parent(),
    ;
}

/// One level of a document under construction: a holder and the enclosing state.
pub trait Context<Parent>: GetHolder + GetParent<Parent> {
    /// Splits the level into the enclosing state and the holder.
    fn unpack(self) -> (parts: (Parent, Self::Holder))
        ensures
            parts.0 == self.spec_parent(),
            parts.1 == self.spec_holder(),
    ;
}

/// A state that accepts a value of type `ValueType` and then goes on as a `ReturnType`.
pub trait ValueFillingProxy<ReturnType, ValueType> where AllowedValues: From<ValueType> {
    type ReturnType;

    /// Whether `next` is the state that follows `self` once `value` has been filled in.
    spec fn spec_fill_value(self, value: ValueType, next: ReturnType) -> bool;

    /// Converts `value` and fills it in.
    fn fill_value(self, value: ValueType) -> (next: ReturnType)
        ensures
            self.spec_fill_value(value, next),
    ;
}

/// Marks the states that are an open array.
pub trait IsArrayContext {

}

/// Marks the states that are an open object.
pub trait IsObjectContext {

}

/// An open object in which a key can be named.
pub trait FillKey<KeyType>: IsObjectContext {
    type ReturnProxy;

    /// Whether `proxy` is the pending key that naming `key` in `self` gives.
    spec fn spec_fill_key(self, key: KeyType, proxy: Self::ReturnProxy) -> bool;

    /// Names a key. Its value is owed to the proxy that comes back.
    fn fill_key(self, key: KeyType) -> (proxy: Self::ReturnProxy)
        ensures
            self.spec_fill_key(key, proxy),
    ;
}

/// A state that accepts a finished array as a value, and so can have an array nested in it.
pub trait BeginArray<ReturnType>: ValueFillingProxy<ReturnType, ArrayHolder> where Self: Sized {
    /// Opens an empty array inside `self`. The array owns `self` until it is closed.
    fn begin_array(self) -> (nested: ArrayContext<Self>)
        ensures
            nested.spec_parent() == self,
            nested@ == Seq::<ValueModel>::empty(),
    ;
}

/// An open array whose enclosing state accepts a finished array.
pub trait EndArray<Proxy, ReturnType>: IsArrayContext where Proxy: BeginArray<ReturnType> {
    /// Whether `resumed` is the state that closing `self` gives back.
    spec fn spec_end_array(self, resumed: ReturnType) -> bool;

    /// Closes the array: fills it, as one value, into the enclosing state and resumes there.
    fn end_array(self) -> (resumed: ReturnType)
        ensures
            self.spec_end_array(resumed),
    ;
}

/// A state that accepts a finished object as a value, and so can have an object nested in it.
pub trait BeginObject<ReturnType>: ValueFillingProxy<ReturnType, ObjectHolder> where Self: Sized {
    /// Opens an empty object inside `self`. The object owns `self` until it is closed.
    fn begin_object(self) -> (nested: ObjectContext<Self>)
        ensures
            nested.spec_parent() == self,
            nested@ == Seq::<(Seq<char>, ValueModel)>::empty(),
    ;
}

/// An open object whose enclosing state accepts a finished object.
pub trait EndObject<Proxy, ReturnType>: IsObjectContext where Proxy: BeginObject<ReturnType> {
    /// Whether `resumed` is the state that closing `self` gives back.
    spec fn spec_end_object(self, resumed: ReturnType) -> bool;

    /// Closes the object: fills it, as one value, into the enclosing state and resumes there.
    fn end_object(self) -> (resumed: ReturnType)
        ensures
            self.spec_end_object(resumed),
    ;
}

} // verus!
