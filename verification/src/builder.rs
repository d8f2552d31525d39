//! The builder: what each capability does in each state.
//!
//! Arrays accept values directly. Objects accept a key first and then, through the proxy of
//! that key, its value. Both accept a finished container as a value, so either can be nested in
//! either, to any depth: a nested state owns the state around it and hands it back, one value
//! longer, when it is closed.

use crate::contexts::{ArrayContext, ObjectContext, ObjectContextProxy};
use crate::holders::{ArrayHolder, ArrayHolderContainer, ObjectHolder, ObjectHolderContainer};
use crate::keys::ToStringIfNecessary;
use crate::protocol::{
    BeginArray, BeginObject, Context, EndArray, EndObject, FillKey, GetContainer, GetHolder,
    GetParent, IsArrayContext, IsObjectContext, ValueFillingProxy,
};
use crate::values::{spec_converted, spec_converts, AllowedValues, ValueModel};
use vstd::prelude::*;

verus! {

impl GetContainer for ArrayHolder {
    type Container = ArrayHolderContainer;

    open(crate) spec fn spec_container(self) -> ArrayHolderContainer {
        self.data
    }

    /// Hands out the values in insertion order.
    fn get_container(self) -> (container: ArrayHolderContainer)
        ensures
            container.deep_view() == self@,
            container@.len() == self@.len(),
    {
        self.data
    }
}

impl GetContainer for ObjectHolder {
    type Container = ObjectHolderContainer;

    open(crate) spec fn spec_container(self) -> ObjectHolderContainer {
        self.data
    }

    /// Hands out the key and value pairs in insertion order.
    fn get_container(self) -> (container: ObjectHolderContainer)
        ensures
            container.deep_view() == self@,
            container@.len() == self@.len(),
    {
        self.data
    }
}

impl<Parent> GetContainer for ArrayContext<Parent> {
    type Container = ArrayHolderContainer;

    open(crate) spec fn spec_container(self) -> ArrayHolderContainer {
        self.holder.spec_container()
    }

    /// Hands out the values appended so far, in call order. An array that nothing was appended
    /// to gives an empty container.
    fn get_container(self) -> (container: ArrayHolderContainer)
        ensures
            container.deep_view() == self@,
            container@.len() == self@.len(),
    {
        self.holder.get_container()
    }
}

impl<Parent> GetContainer for ObjectContext<Parent> {
    type Container = ObjectHolderContainer;

    open(crate) spec fn spec_container(self) -> ObjectHolderContainer {
        self.holder.spec_container()
    }

    /// Hands out the pairs completed so far, in call order. An object in which no pair was
    /// completed gives an empty container.
    fn get_container(self) -> (container: ObjectHolderContainer)
        ensures
            container.deep_view() == self@,
            container@.len() == self@.len(),
    {
        self.holder.get_container()
    }
}

impl<Parent> GetHolder for ArrayContext<Parent> {
    type Holder = ArrayHolder;

    open(crate) spec fn spec_holder(self) -> ArrayHolder {
        self.holder
    }

    fn get_holder(self) -> (holder: ArrayHolder)
        ensures
            holder == self.spec_holder(),
            holder@ == self@,
    {
        self.holder
    }
}

impl<Parent> GetHolder for ObjectContext<Parent> {
    type Holder = ObjectHolder;

    open(crate) spec fn spec_holder(self) -> ObjectHolder {
        self.holder
    }

    fn get_holder(self) -> (holder: ObjectHolder)
        ensures
            holder == self.spec_holder(),
            holder@ == self@,
    {
        self.holder
    }
}

impl<Parent> GetParent<Parent> for ArrayContext<Parent> {
    type Parent = Parent;

    open(crate) spec fn spec_parent(self) -> Parent {
        self.parent
    }

    fn get_parent(self) -> (parent: Parent)
        ensures
            parent == self.spec_parent(),
    {
        self.parent
    }
}

impl<Parent> GetParent<Parent> for ObjectContext<Parent> {
    type Parent = Parent;

    open(crate) spec fn spec_parent(self) -> Parent {
        self.parent
    }

    fn get_parent(self) -> (parent: Parent)
        ensures
            parent == self.spec_parent(),
    {
        self.parent
    }
}

impl<Parent> Context<Parent> for ArrayContext<Parent> {
    fn unpack(self) -> (parts: (Parent, ArrayHolder))
        ensures
            parts.0 == self.spec_parent(),
            parts.1 == self.spec_holder(),
            parts.1@ == self@,
    {
        (self.parent, self.holder)
    }
}

impl<Parent> Context<Parent> for ObjectContext<Parent> {
    fn unpack(self) -> (parts: (Parent, ObjectHolder))
        ensures
            parts.0 == self.spec_parent(),
            parts.1 == self.spec_holder(),
            parts.1@ == self@,
    {
        (self.parent, self.holder)
    }
}

impl<Parent> IsArrayContext for ArrayContext<Parent> {

}

impl<Parent> IsObjectContext for ObjectContext<Parent> {

}

impl<Key, Parent> FillKey<Key> for ObjectContext<Parent> where Key: ToStringIfNecessary {
    type ReturnProxy = ObjectContextProxy<Parent>;

    /// The proxy holds the object as it is and the characters of the key. No key is refused:
    /// neither for its characters nor because the object has it already.
    open spec fn spec_fill_key(self, key: Key, proxy: ObjectContextProxy<Parent>) -> bool {
        &&& proxy.spec_object() == self
        &&& proxy.spec_key() == key.spec_string()
    }

    fn fill_key(self, key: Key) -> (proxy: ObjectContextProxy<Parent>)
        ensures
            proxy.spec_object() == self,
            proxy.spec_key() == key.spec_string(),
    {
        ObjectContextProxy { key: key.to_string_if_necessary(), object: self }
    }
}

impl<Parent, Value> ValueFillingProxy<ObjectContext<Parent>, Value> for ObjectContextProxy<Parent>
where
    AllowedValues: From<Value>,
{
    type ReturnType = ObjectContext<Parent>;

    /// The object resumes with one more pair at its end: the pending key and the conversion of
    /// `value`. Where the conversion of `Value` has no specification, the pair still holds the
    /// pending key and stands at the end.
    open spec fn spec_fill_value(self, value: Value, next: ObjectContext<Parent>) -> bool {
        &&& next@.len() > 0
        &&& self.spec_object().spec_inserted(self.spec_key(), next@.last().1, next)
        &&& spec_converts::<Value>() ==> self.spec_object().spec_inserted(
            self.spec_key(),
            spec_converted(value),
            next,
        )
    }

    fn fill_value(self, value: Value) -> (next: ObjectContext<Parent>)
        ensures
            next.spec_parent() == self.spec_object().spec_parent(),
            next@.len() == self.spec_object()@.len() + 1,
            next@.drop_last() == self.spec_object()@,
            next@.last().0 == self.spec_key(),
            spec_converts::<Value>() ==> next@ == self.spec_object()@.push(
                (self.spec_key(), spec_converted(value)),
            ),
    {
        let mut object = self.object;
        let converted = AllowedValues::from(value);
        object.holder.data.push((self.key, converted));
        assert(object@ =~= self.object@.push((self.key@, converted@)));
        object
    }
}

impl<Parent> ObjectContextProxy<Parent> {
    /// Gives the key up without a value. The key is not lost: the object resumes with exactly
    /// one more pair at its end, the key with the explicit absent value, where the pair of the
    /// key and its value would have stood.
    pub fn discard(self) -> (object: ObjectContext<Parent>)
        ensures
            object.spec_parent() == self.spec_object().spec_parent(),
            object@ == self.spec_object()@.push((self.spec_key(), ValueModel::Absent)),
            self.spec_fill_value((), object),
    {
        self.fill_value(())
    }
}

impl<Parent, Value> ValueFillingProxy<ArrayContext<Parent>, Value> for ArrayContext<Parent>
where
    AllowedValues: From<Value>,
{
    type ReturnType = Self;

    /// The array goes on with one more value at its end, the conversion of `value`. Where the
    /// conversion of `Value` has no specification, one value still stands at the end and the
    /// earlier ones are as they were.
    open spec fn spec_fill_value(self, value: Value, next: ArrayContext<Parent>) -> bool {
        &&& next@.len() > 0
        &&& self.spec_appended(next@.last(), next)
        &&& spec_converts::<Value>() ==> self.spec_appended(spec_converted(value), next)
    }

    fn fill_value(self, value: Value) -> (next: ArrayContext<Parent>)
        ensures
            next.spec_parent() == self.spec_parent(),
            next@.len() == self@.len() + 1,
            next@.drop_last() == self@,
            spec_converts::<Value>() ==> next@ == self@.push(spec_converted(value)),
    {
        let mut array = self;
        let converted = AllowedValues::from(value);
        array.holder.data.push(converted);
        assert(array@ =~= self@.push(converted@));
        array
    }
}

impl<Proxy, ReturnType> BeginArray<ReturnType> for Proxy
where
    Proxy: ValueFillingProxy<ReturnType, ArrayHolder>,
{
    fn begin_array(self) -> (nested: ArrayContext<Self>)
        ensures
            nested.spec_parent() == self,
            nested@ == Seq::<ValueModel>::empty(),
    {
        ArrayContext { parent: self, holder: ArrayHolder { data: Vec::new() } }
    }
}

impl<Proxy, ReturnType> EndArray<Proxy, ReturnType> for ArrayContext<Proxy>
where
    Proxy: ValueFillingProxy<ReturnType, ArrayHolder>,
{
    /// The enclosing state resumes as it does when the holder of this array is filled into it
    /// as a value.
    open spec fn spec_end_array(self, resumed: ReturnType) -> bool {
        self.spec_parent().spec_fill_value(self.spec_holder(), resumed)
    }

    fn end_array(self) -> (resumed: ReturnType)
        ensures
            self.spec_parent().spec_fill_value(self.spec_holder(), resumed),
    {
        let (proxy, holder) = self.unpack();
        proxy.fill_value(holder)
    }
}

impl<Proxy, ReturnType> BeginObject<ReturnType> for Proxy
where
    Proxy: ValueFillingProxy<ReturnType, ObjectHolder>,
{
    fn begin_object(self) -> (nested: ObjectContext<Self>)
        ensures
            nested.spec_parent() == self,
            nested@ == Seq::<(Seq<char>, ValueModel)>::empty(),
    {
        ObjectContext { parent: self, holder: ObjectHolder { data: Vec::new() } }
    }
}

impl<Proxy, ReturnType> EndObject<Proxy, ReturnType> for ObjectContext<Proxy>
where
    Proxy: ValueFillingProxy<ReturnType, ObjectHolder>,
{
    /// The enclosing state resumes as it does when the holder of this object is filled into it
    /// as a value.
    open spec fn spec_end_object(self, resumed: ReturnType) -> bool {
        self.spec_parent().spec_fill_value(self.spec_holder(), resumed)
    }

    fn end_object(self) -> (resumed: ReturnType)
        ensures
            self.spec_parent().spec_fill_value(self.spec_holder(), resumed),
    {
        let (proxy, holder) = self.unpack();
        proxy.fill_value(holder)
    }
}

} // verus!
