//! The shape of a declaration's fields: named, positional, or none.

use vstd::prelude::*;

verus! {

/// A named field and its payload.
pub struct NamedField<T> {
    pub name: String,
    pub value: T,
}

/// Mathematical image of [`NamedField`].
pub struct NamedFieldV<V> {
    pub name: Seq<char>,
    pub value: V,
}

impl<T: DeepView> DeepView for NamedField<T> {
    type V = NamedFieldV<T::V>;

    open spec fn deep_view(&self) -> NamedFieldV<T::V> {
        NamedFieldV { name: self.name@, value: self.value.deep_view() }
    }
}

/// A positional field, carrying its source position, and its payload.
pub struct IndexedField<T> {
    pub index: usize,
    pub value: T,
}

/// Mathematical image of [`IndexedField`].
pub struct IndexedFieldV<V> {
    pub index: usize,
    pub value: V,
}

impl<T: DeepView> DeepView for IndexedField<T> {
    type V = IndexedFieldV<T::V>;

    open spec fn deep_view(&self) -> IndexedFieldV<T::V> {
        IndexedFieldV { index: self.index, value: self.value.deep_view() }
    }
}

/// The fields of one declaration (a struct body or one enum variant), in
/// declaration order.
pub enum Fields<T> {
    Named(Vec<NamedField<T>>),
    Unnamed(Vec<IndexedField<T>>),
    Unit,
}

/// Mathematical image of [`Fields`].
pub enum FieldsV<V> {
    Named(Seq<NamedFieldV<V>>),
    Unnamed(Seq<IndexedFieldV<V>>),
    Unit,
}

impl<T: DeepView> DeepView for Fields<T> {
    type V = FieldsV<T::V>;

    open spec fn deep_view(&self) -> FieldsV<T::V> {
        match self {
            Fields::Named(v) => FieldsV::Named(v.deep_view()),
            Fields::Unnamed(v) => FieldsV::Unnamed(v.deep_view()),
            Fields::Unit => FieldsV::Unit,
        }
    }
}

impl<V> FieldsV<V> {
    /// How many fields the shape carries.
    pub open spec fn count(self) -> nat {
        match self {
            FieldsV::Named(v) => v.len(),
            FieldsV::Unnamed(v) => v.len(),
            FieldsV::Unit => 0,
        }
    }

    /// Whether the shape carries no field at all: a unit declaration, or a
    /// named or positional body of length zero.
    pub open spec fn is_fieldless(self) -> bool {
        self.count() == 0
    }

    /// A positional shape is well indexed when each field records its own
    /// position.
    pub open spec fn well_indexed(self) -> bool {
        match self {
            FieldsV::Unnamed(v) => forall|i: int|
                0 <= i < v.len() ==> (#[trigger] v[i]).index == i,
            _ => true,
        }
    }
}

impl<T: DeepView> Fields<T> {
    /// How many fields the shape carries.
    pub fn count(&self) -> (r: usize)
        ensures
            r == self.deep_view().count(),
    {
        match self {
            Fields::Named(v) => v.len(),
            Fields::Unnamed(v) => v.len(),
            Fields::Unit => 0,
        }
    }

    /// Whether the shape carries no field at all.
    pub fn is_fieldless(&self) -> (r: bool)
        ensures
            r == self.deep_view().is_fieldless(),
    {
        self.count() == 0
    }
}

} // verus!
