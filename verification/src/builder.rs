//! The typed-argument builder: assembles a structured argument value
//! field by field, with a per-field policy of required or
//! try-optional-with-default, and validates completeness once, at
//! finalization.

use vstd::prelude::*;

use crate::binread::DefaultArgs;
use crate::sequences::VecArgs;

verus! {

/// One field of a builder: either still unset, or holding the value the
/// caller supplied. How an unset slot is resolved at finalization depends
/// on the field's policy: a required field fails, a try-optional field
/// falls back to the field type's default.
pub enum FieldSlot<T> {
    /// No value has been supplied.
    Unset,
    /// The caller supplied this value.
    Given(T),
}

impl<T> FieldSlot<T> {
    /// A slot with no value yet.
    pub fn unset() -> (r: FieldSlot<T>)
        ensures
            r is Unset,
    {
        FieldSlot::Unset
    }

    /// Records the supplied value, replacing whatever the slot held.
    pub fn give(self, v: T) -> (r: FieldSlot<T>)
        ensures
            r == FieldSlot::Given(v),
    {
        FieldSlot::Given(v)
    }

    /// Resolves a required field: the supplied value, or nothing when the
    /// caller never supplied one.
    pub fn take_required(self) -> (r: Option<T>)
        ensures
            match self {
                FieldSlot::Given(v) => r == Some(v),
                FieldSlot::Unset => r is None,
            },
    {
        match self {
            FieldSlot::Given(v) => Some(v),
            FieldSlot::Unset => None,
        }
    }

    /// Resolves a try-optional field: the supplied value, or the field
    /// type's default when the caller never supplied one.
    pub fn take_or_default(self) -> (r: T) where T: DefaultArgs
        ensures
            match self {
                FieldSlot::Given(v) => r == v,
                FieldSlot::Unset => r == T::spec_default(),
            },
    {
        match self {
            FieldSlot::Given(v) => v,
            FieldSlot::Unset => T::default_args(),
        }
    }
}

/// A builder for [`VecArgs`]: the element count is a required field, the
/// inner element arguments are try-optional and fall back to their default.
pub struct VecArgsBuilder<B> {
    /// The required `count` field.
    pub count: FieldSlot<usize>,
    /// The try-optional `inner` field.
    pub inner: FieldSlot<B>,
}

impl<B> VecArgs<B> {
    /// A builder with every field unset.
    pub fn builder() -> (r: VecArgsBuilder<B>)
        ensures
            r.count is Unset,
            r.inner is Unset,
    {
        VecArgsBuilder { count: FieldSlot::unset(), inner: FieldSlot::unset() }
    }
}

impl<B> VecArgsBuilder<B> {
    /// Supplies the element count.
    pub fn count(self, count: usize) -> (r: VecArgsBuilder<B>)
        ensures
            r.count == FieldSlot::Given(count),
            r.inner == self.inner,
    {
        VecArgsBuilder { count: self.count.give(count), inner: self.inner }
    }

    /// Supplies the element arguments.
    pub fn inner(self, inner: B) -> (r: VecArgsBuilder<B>)
        ensures
            r.count == self.count,
            r.inner == FieldSlot::Given(inner),
    {
        VecArgsBuilder { count: self.count, inner: self.inner.give(inner) }
    }

    /// Validates the accumulated fields and produces the argument value:
    /// fails exactly when the required `count` field was never supplied,
    /// and fills an unset `inner` field with its default.
    pub fn finalize(self) -> (r: Option<VecArgs<B>>) where B: DefaultArgs
        ensures
            match self.count {
                FieldSlot::Given(c) => r matches Some(a) && a.count == c && a.inner == (
                match self.inner {
                    FieldSlot::Given(i) => i,
                    FieldSlot::Unset => B::spec_default(),
                }),
                FieldSlot::Unset => r is None,
            },
    {
        let count = match self.count.take_required() {
            Some(c) => c,
            None => {
                return None;
            },
        };
        let inner = self.inner.take_or_default();
        Some(VecArgs { count, inner })
    }
}

} // verus!
