//! Field descriptors: a wire name bound to one element type.

use vstd::prelude::*;
use std::marker::PhantomData;
use crate::data::{Float32, Float64};
use crate::text::{ends_in_nul, is_terminated};

verus! {

/// The wire name of the label field: `label` and its terminator.
pub open spec fn label_name() -> Seq<u8> {
    seq![0x6cu8, 0x61u8, 0x62u8, 0x65u8, 0x6cu8, 0u8]
}

/// The wire name of the weight field: `weight` and its terminator.
pub open spec fn weight_name() -> Seq<u8> {
    seq![0x77u8, 0x65u8, 0x69u8, 0x67u8, 0x68u8, 0x74u8, 0u8]
}

/// The wire name of the initial score field: `init_score` and its terminator.
pub open spec fn init_score_name() -> Seq<u8> {
    seq![0x69u8, 0x6eu8, 0x69u8, 0x74u8, 0x5fu8, 0x73u8, 0x63u8, 0x6fu8, 0x72u8, 0x65u8, 0u8]
}

/// The wire name of the group field: `group` and its terminator.
pub open spec fn group_name() -> Seq<u8> {
    seq![0x67u8, 0x72u8, 0x6fu8, 0x75u8, 0x70u8, 0u8]
}

/// Names a field of a dataset whose elements are of type `T`. The binding to
/// `T` exists in the type only: a descriptor of one element type cannot be
/// used where another is expected.
#[derive(Debug, PartialEq, Eq)]
pub struct Field<T> {
    name: &'static [u8],
    _type: PhantomData<T>,
}

impl<T> Clone for Field<T> {
    fn clone(&self) -> (copy: Self)
        ensures
            copy == *self,
    {
        *self
    }
}

impl<T> Copy for Field<T> {

}

impl<T> Field<T> {
    #[verifier::type_invariant]
    spec fn well_formed(&self) -> bool {
        ends_in_nul(self.name@)
    }

    /// The wire name, terminator included.
    pub closed spec fn name(&self) -> Seq<u8> {
        self.name@
    }

    /// A descriptor with the wire name `name`, which must end in a NUL byte.
    pub fn new(name: &'static [u8]) -> (field: Self)
        requires
            ends_in_nul(name@),
        ensures
            field.name() == name@,
    {
        Field { name, _type: PhantomData }
    }

    /// The bytes of the wire name, for the native layer to read from their
    /// start up to the terminator.
    pub fn name_ptr(&self) -> (name: &'static [u8])
        ensures
            name@ == self.name(),
            ends_in_nul(name@),
    {
        proof {
            use_type_invariant(self);
        }
        self.name
    }
}

impl Field<Float32> {
    /// The label of each row.
    pub fn label() -> (field: Self)
        ensures
            field.name() == label_name(),
            ends_in_nul(field.name()),
    {
        let name: &'static [u8; 6] = &[0x6cu8, 0x61u8, 0x62u8, 0x65u8, 0x6cu8, 0u8];
        assert(name@ == label_name());
        Field::new(name.as_slice())
    }

    /// The weight of each row.
    pub fn weight() -> (field: Self)
        ensures
            field.name() == weight_name(),
            ends_in_nul(field.name()),
    {
        let name: &'static [u8; 7] = &[0x77u8, 0x65u8, 0x69u8, 0x67u8, 0x68u8, 0x74u8, 0u8];
        assert(name@ == weight_name());
        Field::new(name.as_slice())
    }
}

impl Field<Float64> {
    /// The initial score of each row.
    pub fn init_score() -> (field: Self)
        ensures
            field.name() == init_score_name(),
            ends_in_nul(field.name()),
    {
        let name: &'static [u8; 11] = &[
            0x69u8,
            0x6eu8,
            0x69u8,
            0x74u8,
            0x5fu8,
            0x73u8,
            0x63u8,
            0x6fu8,
            0x72u8,
            0x65u8,
            0u8,
        ];
        assert(name@ == init_score_name());
        Field::new(name.as_slice())
    }
}

impl Field<i32> {
    /// The sizes of the query groups.
    pub fn group() -> (field: Self)
        ensures
            field.name() == group_name(),
            ends_in_nul(field.name()),
    {
        let name: &'static [u8; 6] = &[0x67u8, 0x72u8, 0x6fu8, 0x75u8, 0x70u8, 0u8];
        assert(name@ == group_name());
        Field::new(name.as_slice())
    }
}

/// Each of the four canonical wire names is non-empty and ends in its
/// terminating NUL byte, which is its only NUL byte; and no two of them are
/// the same name.
pub proof fn canonical_names_are_terminated()
    ensures
        ends_in_nul(label_name()),
        ends_in_nul(weight_name()),
        ends_in_nul(init_score_name()),
        ends_in_nul(group_name()),
        is_terminated(label_name()),
        is_terminated(weight_name()),
        is_terminated(init_score_name()),
        is_terminated(group_name()),
        label_name() != weight_name(),
        label_name() != init_score_name(),
        label_name() != group_name(),
        weight_name() != init_score_name(),
        weight_name() != group_name(),
        init_score_name() != group_name(),
{
    assert(label_name()[0] != group_name()[0]);
    assert(label_name().len() != weight_name().len());
    assert(label_name().len() != init_score_name().len());
    assert(weight_name().len() != init_score_name().len());
    assert(weight_name().len() != group_name().len());
    assert(init_score_name().len() != group_name().len());
}

} // verus!
