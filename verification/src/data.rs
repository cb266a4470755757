//! The scalar kinds that the native layer understands, and their tags.

use vstd::prelude::*;

verus! {

/// Tag of 32-bit floating point elements.
pub const DTYPE_FLOAT32: i32 = 0;

/// Tag of 64-bit floating point elements.
pub const DTYPE_FLOAT64: i32 = 1;

/// Tag of 32-bit signed integer elements.
pub const DTYPE_INT32: i32 = 2;

/// Tag of 64-bit signed integer elements.
pub const DTYPE_INT64: i32 = 3;

/// The four tags of the native interface, and no other number.
pub open spec fn is_data_type(tag: i32) -> bool {
    tag == DTYPE_FLOAT32 || tag == DTYPE_FLOAT64 || tag == DTYPE_INT32 || tag == DTYPE_INT64
}

/// The tags that may back a feature matrix: the two floating point kinds.
pub open spec fn is_feature_type(tag: i32) -> bool {
    tag == DTYPE_FLOAT32 || tag == DTYPE_FLOAT64
}

/// An element type of field values. A type says here under which tag the
/// native layer knows it, and shows that the tag is one of the four.
pub trait Data: Sized {
    const DATA_TYPE: i32;

    proof fn data_type_is_known()
        ensures
            is_data_type(Self::DATA_TYPE),
    ;
}

/// An element type that may also back a feature matrix.
pub trait FeatureData: Data {
    proof fn data_type_is_feature()
        ensures
            is_feature_type(Self::DATA_TYPE),
    ;
}

/// Stands for the 32-bit floating point element type. The elements themselves
/// never pass through this crate, so the type carries no value.
#[derive(Debug, Clone, Copy, PartialEq, Eq)]
pub struct Float32;

/// Stands for the 64-bit floating point element type.
#[derive(Debug, Clone, Copy, PartialEq, Eq)]
pub struct Float64;

impl Data for Float32 {
    const DATA_TYPE: i32 = DTYPE_FLOAT32;

    proof fn data_type_is_known() {
    }
}

impl Data for Float64 {
    const DATA_TYPE: i32 = DTYPE_FLOAT64;

    proof fn data_type_is_known() {
    }
}

impl Data for i32 {
    const DATA_TYPE: i32 = DTYPE_INT32;

    proof fn data_type_is_known() {
    }
}

impl Data for i64 {
    const DATA_TYPE: i32 = DTYPE_INT64;

    proof fn data_type_is_known() {
    }
}

impl FeatureData for Float32 {
    proof fn data_type_is_feature() {
    }
}

impl FeatureData for Float64 {
    proof fn data_type_is_feature() {
    }
}

/// Each element type goes by its own tag of the native interface: no two
/// share one, and only the floating point kinds are feature-eligible.
pub proof fn element_types_have_their_tags()
    ensures
        <Float32 as Data>::DATA_TYPE == DTYPE_FLOAT32,
        <Float64 as Data>::DATA_TYPE == DTYPE_FLOAT64,
        <i32 as Data>::DATA_TYPE == DTYPE_INT32,
        <i64 as Data>::DATA_TYPE == DTYPE_INT64,
        DTYPE_FLOAT32 == 0,
        DTYPE_FLOAT64 == 1,
        DTYPE_INT32 == 2,
        DTYPE_INT64 == 3,
        forall|tag: i32| is_feature_type(tag) ==> is_data_type(tag),
        !is_feature_type(<i32 as Data>::DATA_TYPE),
        !is_feature_type(<i64 as Data>::DATA_TYPE),
{
}

} // verus!
