//! The decision core of a dataset binding for a native gradient-boosting
//! library.
//!
//! Nothing here touches the native layer. Each operation on a dataset is
//! split in two verified halves: a method of `Dataset` that prepares the
//! arguments of one native call, and a `finish` on the prepared call that
//! judges what the native layer answered. The caller performs the call in
//! between.

pub mod data;
pub mod dataset;
pub mod error;
pub mod field;
pub mod mat;
pub mod text;

pub use data::{Data, FeatureData, Float32, Float64};
pub use dataset::{to_dataset_handle, CreateFromFile, CreateFromMat, Dataset};
pub use error::{to_result, Error};
pub use field::Field;
pub use mat::MatShape;
pub use text::NativeString;
