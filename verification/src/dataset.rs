//! The dataset and the native calls made on its behalf.
//!
//! A method of `Dataset` prepares one native call: it returns the arguments
//! as a value, or the reason why the call must not be made. The caller makes
//! the call with exactly these arguments and hands what came back to the
//! `finish` of that value.

use vstd::prelude::*;
use std::marker::PhantomData;
use crate::data::{is_data_type, is_feature_type, Data, FeatureData};
use crate::error::{status_result, succeeded, to_result, Error};
use crate::field::Field;
use crate::mat::MatShape;
use crate::text::{has_nul, is_encoding_error, NativeString};

verus! {

/// The handle value that stands for "no dataset".
pub const NULL_HANDLE: usize = 0;

/// `count` can be handed to the native layer, whose counts are 32-bit and
/// signed.
pub open spec fn fits_native_int(count: usize) -> bool {
    count <= i32::MAX
}

/// The flag by which the native layer is told the element order of a matrix.
pub open spec fn layout_flag(row_major: bool) -> i32 {
    if row_major {
        1
    } else {
        0
    }
}

/// Owns one dataset of the native layer, known by its handle. The handle is
/// never null, the value cannot be copied, and `free` consumes it: a dataset
/// is released at most once, and nothing is asked of it afterwards. An owner
/// that lets go by reference keeps it in an `Option` and calls `release`.
#[derive(Debug)]
pub struct Dataset {
    handle: usize,
}

/// The handle to pass as the reference argument of a construction: that of
/// the referenced dataset, or null for none.
pub open spec fn reference_handle(dataset: Option<&Dataset>) -> usize {
    match dataset {
        Some(dataset) => dataset.handle(),
        None => NULL_HANDLE,
    }
}

/// Resolves an optional reference dataset to the handle value that the
/// native layer expects. The handle is read, not given away. Null comes out
/// for no dataset only.
pub fn to_dataset_handle(dataset: Option<&Dataset>) -> (handle: usize)
    ensures
        handle == reference_handle(dataset),
        handle == NULL_HANDLE <==> dataset is None,
{
    match dataset {
        Some(dataset) => {
            proof {
                use_type_invariant(dataset);
            }
            dataset.handle
        },
        None => NULL_HANDLE,
    }
}

/// A construction delivers a dataset when the call succeeded and left a
/// handle that is not null.
pub open spec fn delivered(status: i32, handle: usize) -> bool {
    succeeded(status) && handle != NULL_HANDLE
}

/// Arguments of the native call that loads a dataset from a file.
#[derive(Debug, PartialEq, Eq)]
pub struct CreateFromFile {
    /// Name of the file to load.
    pub filename: NativeString,
    /// The flattened parameters.
    pub parameters: NativeString,
    /// Handle of the dataset to align with, or null.
    pub reference: usize,
}

/// Arguments of the native call that builds a dataset from a dense matrix,
/// but for the address of the matrix itself.
#[derive(Debug, PartialEq, Eq)]
pub struct CreateFromMat {
    /// Tag of the element type of the matrix.
    pub data_type: i32,
    /// Number of rows.
    pub nrow: i32,
    /// Number of columns.
    pub ncol: i32,
    /// 1 for a row-major matrix, 0 for a column-major one.
    pub is_row_major: i32,
    /// The flattened parameters.
    pub parameters: NativeString,
    /// Handle of the dataset to align with, or null.
    pub reference: usize,
}

/// Arguments of the native call that replaces a field of a dataset, but for
/// the address of the elements.
#[derive(Debug, PartialEq, Eq)]
pub struct SetField {
    /// Handle of the dataset.
    pub handle: usize,
    /// Wire name of the field, terminator included.
    pub name: &'static [u8],
    /// Number of elements.
    pub num_element: i32,
    /// Tag of the element type.
    pub data_type: i32,
}

/// Arguments of the native call that reads a field of a dataset whose
/// elements are expected to be of type `T`. What `finish` makes of the answer
/// lives no longer than the borrow of the dataset that the call was prepared
/// from.
#[derive(Debug, PartialEq, Eq)]
pub struct GetField<'a, T> {
    /// Handle of the dataset.
    pub handle: usize,
    /// Wire name of the field, terminator included.
    pub name: &'static [u8],
    /// Binds the call to the dataset's borrow.
    pub owner: PhantomData<&'a Dataset>,
    /// Binds the call to the element type.
    pub element: PhantomData<T>,
}

/// A field as the native layer holds it: `len` elements of type `T` that
/// start at the address `addr`. The memory belongs to the native dataset, so
/// the view borrows the dataset.
#[derive(Debug, PartialEq, Eq)]
pub struct FieldView<'a, T> {
    /// Address of the first element.
    pub addr: usize,
    /// Number of elements.
    pub len: usize,
    /// Binds the view to the dataset's borrow.
    pub owner: PhantomData<&'a Dataset>,
    /// Binds the view to the element type.
    pub element: PhantomData<T>,
}

/// Argument of the native call that asks a dataset for its number of
/// features.
#[derive(Debug, PartialEq, Eq)]
pub struct GetNumFeature {
    /// Handle of the dataset.
    pub handle: usize,
}

/// Argument of the native call that asks a dataset for its number of rows.
#[derive(Debug, PartialEq, Eq)]
pub struct GetNumData {
    /// Handle of the dataset.
    pub handle: usize,
}

/// Arguments of the native call that writes a dataset out as text.
#[derive(Debug, PartialEq, Eq)]
pub struct DumpText {
    /// Handle of the dataset.
    pub handle: usize,
    /// Name of the file to write.
    pub filename: NativeString,
}

/// Argument of the native call that releases a dataset.
#[derive(Debug, PartialEq, Eq)]
pub struct Free {
    /// Handle of the dataset.
    pub handle: usize,
}

/// What letting go makes of a place that holds a dataset or nothing: the
/// place is left empty, and a release call comes out for the dataset that it
/// held, or none where it held nothing.
pub open spec fn release_step(held: Option<Dataset>) -> (Option<Dataset>, Option<Free>) {
    (
        None,
        match held {
            Some(dataset) => Some(Free { handle: dataset.handle() }),
            None => None,
        },
    )
}

/// What the answer to a field read amounts to, for a field whose elements
/// are expected to be of type `T`: the native failure before anything else;
/// then a type mismatch for an element type tag other than that of `T`; else
/// a view of exactly the length and the address that came back.
pub open spec fn read_result<'a, T: Data>(
    status: i32,
    message: String,
    out_len: i32,
    out_ptr: usize,
    out_type: i32,
) -> Result<FieldView<'a, T>, Error> {
    if !succeeded(status) {
        Err(Error::Native { message })
    } else if out_type != T::DATA_TYPE {
        Err(Error::TypeMismatch)
    } else {
        Ok(
            FieldView {
                addr: out_ptr,
                len: out_len as usize,
                owner: PhantomData,
                element: PhantomData,
            },
        )
    }
}

/// What the answer to a count query amounts to: the count as a size, as a
/// cast makes it, or the native failure.
pub open spec fn count_result(status: i32, message: String, out: i32) -> Result<usize, Error> {
    if succeeded(status) {
        Ok(out as usize)
    } else {
        Err(Error::Native { message })
    }
}

impl Dataset {
    #[verifier::type_invariant]
    spec fn well_formed(&self) -> bool {
        self.handle != NULL_HANDLE
    }

    /// The handle of the native dataset.
    pub closed spec fn handle(&self) -> usize {
        self.handle
    }

    /// Judges the answer to a construction call.
    fn adopt(status: i32, message: String, handle: usize) -> (made: Result<Dataset, Error>)
        ensures
            match made {
                Ok(dataset) => delivered(status, handle) && dataset.handle() == handle,
                Err(error) => !delivered(status, handle) && error == (Error::Native { message }),
            },
    {
        if status == 0 && handle != NULL_HANDLE {
            Ok(Dataset { handle })
        } else {
            Err(Error::Native { message })
        }
    }

    /// Prepares the loading of a dataset from the file `filename`, with the
    /// flattened `parameters`, aligned with `reference` if there is one.
    ///
    /// A text that holds a NUL byte is refused, the file name before the
    /// parameters, and no call is made.
    pub fn from_file(filename: &[u8], reference: Option<&Dataset>, parameters: &[u8]) -> (planned:
        Result<CreateFromFile, Error>)
        ensures
            planned is Ok <==> !has_nul(filename@) && !has_nul(parameters@),
            match planned {
                Ok(call) => {
                    &&& !has_nul(filename@)
                    &&& !has_nul(parameters@)
                    &&& call.filename@ == filename@.push(0)
                    &&& call.parameters@ == parameters@.push(0)
                    &&& call.reference == reference_handle(reference)
                },
                Err(error) => if has_nul(filename@) {
                    is_encoding_error(filename@, error)
                } else {
                    is_encoding_error(parameters@, error)
                },
            },
    {
        let filename = NativeString::new(filename)?;
        let parameters = NativeString::new(parameters)?;
        Ok(CreateFromFile { filename, parameters, reference: to_dataset_handle(reference) })
    }

    /// Prepares the building of a dataset from a matrix of the shape `mat`,
    /// with the flattened `parameters`, aligned with `reference` if there is
    /// one.
    ///
    /// A row or column count beyond the native integer range is refused with
    /// a range error; after that, parameters that hold a NUL byte are
    /// refused. Either way no call is made.
    pub fn from_mat<T: FeatureData>(
        mat: &MatShape<T>,
        reference: Option<&Dataset>,
        parameters: &[u8],
    ) -> (planned: Result<CreateFromMat, Error>)
        ensures
            planned is Ok <==> fits_native_int(mat.nrow) && fits_native_int(mat.ncol) && !has_nul(
                parameters@,
            ),
            !fits_native_int(mat.nrow) || !fits_native_int(mat.ncol) ==> planned == Err::<
                CreateFromMat,
                Error,
            >(Error::Range),
            match planned {
                Ok(call) => {
                    &&& fits_native_int(mat.nrow)
                    &&& fits_native_int(mat.ncol)
                    &&& !has_nul(parameters@)
                    &&& call.data_type == T::DATA_TYPE
                    &&& is_feature_type(call.data_type)
                    &&& call.nrow == mat.nrow
                    &&& call.ncol == mat.ncol
                    &&& call.is_row_major == layout_flag(mat.row_major)
                    &&& call.parameters@ == parameters@.push(0)
                    &&& call.reference == reference_handle(reference)
                },
                Err(error) => if fits_native_int(mat.nrow) && fits_native_int(mat.ncol) {
                    is_encoding_error(parameters@, error)
                } else {
                    error == Error::Range
                },
            },
    {
        let nrow: i32 = match i32::try_from(mat.nrow) {
            Ok(nrow) => nrow,
            Err(_) => {
                return Err(Error::Range);
            },
        };
        let ncol: i32 = match i32::try_from(mat.ncol) {
            Ok(ncol) => ncol,
            Err(_) => {
                return Err(Error::Range);
            },
        };
        let is_row_major: i32 = if mat.row_major {
            1
        } else {
            0
        };
        let parameters = NativeString::new(parameters)?;
        proof {
            T::data_type_is_feature();
        }
        Ok(
            CreateFromMat {
                data_type: T::DATA_TYPE,
                nrow,
                ncol,
                is_row_major,
                parameters,
                reference: to_dataset_handle(reference),
            },
        )
    }

    /// Prepares the replacing of the field `field` by `len` elements of type
    /// `T`. The dataset itself stays as it is.
    ///
    /// A length beyond the native integer range is refused with a range
    /// error, and no call is made.
    pub fn set_field<T: Data>(&mut self, field: Field<T>, len: usize) -> (planned: Result<
        SetField,
        Error,
    >)
        ensures
            *final(self) == *old(self),
            match planned {
                Ok(call) => {
                    &&& fits_native_int(len)
                    &&& call.sets(old(self), field, len)
                    &&& is_data_type(call.data_type)
                },
                Err(error) => !fits_native_int(len) && error == Error::Range,
            },
    {
        proof {
            T::data_type_is_known();
        }
        let num_element: i32 = match i32::try_from(len) {
            Ok(num_element) => num_element,
            Err(_) => {
                return Err(Error::Range);
            },
        };
        Ok(
            SetField {
                handle: self.handle,
                name: field.name_ptr(),
                num_element,
                data_type: T::DATA_TYPE,
            },
        )
    }

    /// Prepares the reading of the field `field`.
    pub fn get_field<'a, T: Data>(&'a self, field: Field<T>) -> (call: GetField<'a, T>)
        ensures
            call.reads(self, field),
    {
        GetField {
            handle: self.handle,
            name: field.name_ptr(),
            owner: PhantomData,
            element: PhantomData,
        }
    }

    /// Prepares the query for the number of features.
    pub fn get_num_feature(&self) -> (call: GetNumFeature)
        ensures
            call.handle == self.handle(),
    {
        GetNumFeature { handle: self.handle }
    }

    /// Prepares the query for the number of rows.
    pub fn get_num_data(&self) -> (call: GetNumData)
        ensures
            call.handle == self.handle(),
    {
        GetNumData { handle: self.handle }
    }

    /// Prepares the writing of the dataset as text to the file `path`.
    ///
    /// A path that holds a NUL byte is refused, and no call is made.
    pub fn dump_text(&self, path: &[u8]) -> (planned: Result<DumpText, Error>)
        ensures
            planned is Ok <==> !has_nul(path@),
            match planned {
                Ok(call) => {
                    &&& !has_nul(path@)
                    &&& call.handle == self.handle()
                    &&& call.filename@ == path@.push(0)
                },
                Err(error) => is_encoding_error(path@, error),
            },
    {
        let filename = NativeString::new(path)?;
        Ok(DumpText { handle: self.handle, filename })
    }

    /// Gives the dataset up and prepares its release: the one release call
    /// that this dataset will ever name.
    pub fn free(self) -> (call: Free)
        ensures
            call.handle == self.handle(),
            call.handle != NULL_HANDLE,
    {
        proof {
            use_type_invariant(&self);
        }
        Free { handle: self.handle }
    }

    /// Lets go of the dataset in `held`, as an owner does that is dropped
    /// and can be reached by reference only. The first time this prepares the
    /// release of the dataset and leaves `held` empty; from then on there is
    /// nothing to release, and no call comes out.
    pub fn release(held: &mut Option<Dataset>) -> (call: Option<Free>)
        ensures
            (*final(held), call) == release_step(*old(held)),
            call matches Some(free) ==> free.handle != NULL_HANDLE,
    {
        match held.take() {
            Some(dataset) => Some(dataset.free()),
            None => None,
        }
    }
}

impl CreateFromFile {
    /// Judges the answer to the call: its `status`, the native layer's
    /// last-error `message`, and the `handle` it left. A dataset comes out
    /// exactly when the call succeeded and the handle is not null.
    pub fn finish(self, status: i32, message: String, handle: usize) -> (made: Result<
        Dataset,
        Error,
    >)
        ensures
            match made {
                Ok(dataset) => delivered(status, handle) && dataset.handle() == handle,
                Err(error) => !delivered(status, handle) && error == (Error::Native { message }),
            },
    {
        Dataset::adopt(status, message, handle)
    }
}

impl CreateFromMat {
    /// Judges the answer to the call: its `status`, the native layer's
    /// last-error `message`, and the `handle` it left. A dataset comes out
    /// exactly when the call succeeded and the handle is not null.
    pub fn finish(self, status: i32, message: String, handle: usize) -> (made: Result<
        Dataset,
        Error,
    >)
        ensures
            match made {
                Ok(dataset) => delivered(status, handle) && dataset.handle() == handle,
                Err(error) => !delivered(status, handle) && error == (Error::Native { message }),
            },
    {
        Dataset::adopt(status, message, handle)
    }
}

impl SetField {
    /// `self` is the call that sets `len` elements of type `T` as the field
    /// `field` of `dataset`.
    pub open spec fn sets<T: Data>(&self, dataset: &Dataset, field: Field<T>, len: usize) -> bool {
        &&& self.handle == dataset.handle()
        &&& self.name@ == field.name()
        &&& self.num_element == len
        &&& self.data_type == T::DATA_TYPE
    }

    /// Judges the answer to the call: its `status` and the native layer's
    /// last-error `message`.
    pub fn finish(self, status: i32, message: String) -> (outcome: Result<(), Error>)
        ensures
            outcome == status_result(status, message),
    {
        to_result(status, message)
    }
}

impl<'a, T: Data> GetField<'a, T> {
    /// `self` is the call that reads the field `field` of `dataset`.
    pub open spec fn reads(&self, dataset: &Dataset, field: Field<T>) -> bool {
        &&& self.handle == dataset.handle()
        &&& self.name@ == field.name()
    }

    /// Judges the answer to the call: its `status`, the native layer's
    /// last-error `message`, and the length, address and element type tag
    /// that it left.
    ///
    /// A failed call is reported first. Then a tag other than that of `T` is
    /// refused as a type mismatch, and neither length nor address is looked
    /// at. Else the view has exactly the length and the address that came
    /// back.
    pub fn finish(self, status: i32, message: String, out_len: i32, out_ptr: usize, out_type: i32)
        -> (read: Result<FieldView<'a, T>, Error>)
        ensures
            read == read_result::<T>(status, message, out_len, out_ptr, out_type),
            succeeded(status) && out_type != T::DATA_TYPE ==> read == Err::<FieldView<'a, T>, Error>(
                Error::TypeMismatch,
            ),
    {
        to_result(status, message)?;
        if out_type != T::DATA_TYPE {
            return Err(Error::TypeMismatch);
        }
        Ok(
            FieldView {
                addr: out_ptr,
                len: out_len as usize,
                owner: PhantomData,
                element: PhantomData,
            },
        )
    }
}

impl GetNumFeature {
    /// Judges the answer to the call: its `status`, the native layer's
    /// last-error `message`, and the count `out` that it left.
    pub fn finish(self, status: i32, message: String, out: i32) -> (count: Result<usize, Error>)
        ensures
            count == count_result(status, message, out),
    {
        to_result(status, message)?;
        Ok(out as usize)
    }
}

impl GetNumData {
    /// Judges the answer to the call: its `status`, the native layer's
    /// last-error `message`, and the count `out` that it left.
    pub fn finish(self, status: i32, message: String, out: i32) -> (count: Result<usize, Error>)
        ensures
            count == count_result(status, message, out),
    {
        to_result(status, message)?;
        Ok(out as usize)
    }
}

impl DumpText {
    /// Judges the answer to the call: its `status` and the native layer's
    /// last-error `message`.
    pub fn finish(self, status: i32, message: String) -> (outcome: Result<(), Error>)
        ensures
            outcome == status_result(status, message),
    {
        to_result(status, message)
    }
}

impl Free {
    /// Judges the answer to the call: its `status` and the native layer's
    /// last-error `message`. A release that failed cannot be repeated or
    /// undone: the caller has nothing left but to give up.
    pub fn finish(self, status: i32, message: String) -> (outcome: Result<(), Error>)
        ensures
            outcome == status_result(status, message),
    {
        to_result(status, message)
    }
}

/// A dataset is released once and no more: letting go of a place yields a
/// release call exactly if it holds a dataset, then for the handle of that
/// dataset; and letting go of it again yields none.
pub proof fn released_once(held: Option<Dataset>)
    ensures
        release_step(held).1 is Some <==> held is Some,
        held matches Some(dataset) ==> release_step(held).1 == Some(
            Free { handle: dataset.handle() },
        ),
        release_step(release_step(held).0).1 is None,
        release_step(release_step(held).0).0 is None,
{
}

/// What is set under a descriptor is asked back under it by the same name
/// from the same dataset, and neither the element type nor the length is
/// lost on the way: when the native layer answers a read with the tag and
/// the number of elements of the set call, the answer is accepted, and the
/// view has exactly as many elements as were set. That the native layer
/// keeps the elements themselves is not claimed here.
pub proof fn set_then_get_agree<'a, T: Data>(
    dataset: &Dataset,
    field: Field<T>,
    len: usize,
    set: SetField,
    get: GetField<'a, T>,
    message: String,
    out_ptr: usize,
)
    requires
        fits_native_int(len),
        set.sets(dataset, field, len),
        get.reads(dataset, field),
    ensures
        get.handle == set.handle,
        get.name@ == set.name@,
        read_result::<T>(0, message, set.num_element, out_ptr, set.data_type) == Ok::<
            FieldView<'a, T>,
            Error,
        >(FieldView { addr: out_ptr, len, owner: PhantomData, element: PhantomData }),
{
}

/// A field that was set with elements of type `T` is not handed out under a
/// descriptor of another element type `U`: the read fails with a type
/// mismatch, whatever length and address came back.
pub proof fn get_as_other_type_is_refused<'a, T: Data, U: Data>(
    message: String,
    out_len: i32,
    out_ptr: usize,
)
    requires
        T::DATA_TYPE != U::DATA_TYPE,
    ensures
        read_result::<U>(0, message, out_len, out_ptr, T::DATA_TYPE) == Err::<
            FieldView<'a, U>,
            Error,
        >(Error::TypeMismatch),
{
}

} // verus!
