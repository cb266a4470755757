//! Texts in the form that the native layer reads: bytes up to the first NUL.

use vstd::prelude::*;
use crate::error::Error;

verus! {

/// `position` is where the first NUL byte of `text` stands.
pub open spec fn is_first_nul(text: Seq<u8>, position: int) -> bool {
    &&& 0 <= position < text.len()
    &&& text[position] == 0
    &&& forall|i: int| 0 <= i < position ==> text[i] != 0
}

/// `text` holds a NUL byte somewhere.
pub open spec fn has_nul(text: Seq<u8>) -> bool {
    exists|i: int| 0 <= i < text.len() && text[i] == 0
}

/// `bytes` ends in a NUL byte and holds no other: the native layer reads all
/// of it, and nothing beyond it.
pub open spec fn is_terminated(bytes: Seq<u8>) -> bool {
    is_first_nul(bytes, bytes.len() - 1)
}

/// `bytes` is not empty and its last byte is NUL.
pub open spec fn ends_in_nul(bytes: Seq<u8>) -> bool {
    bytes.len() > 0 && bytes.last() == 0
}

/// `error` is the refusal that `text` earns: an encoding error that names the
/// first NUL byte.
pub open spec fn is_encoding_error(text: Seq<u8>, error: Error) -> bool {
    error matches Error::Encoding { position } && is_first_nul(text, position as int)
}

/// A text with its terminating NUL, ready to be handed to the native layer.
#[derive(Debug, PartialEq, Eq)]
pub struct NativeString {
    bytes: Vec<u8>,
}

impl View for NativeString {
    type V = Seq<u8>;

    /// The bytes, terminator included.
    closed spec fn view(&self) -> Seq<u8> {
        self.bytes@
    }
}

impl NativeString {
    #[verifier::type_invariant]
    spec fn well_formed(&self) -> bool {
        is_terminated(self.bytes@)
    }

    /// Appends the terminator to `text`. A text that already holds a NUL byte
    /// would be cut short by the native layer: it is refused, with the place
    /// of its first NUL.
    pub fn new(text: &[u8]) -> (made: Result<NativeString, Error>)
        ensures
            made is Ok <==> !has_nul(text@),
            match made {
                Ok(native) => !has_nul(text@) && native@ == text@.push(0),
                Err(error) => is_encoding_error(text@, error),
            },
    {
        let mut bytes: Vec<u8> = Vec::new();
        let mut i: usize = 0;
        while i < text.len()
            invariant
                i <= text.len(),
                bytes@ == text@.take(i as int),
                forall|j: int| 0 <= j < i ==> text@[j] != 0,
            decreases text.len() - i,
        {
            let byte: u8 = text[i];
            if byte == 0 {
                return Err(Error::Encoding { position: i });
            }
            bytes.push(byte);
            assert(text@.take(i as int).push(byte) == text@.take(i + 1));
            i += 1;
        }
        bytes.push(0);
        assert(text@.take(i as int) == text@);
        Ok(NativeString { bytes })
    }

    /// The bytes to hand over, terminator included.
    pub fn as_bytes_with_nul(&self) -> (bytes: &[u8])
        ensures
            bytes@ == self@,
            is_terminated(bytes@),
    {
        proof {
            use_type_invariant(self);
        }
        self.bytes.as_slice()
    }
}

/// A text has one first NUL byte at most: the position that a refusal names
/// is settled by the text.
pub proof fn first_nul_is_unique(text: Seq<u8>, a: int, b: int)
    requires
        is_first_nul(text, a),
        is_first_nul(text, b),
    ensures
        a == b,
        has_nul(text),
{
}

} // verus!
