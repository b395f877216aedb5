//! Safe bindings around a native computer-vision library.
//!
//! The native library owns its arrays, classifiers, detectors and networks;
//! this crate holds what the safe side decides on its own: the type codes
//! exchanged with the native side, the error values, the validation of
//! strings and paths before they cross the boundary, the copying of native
//! buffers and struct arrays into owned values, and a registry that makes
//! every native release happen exactly once.
use vstd::prelude::*;
use vstd::string::{StrSliceExecFns, StringExecFns, StringSliceAdditionalSpecFns};

pub mod cvcore;
pub mod handle;
pub mod highgui;
pub mod imgcodecs;
pub mod imgproc;
pub mod objdetect;

verus! {

/// Errors reported by the safe layer.
#[derive(Debug, Clone, PartialEq, Eq)]
pub enum CvError {
    /// A string could not be handed to the native side (it holds a NUL byte).
    InvalidString(String),
    /// A path could not be handed to the native side.
    InvalidPath(String),
    /// A cascade model could not be loaded from the given path.
    InvalidCascadeModel(String),
    /// There is no entry at the given path.
    EntryNotFound(String),
    /// A native integer code matched no variant of the expected type.
    EnumFromPrimitiveConversionError {
        /// The code that matched no variant.
        value: i32,
    },
    /// The native side reported an error it gave no structure to.
    UnknownError(String),
    /// A string holds characters that are not ASCII.
    UnicodeChars(String),
}

/// The result of decoding `value`: the variant found, or the conversion
/// error that carries the offending code.
pub open spec fn decoded<T>(found: Option<T>, value: i32) -> Result<T, CvError> {
    match found {
        Some(v) => Ok(v),
        None => Err(CvError::EnumFromPrimitiveConversionError { value }),
    }
}

/// The bytes of a native string made from `s`: the UTF-8 bytes of `s` and
/// a terminating NUL.
pub open spec fn spec_c_bytes(s: &str) -> Seq<u8> {
    s.spec_bytes().push(0u8)
}

/// Whether `s` can stand as a native string: it holds no NUL byte.
pub open spec fn spec_c_representable(s: &str) -> bool {
    !s.spec_bytes().contains(0u8)
}

/// The NUL-terminated bytes of `s`, or `None` where `s` holds a NUL byte.
fn nul_terminated(s: &str) -> (r: Option<Vec<u8>>)
    ensures
        match r {
            Some(v) => spec_c_representable(s) && v@ == spec_c_bytes(s),
            None => !spec_c_representable(s),
        },
{
    let mut bytes = s.as_bytes_vec();
    let mut i: usize = 0;
    while i < bytes.len()
        invariant
            bytes@ == s.spec_bytes(),
            i <= bytes@.len(),
            forall|j: int| 0 <= j < i ==> bytes@[j] != 0u8,
        decreases bytes@.len() - i,
    {
        if bytes[i] == 0u8 {
            return None;
        }
        i += 1;
    }
    bytes.push(0u8);
    Some(bytes)
}

/// Converts a string for the native side: its NUL-terminated bytes, or
/// `InvalidString` with the string where it holds a NUL byte.
pub fn c_string(s: &str) -> (r: Result<Vec<u8>, CvError>)
    ensures
        match r {
            Ok(v) => spec_c_representable(s) && v@ == spec_c_bytes(s),
            Err(e) => !spec_c_representable(s) && (e matches CvError::InvalidString(t) && t@
                == s@),
        },
{
    match nul_terminated(s) {
        Some(v) => Ok(v),
        None => Err(CvError::InvalidString(String::from_str(s))),
    }
}

/// Converts a path for the native side: its NUL-terminated bytes, or
/// `InvalidPath` with the path where it holds a NUL byte.
pub fn path_to_cstring(path: &str) -> (r: Result<Vec<u8>, CvError>)
    ensures
        match r {
            Ok(v) => spec_c_representable(path) && v@ == spec_c_bytes(path),
            Err(e) => !spec_c_representable(path) && (e matches CvError::InvalidPath(t) && t@
                == path@),
        },
{
    match nul_terminated(path) {
        Some(v) => Ok(v),
        None => Err(CvError::InvalidPath(String::from_str(path))),
    }
}

} // verus!
