//! Core value types, type codes and the marshaling of native buffers.
use crate::{decoded, CvError};
use vstd::prelude::*;

verus! {

/// Element type of a dense array: depth and channel count.
///
/// The code of a type is `depth + 8 * (channels - 1)`, where the depth
/// codes are 0 for 8-bit unsigned, 1 for 8-bit signed, 2 for 16-bit unsigned,
/// 3 for 16-bit signed, 4 for 32-bit signed, 5 for 32-bit float and 6 for
/// 64-bit float.
#[derive(Debug, Clone, Copy, PartialEq, Eq, Hash, Structural)]
pub enum CvType {
    /// 8 bit unsigned, single channel (grey image)
    Cv8UC1,
    /// 8 bit signed, single channel (grey image)
    Cv8SC1,
    /// 16 bit unsigned, single channel (grey image)
    Cv16UC1,
    /// 16 bit signed, single channel (grey image)
    Cv16SC1,
    /// 32 bit signed, single channel (grey image)
    Cv32SC1,
    /// 32 bit float, single channel (grey image)
    Cv32FC1,
    /// 64 bit float, single channel (grey image)
    Cv64FC1,
    /// 8 bit unsigned, two channels
    Cv8UC2,
    /// 8 bit unsigned, three channels (RGB image)
    Cv8UC3,
    /// 8 bit signed, three channels (RGB image)
    Cv8SC3,
    /// 16 bit unsigned, three channels (RGB image)
    Cv16UC3,
    /// 16 bit signed, three channels (RGB image)
    Cv16SC3,
    /// 32 bit signed, three channels (RGB image)
    Cv32SC3,
    /// 32 bit float, three channels (RGB image)
    Cv32FC3,
    /// 64 bit float, three channels (RGB image)
    Cv64FC3,
}

impl CvType {
    /// The native integer code of this variant.
    pub open spec fn spec_code(self) -> i32 {
        match self {
            CvType::Cv8UC1 => 0,
            CvType::Cv8SC1 => 1,
            CvType::Cv16UC1 => 2,
            CvType::Cv16SC1 => 3,
            CvType::Cv32SC1 => 4,
            CvType::Cv32FC1 => 5,
            CvType::Cv64FC1 => 6,
            CvType::Cv8UC2 => 8,
            CvType::Cv8UC3 => 16,
            CvType::Cv8SC3 => 17,
            CvType::Cv16UC3 => 18,
            CvType::Cv16SC3 => 19,
            CvType::Cv32SC3 => 20,
            CvType::Cv32FC3 => 21,
            CvType::Cv64FC3 => 22,
        }
    }

    /// The variant whose native code is `code`, if any.
    pub open spec fn spec_from_code(code: i32) -> Option<CvType> {
        match code {
            0 => Some(CvType::Cv8UC1),
            1 => Some(CvType::Cv8SC1),
            2 => Some(CvType::Cv16UC1),
            3 => Some(CvType::Cv16SC1),
            4 => Some(CvType::Cv32SC1),
            5 => Some(CvType::Cv32FC1),
            6 => Some(CvType::Cv64FC1),
            8 => Some(CvType::Cv8UC2),
            16 => Some(CvType::Cv8UC3),
            17 => Some(CvType::Cv8SC3),
            18 => Some(CvType::Cv16UC3),
            19 => Some(CvType::Cv16SC3),
            20 => Some(CvType::Cv32SC3),
            21 => Some(CvType::Cv32FC3),
            22 => Some(CvType::Cv64FC3),
            _ => None,
        }
    }

    /// Returns the native integer code of this variant.
    pub fn code(self) -> (r: i32)
        ensures
            r == self.spec_code(),
    {
        match self {
            CvType::Cv8UC1 => 0,
            CvType::Cv8SC1 => 1,
            CvType::Cv16UC1 => 2,
            CvType::Cv16SC1 => 3,
            CvType::Cv32SC1 => 4,
            CvType::Cv32FC1 => 5,
            CvType::Cv64FC1 => 6,
            CvType::Cv8UC2 => 8,
            CvType::Cv8UC3 => 16,
            CvType::Cv8SC3 => 17,
            CvType::Cv16UC3 => 18,
            CvType::Cv16SC3 => 19,
            CvType::Cv32SC3 => 20,
            CvType::Cv32FC3 => 21,
            CvType::Cv64FC3 => 22,
        }
    }

    /// Decodes a native integer code; a code that no variant has is an
    /// error that carries the code.
    pub fn from_code(code: i32) -> (r: Result<CvType, CvError>)
        ensures
            r == decoded(CvType::spec_from_code(code), code),
    {
        match code {
            0 => Ok(CvType::Cv8UC1),
            1 => Ok(CvType::Cv8SC1),
            2 => Ok(CvType::Cv16UC1),
            3 => Ok(CvType::Cv16SC1),
            4 => Ok(CvType::Cv32SC1),
            5 => Ok(CvType::Cv32FC1),
            6 => Ok(CvType::Cv64FC1),
            8 => Ok(CvType::Cv8UC2),
            16 => Ok(CvType::Cv8UC3),
            17 => Ok(CvType::Cv8SC3),
            18 => Ok(CvType::Cv16UC3),
            19 => Ok(CvType::Cv16SC3),
            20 => Ok(CvType::Cv32SC3),
            21 => Ok(CvType::Cv32FC3),
            22 => Ok(CvType::Cv64FC3),
            _ => Err(CvError::EnumFromPrimitiveConversionError { value: code }),
        }
    }

    /// Decoding the code of a variant gives that variant back, and a code
    /// decodes only to the variant whose code it is: every other code is
    /// rejected.
    pub proof fn lemma_code_round_trip(v: CvType, code: i32)
        ensures
            CvType::spec_from_code(v.spec_code()) == Some(v),
            CvType::spec_from_code(code) matches Some(w) ==> w.spec_code() == code,
            CvType::spec_from_code(code) is None ==> forall|u: CvType| u.spec_code() != code,
    {
        assert forall|u: CvType| CvType::spec_from_code(#[trigger] u.spec_code()) == Some(u) by {
            match u {
                CvType::Cv8UC1 => {},
                CvType::Cv8SC1 => {},
                CvType::Cv16UC1 => {},
                CvType::Cv16SC1 => {},
                CvType::Cv32SC1 => {},
                CvType::Cv32FC1 => {},
                CvType::Cv64FC1 => {},
                CvType::Cv8UC2 => {},
                CvType::Cv8UC3 => {},
                CvType::Cv8SC3 => {},
                CvType::Cv16UC3 => {},
                CvType::Cv16SC3 => {},
                CvType::Cv32SC3 => {},
                CvType::Cv32FC3 => {},
                CvType::Cv64FC3 => {},
            }
        }
    }
}

/// Pixel extrapolation at image borders; the border is written `|`.
#[derive(Debug, Clone, Copy, PartialEq, Eq, Hash, Structural)]
pub enum BorderType {
    /// `iiiiii|abcdefgh|iiiiiii` with some specified `i`
    Constant,
    /// `aaaaaa|abcdefgh|hhhhhhh`
    Replicate,
    /// `fedcba|abcdefgh|hgfedcb`
    Reflect,
    /// `cdefgh|abcdefgh|abcdefg`
    Wrap,
    /// `gfedcb|abcdefgh|gfedcba`
    Reflect101,
    /// `uvwxyz|abcdefgh|ijklmno`
    Transparent,
    /// Do not look outside of the region of interest.
    Isolated,
}

impl BorderType {
    /// The native integer code of this variant.
    pub open spec fn spec_code(self) -> i32 {
        match self {
            BorderType::Constant => 0,
            BorderType::Replicate => 1,
            BorderType::Reflect => 2,
            BorderType::Wrap => 3,
            BorderType::Reflect101 => 4,
            BorderType::Transparent => 5,
            BorderType::Isolated => 16,
        }
    }

    /// The variant whose native code is `code`, if any.
    pub open spec fn spec_from_code(code: i32) -> Option<BorderType> {
        match code {
            0 => Some(BorderType::Constant),
            1 => Some(BorderType::Replicate),
            2 => Some(BorderType::Reflect),
            3 => Some(BorderType::Wrap),
            4 => Some(BorderType::Reflect101),
            5 => Some(BorderType::Transparent),
            16 => Some(BorderType::Isolated),
            _ => None,
        }
    }

    /// Returns the native integer code of this variant.
    pub fn code(self) -> (r: i32)
        ensures
            r == self.spec_code(),
    {
        match self {
            BorderType::Constant => 0,
            BorderType::Replicate => 1,
            BorderType::Reflect => 2,
            BorderType::Wrap => 3,
            BorderType::Reflect101 => 4,
            BorderType::Transparent => 5,
            BorderType::Isolated => 16,
        }
    }

    /// Decodes a native integer code; a code that no variant has is an
    /// error that carries the code.
    pub fn from_code(code: i32) -> (r: Result<BorderType, CvError>)
        ensures
            r == decoded(BorderType::spec_from_code(code), code),
    {
        match code {
            0 => Ok(BorderType::Constant),
            1 => Ok(BorderType::Replicate),
            2 => Ok(BorderType::Reflect),
            3 => Ok(BorderType::Wrap),
            4 => Ok(BorderType::Reflect101),
            5 => Ok(BorderType::Transparent),
            16 => Ok(BorderType::Isolated),
            _ => Err(CvError::EnumFromPrimitiveConversionError { value: code }),
        }
    }

    /// Decoding the code of a variant gives that variant back, and a code
    /// decodes only to the variant whose code it is: every other code is
    /// rejected.
    pub proof fn lemma_code_round_trip(v: BorderType, code: i32)
        ensures
            BorderType::spec_from_code(v.spec_code()) == Some(v),
            BorderType::spec_from_code(code) matches Some(w) ==> w.spec_code() == code,
            BorderType::spec_from_code(code) is None ==> forall|u: BorderType| u.spec_code() != code,
    {
        assert forall|u: BorderType| BorderType::spec_from_code(#[trigger] u.spec_code()) == Some(u) by {
            match u {
                BorderType::Constant => {},
                BorderType::Replicate => {},
                BorderType::Reflect => {},
                BorderType::Wrap => {},
                BorderType::Reflect101 => {},
                BorderType::Transparent => {},
                BorderType::Isolated => {},
            }
        }
    }
}

/// Flags of the covariance computation.
#[derive(Debug, Clone, Copy, PartialEq, Eq, Hash, Structural)]
pub enum CovarFlag {
    /// The covariance matrix is nsamples x nsamples (fast PCA of large vectors).
    Scrambled,
    /// The covariance matrix is square, of the size of each input vector.
    Normal,
    /// Use the passed mean vector instead of computing it.
    UseAvg,
    /// Scale the covariance matrix.
    Scale,
    /// The input vectors are the rows of the samples matrix.
    Rows,
    /// The input vectors are the columns of the samples matrix.
    Cols,
}

impl CovarFlag {
    /// The native integer code of this variant.
    pub open spec fn spec_code(self) -> i32 {
        match self {
            CovarFlag::Scrambled => 0,
            CovarFlag::Normal => 1,
            CovarFlag::UseAvg => 2,
            CovarFlag::Scale => 4,
            CovarFlag::Rows => 8,
            CovarFlag::Cols => 16,
        }
    }

    /// The variant whose native code is `code`, if any.
    pub open spec fn spec_from_code(code: i32) -> Option<CovarFlag> {
        match code {
            0 => Some(CovarFlag::Scrambled),
            1 => Some(CovarFlag::Normal),
            2 => Some(CovarFlag::UseAvg),
            4 => Some(CovarFlag::Scale),
            8 => Some(CovarFlag::Rows),
            16 => Some(CovarFlag::Cols),
            _ => None,
        }
    }

    /// Returns the native integer code of this variant.
    pub fn code(self) -> (r: i32)
        ensures
            r == self.spec_code(),
    {
        match self {
            CovarFlag::Scrambled => 0,
            CovarFlag::Normal => 1,
            CovarFlag::UseAvg => 2,
            CovarFlag::Scale => 4,
            CovarFlag::Rows => 8,
            CovarFlag::Cols => 16,
        }
    }

    /// Decodes a native integer code; a code that no variant has is an
    /// error that carries the code.
    pub fn from_code(code: i32) -> (r: Result<CovarFlag, CvError>)
        ensures
            r == decoded(CovarFlag::spec_from_code(code), code),
    {
        match code {
            0 => Ok(CovarFlag::Scrambled),
            1 => Ok(CovarFlag::Normal),
            2 => Ok(CovarFlag::UseAvg),
            4 => Ok(CovarFlag::Scale),
            8 => Ok(CovarFlag::Rows),
            16 => Ok(CovarFlag::Cols),
            _ => Err(CvError::EnumFromPrimitiveConversionError { value: code }),
        }
    }

    /// Decoding the code of a variant gives that variant back, and a code
    /// decodes only to the variant whose code it is: every other code is
    /// rejected.
    pub proof fn lemma_code_round_trip(v: CovarFlag, code: i32)
        ensures
            CovarFlag::spec_from_code(v.spec_code()) == Some(v),
            CovarFlag::spec_from_code(code) matches Some(w) ==> w.spec_code() == code,
            CovarFlag::spec_from_code(code) is None ==> forall|u: CovarFlag| u.spec_code() != code,
    {
        assert forall|u: CovarFlag| CovarFlag::spec_from_code(#[trigger] u.spec_code()) == Some(u) by {
            match u {
                CovarFlag::Scrambled => {},
                CovarFlag::Normal => {},
                CovarFlag::UseAvg => {},
                CovarFlag::Scale => {},
                CovarFlag::Rows => {},
                CovarFlag::Cols => {},
            }
        }
    }
}

/// Comparison operator of element-wise comparisons.
#[derive(Debug, Clone, Copy, PartialEq, Eq, Hash, Structural)]
pub enum CompareType {
    /// src1 is equal to src2.
    Eq,
    /// src1 is greater than src2.
    Gt,
    /// src1 is greater than or equal to src2.
    Ge,
    /// src1 is less than src2.
    Lt,
    /// src1 is less than or equal to src2.
    Le,
    /// src1 is not equal to src2.
    Ne,
}

impl CompareType {
    /// The native integer code of this variant.
    pub open spec fn spec_code(self) -> i32 {
        match self {
            CompareType::Eq => 0,
            CompareType::Gt => 1,
            CompareType::Ge => 2,
            CompareType::Lt => 3,
            CompareType::Le => 4,
            CompareType::Ne => 5,
        }
    }

    /// The variant whose native code is `code`, if any.
    pub open spec fn spec_from_code(code: i32) -> Option<CompareType> {
        match code {
            0 => Some(CompareType::Eq),
            1 => Some(CompareType::Gt),
            2 => Some(CompareType::Ge),
            3 => Some(CompareType::Lt),
            4 => Some(CompareType::Le),
            5 => Some(CompareType::Ne),
            _ => None,
        }
    }

    /// Returns the native integer code of this variant.
    pub fn code(self) -> (r: i32)
        ensures
            r == self.spec_code(),
    {
        match self {
            CompareType::Eq => 0,
            CompareType::Gt => 1,
            CompareType::Ge => 2,
            CompareType::Lt => 3,
            CompareType::Le => 4,
            CompareType::Ne => 5,
        }
    }

    /// Decodes a native integer code; a code that no variant has is an
    /// error that carries the code.
    pub fn from_code(code: i32) -> (r: Result<CompareType, CvError>)
        ensures
            r == decoded(CompareType::spec_from_code(code), code),
    {
        match code {
            0 => Ok(CompareType::Eq),
            1 => Ok(CompareType::Gt),
            2 => Ok(CompareType::Ge),
            3 => Ok(CompareType::Lt),
            4 => Ok(CompareType::Le),
            5 => Ok(CompareType::Ne),
            _ => Err(CvError::EnumFromPrimitiveConversionError { value: code }),
        }
    }

    /// Decoding the code of a variant gives that variant back, and a code
    /// decodes only to the variant whose code it is: every other code is
    /// rejected.
    pub proof fn lemma_code_round_trip(v: CompareType, code: i32)
        ensures
            CompareType::spec_from_code(v.spec_code()) == Some(v),
            CompareType::spec_from_code(code) matches Some(w) ==> w.spec_code() == code,
            CompareType::spec_from_code(code) is None ==> forall|u: CompareType| u.spec_code() != code,
    {
        assert forall|u: CompareType| CompareType::spec_from_code(#[trigger] u.spec_code()) == Some(u) by {
            match u {
                CompareType::Eq => {},
                CompareType::Gt => {},
                CompareType::Ge => {},
                CompareType::Lt => {},
                CompareType::Le => {},
                CompareType::Ne => {},
            }
        }
    }
}

impl CvType {
    /// Depth code of this type: the low three bits of its code.
    pub open spec fn spec_depth(self) -> int {
        self.spec_code() as int % 8
    }

    /// Number of channels of this type.
    pub open spec fn spec_channels(self) -> int {
        self.spec_code() / 8 + 1
    }

    /// Bytes taken by one channel value of depth code `depth`.
    pub open spec fn depth_bytes(depth: int) -> int {
        if depth <= 1 {
            1
        } else if depth <= 3 {
            2
        } else if depth <= 5 {
            4
        } else {
            8
        }
    }

    /// Bytes taken by one element (all channels) of this type.
    pub open spec fn spec_elem_size(self) -> int {
        CvType::depth_bytes(self.spec_depth()) * self.spec_channels()
    }

    /// Bytes taken by a `rows` x `cols` array of this type.
    pub open spec fn spec_data_len(self, rows: int, cols: int) -> int {
        rows * cols * self.spec_elem_size()
    }

    /// Returns the depth code of this type.
    pub fn depth(self) -> (r: i32)
        ensures
            r == self.spec_depth(),
            0 <= r <= 6,
    {
        self.code() % 8
    }

    /// Returns the number of channels of this type.
    pub fn channels(self) -> (r: i32)
        ensures
            r == self.spec_channels(),
            1 <= r <= 3,
    {
        self.code() / 8 + 1
    }

    /// Returns the bytes taken by one element of this type.
    pub fn elem_size(self) -> (r: i32)
        ensures
            r == self.spec_elem_size(),
            1 <= r <= 24,
    {
        let d = self.depth();
        let bytes: i32 = if d <= 1 {
            1
        } else if d <= 3 {
            2
        } else if d <= 5 {
            4
        } else {
            8
        };
        let c = self.channels();
        assert(1 <= bytes * c <= 24) by (nonlinear_arith)
            requires
                1 <= bytes <= 8,
                1 <= c <= 3,
        ;
        bytes * c
    }

    /// Returns the bytes taken by a `rows` x `cols` array of this type, or
    /// `None` where a dimension is negative or the count does not fit `usize`.
    pub fn data_len(self, rows: i32, cols: i32) -> (r: Option<usize>)
        ensures
            r == (if rows >= 0 && cols >= 0 && self.spec_data_len(rows as int, cols as int)
                <= usize::MAX {
                Some(self.spec_data_len(rows as int, cols as int) as usize)
            } else {
                None::<usize>
            }),
    {
        if rows < 0 || cols < 0 {
            return None;
        }
        let e = self.elem_size() as usize;
        let r = rows as usize;
        let c = cols as usize;
        match r.checked_mul(c) {
            None => {
                assert(self.spec_data_len(rows as int, cols as int) > usize::MAX) by (
                nonlinear_arith)
                    requires
                        r * c > usize::MAX,
                        e >= 1,
                        self.spec_data_len(rows as int, cols as int) == r * c * e,
                ;
                None
            },
            Some(rc) => rc.checked_mul(e),
        }
    }
}

/// A point with integer coordinates.
#[derive(Debug, Clone, Copy, PartialEq, Eq, Hash, Structural)]
pub struct Point {
    /// Horizontal coordinate.
    pub x: i32,
    /// Vertical coordinate.
    pub y: i32,
}

/// A size: width and height.
#[derive(Debug, Clone, Copy, PartialEq, Eq, Hash, Structural)]
pub struct Size {
    /// Width.
    pub width: i32,
    /// Height.
    pub height: i32,
}

/// An upright rectangle: top-left corner, width and height.
#[derive(Debug, Clone, Copy, PartialEq, Eq, Hash, Structural)]
pub struct Rect {
    /// Horizontal coordinate of the top-left corner.
    pub x: i32,
    /// Vertical coordinate of the top-left corner.
    pub y: i32,
    /// Width.
    pub width: i32,
    /// Height.
    pub height: i32,
}

/// Number of elements that a native (pointer, length) result describes: a
/// length of zero or less describes none, so no pointer is read.
pub open spec fn spec_element_count(length: i32) -> nat {
    if length <= 0 {
        0
    } else {
        length as nat
    }
}

/// Length field of a descriptor for a run of `len` elements, where it fits
/// the native `i32`.
pub open spec fn spec_descriptor_length(len: nat) -> Option<i32> {
    if len <= i32::MAX {
        Some(len as i32)
    } else {
        None
    }
}

/// Returns how many elements a native (pointer, length) result describes.
pub fn element_count(length: i32) -> (r: usize)
    ensures
        r as nat == spec_element_count(length),
{
    if length <= 0 {
        0
    } else {
        length as usize
    }
}

/// Returns the length field of a descriptor for a run of `len` elements, or
/// `None` where `len` does not fit the native `i32`.
pub fn descriptor_length(len: usize) -> (r: Option<i32>)
    ensures
        r == spec_descriptor_length(len as nat),
{
    if len <= i32::MAX as usize {
        Some(len as i32)
    } else {
        None
    }
}

/// Copies each element of a native struct array into an owned vector, so
/// that nothing refers to the native buffer afterwards.
pub fn drain<T: Copy>(items: &[T]) -> (r: Vec<T>)
    ensures
        r@ == items@,
{
    let mut out: Vec<T> = Vec::with_capacity(items.len());
    let mut i: usize = 0;
    while i < items.len()
        invariant
            i <= items@.len(),
            out@ == items@.subrange(0, i as int),
        decreases items@.len() - i,
    {
        out.push(items[i]);
        i += 1;
        assert(out@ == items@.subrange(0, i as int));
    }
    assert(out@ == items@);
    out
}

/// Copies the bytes of a native buffer into a newly allocated vector; the
/// native buffer stays with its own allocator.
pub fn from_byte_array(data: &[u8]) -> (r: Vec<u8>)
    ensures
        r@ == data@,
{
    drain(data)
}

/// Bytes handed to the native side and copied back come out unchanged: the
/// descriptor of a buffer that fits carries its whole length, and copying
/// that many bytes back gives the buffer again.
pub proof fn lemma_bytes_round_trip(b: Seq<u8>)
    requires
        b.len() <= i32::MAX,
    ensures
        spec_descriptor_length(b.len()) matches Some(n) && spec_element_count(n) == b.len()
            && b.subrange(0, spec_element_count(n) as int) == b,
{
    assert(b.subrange(0, b.len() as int) =~= b);
}

} // verus!
