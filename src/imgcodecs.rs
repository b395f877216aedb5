//! Image file reading and writing: decode and encode options.
use crate::{decoded, CvError};
use vstd::prelude::*;

verus! {

/// How an image file is decoded.
#[derive(Debug, Clone, Copy, PartialEq, Eq, Hash, Structural)]
pub enum ImageReadMode {
    /// Return the loaded image as is (with alpha channel).
    Unchanged,
    /// Always convert the image to single channel grayscale.
    Grayscale,
    /// Always convert the image to 3 channel BGR color.
    Color,
    /// Return 16-bit/32-bit images when the input has that depth, else 8-bit.
    AnyDepth,
    /// Read the image in any possible color format.
    AnyColor,
    /// Use the gdal driver to load the image.
    LoadGdal,
    /// Single channel grayscale, size reduced 1/2.
    ReducedGrayscale2,
    /// 3 channel BGR color, size reduced 1/2.
    ReducedColor2,
    /// Single channel grayscale, size reduced 1/4.
    ReducedGrayscale4,
    /// 3 channel BGR color, size reduced 1/4.
    ReducedColor4,
    /// Single channel grayscale, size reduced 1/8.
    ReducedGrayscale8,
    /// 3 channel BGR color, size reduced 1/8.
    ReducedColor8,
}

impl ImageReadMode {
    /// The native integer code of this variant.
    pub open spec fn spec_code(self) -> i32 {
        match self {
            ImageReadMode::Unchanged => -1i32,
            ImageReadMode::Grayscale => 0,
            ImageReadMode::Color => 1,
            ImageReadMode::AnyDepth => 2,
            ImageReadMode::AnyColor => 4,
            ImageReadMode::LoadGdal => 8,
            ImageReadMode::ReducedGrayscale2 => 16,
            ImageReadMode::ReducedColor2 => 17,
            ImageReadMode::ReducedGrayscale4 => 32,
            ImageReadMode::ReducedColor4 => 33,
            ImageReadMode::ReducedGrayscale8 => 64,
            ImageReadMode::ReducedColor8 => 65,
        }
    }

    /// The variant whose native code is `code`, if any.
    pub open spec fn spec_from_code(code: i32) -> Option<ImageReadMode> {
        match code {
            -1 => Some(ImageReadMode::Unchanged),
            0 => Some(ImageReadMode::Grayscale),
            1 => Some(ImageReadMode::Color),
            2 => Some(ImageReadMode::AnyDepth),
            4 => Some(ImageReadMode::AnyColor),
            8 => Some(ImageReadMode::LoadGdal),
            16 => Some(ImageReadMode::ReducedGrayscale2),
            17 => Some(ImageReadMode::ReducedColor2),
            32 => Some(ImageReadMode::ReducedGrayscale4),
            33 => Some(ImageReadMode::ReducedColor4),
            64 => Some(ImageReadMode::ReducedGrayscale8),
            65 => Some(ImageReadMode::ReducedColor8),
            _ => None,
        }
    }

    /// Returns the native integer code of this variant.
    pub fn code(self) -> (r: i32)
        ensures
            r == self.spec_code(),
    {
        match self {
            ImageReadMode::Unchanged => -1i32,
            ImageReadMode::Grayscale => 0,
            ImageReadMode::Color => 1,
            ImageReadMode::AnyDepth => 2,
            ImageReadMode::AnyColor => 4,
            ImageReadMode::LoadGdal => 8,
            ImageReadMode::ReducedGrayscale2 => 16,
            ImageReadMode::ReducedColor2 => 17,
            ImageReadMode::ReducedGrayscale4 => 32,
            ImageReadMode::ReducedColor4 => 33,
            ImageReadMode::ReducedGrayscale8 => 64,
            ImageReadMode::ReducedColor8 => 65,
        }
    }

    /// Decodes a native integer code; a code that no variant has is an
    /// error that carries the code.
    pub fn from_code(code: i32) -> (r: Result<ImageReadMode, CvError>)
        ensures
            r == decoded(ImageReadMode::spec_from_code(code), code),
    {
        match code {
            -1 => Ok(ImageReadMode::Unchanged),
            0 => Ok(ImageReadMode::Grayscale),
            1 => Ok(ImageReadMode::Color),
            2 => Ok(ImageReadMode::AnyDepth),
            4 => Ok(ImageReadMode::AnyColor),
            8 => Ok(ImageReadMode::LoadGdal),
            16 => Ok(ImageReadMode::ReducedGrayscale2),
            17 => Ok(ImageReadMode::ReducedColor2),
            32 => Ok(ImageReadMode::ReducedGrayscale4),
            33 => Ok(ImageReadMode::ReducedColor4),
            64 => Ok(ImageReadMode::ReducedGrayscale8),
            65 => Ok(ImageReadMode::ReducedColor8),
            _ => Err(CvError::EnumFromPrimitiveConversionError { value: code }),
        }
    }

    /// Decoding the code of a variant gives that variant back, and a code
    /// decodes only to the variant whose code it is: every other code is
    /// rejected.
    pub proof fn lemma_code_round_trip(v: ImageReadMode, code: i32)
        ensures
            ImageReadMode::spec_from_code(v.spec_code()) == Some(v),
            ImageReadMode::spec_from_code(code) matches Some(w) ==> w.spec_code() == code,
            ImageReadMode::spec_from_code(code) is None ==> forall|u: ImageReadMode| u.spec_code() != code,
    {
        assert forall|u: ImageReadMode| ImageReadMode::spec_from_code(#[trigger] u.spec_code()) == Some(u) by {
            match u {
                ImageReadMode::Unchanged => {},
                ImageReadMode::Grayscale => {},
                ImageReadMode::Color => {},
                ImageReadMode::AnyDepth => {},
                ImageReadMode::AnyColor => {},
                ImageReadMode::LoadGdal => {},
                ImageReadMode::ReducedGrayscale2 => {},
                ImageReadMode::ReducedColor2 => {},
                ImageReadMode::ReducedGrayscale4 => {},
                ImageReadMode::ReducedColor4 => {},
                ImageReadMode::ReducedGrayscale8 => {},
                ImageReadMode::ReducedColor8 => {},
            }
        }
    }
}

/// Parameter keys of image encoding.
#[derive(Debug, Clone, Copy, PartialEq, Eq, Hash, Structural)]
pub enum ImageWriteMode {
    /// JPEG quality from 0 to 100 (default 95).
    JpegQuality,
    /// Progressive JPEG, 0 or 1.
    JpegProgressive,
    /// Optimized JPEG, 0 or 1.
    JpegOptimize,
    /// JPEG restart interval, 0 - 65535.
    JpegRstInterval,
    /// Separate luma quality level, 0 - 100.
    JpegLumaQuality,
    /// Separate chroma quality level, 0 - 100.
    JpegChromaQuality,
    /// PNG compression level from 0 to 9 (default 3).
    PngCompression,
    /// PNG strategy, one of the PNG flags.
    PngStrategy,
    /// Binary level PNG, 0 or 1.
    PngBilevel,
    /// Binary format flag for PPM, PGM or PBM, 0 or 1.
    PxmBinary,
    /// WEBP quality from 1 to 100.
    WebpQuality,
    /// TUPLETYPE field of the PAM format.
    PamTupletype,
}

impl ImageWriteMode {
    /// The native integer code of this variant.
    pub open spec fn spec_code(self) -> i32 {
        match self {
            ImageWriteMode::JpegQuality => 1,
            ImageWriteMode::JpegProgressive => 2,
            ImageWriteMode::JpegOptimize => 3,
            ImageWriteMode::JpegRstInterval => 4,
            ImageWriteMode::JpegLumaQuality => 5,
            ImageWriteMode::JpegChromaQuality => 6,
            ImageWriteMode::PngCompression => 16,
            ImageWriteMode::PngStrategy => 17,
            ImageWriteMode::PngBilevel => 18,
            ImageWriteMode::PxmBinary => 32,
            ImageWriteMode::WebpQuality => 64,
            ImageWriteMode::PamTupletype => 128,
        }
    }

    /// The variant whose native code is `code`, if any.
    pub open spec fn spec_from_code(code: i32) -> Option<ImageWriteMode> {
        match code {
            1 => Some(ImageWriteMode::JpegQuality),
            2 => Some(ImageWriteMode::JpegProgressive),
            3 => Some(ImageWriteMode::JpegOptimize),
            4 => Some(ImageWriteMode::JpegRstInterval),
            5 => Some(ImageWriteMode::JpegLumaQuality),
            6 => Some(ImageWriteMode::JpegChromaQuality),
            16 => Some(ImageWriteMode::PngCompression),
            17 => Some(ImageWriteMode::PngStrategy),
            18 => Some(ImageWriteMode::PngBilevel),
            32 => Some(ImageWriteMode::PxmBinary),
            64 => Some(ImageWriteMode::WebpQuality),
            128 => Some(ImageWriteMode::PamTupletype),
            _ => None,
        }
    }

    /// Returns the native integer code of this variant.
    pub fn code(self) -> (r: i32)
        ensures
            r == self.spec_code(),
    {
        match self {
            ImageWriteMode::JpegQuality => 1,
            ImageWriteMode::JpegProgressive => 2,
            ImageWriteMode::JpegOptimize => 3,
            ImageWriteMode::JpegRstInterval => 4,
            ImageWriteMode::JpegLumaQuality => 5,
            ImageWriteMode::JpegChromaQuality => 6,
            ImageWriteMode::PngCompression => 16,
            ImageWriteMode::PngStrategy => 17,
            ImageWriteMode::PngBilevel => 18,
            ImageWriteMode::PxmBinary => 32,
            ImageWriteMode::WebpQuality => 64,
            ImageWriteMode::PamTupletype => 128,
        }
    }

    /// Decodes a native integer code; a code that no variant has is an
    /// error that carries the code.
    pub fn from_code(code: i32) -> (r: Result<ImageWriteMode, CvError>)
        ensures
            r == decoded(ImageWriteMode::spec_from_code(code), code),
    {
        match code {
            1 => Ok(ImageWriteMode::JpegQuality),
            2 => Ok(ImageWriteMode::JpegProgressive),
            3 => Ok(ImageWriteMode::JpegOptimize),
            4 => Ok(ImageWriteMode::JpegRstInterval),
            5 => Ok(ImageWriteMode::JpegLumaQuality),
            6 => Ok(ImageWriteMode::JpegChromaQuality),
            16 => Ok(ImageWriteMode::PngCompression),
            17 => Ok(ImageWriteMode::PngStrategy),
            18 => Ok(ImageWriteMode::PngBilevel),
            32 => Ok(ImageWriteMode::PxmBinary),
            64 => Ok(ImageWriteMode::WebpQuality),
            128 => Ok(ImageWriteMode::PamTupletype),
            _ => Err(CvError::EnumFromPrimitiveConversionError { value: code }),
        }
    }

    /// Decoding the code of a variant gives that variant back, and a code
    /// decodes only to the variant whose code it is: every other code is
    /// rejected.
    pub proof fn lemma_code_round_trip(v: ImageWriteMode, code: i32)
        ensures
            ImageWriteMode::spec_from_code(v.spec_code()) == Some(v),
            ImageWriteMode::spec_from_code(code) matches Some(w) ==> w.spec_code() == code,
            ImageWriteMode::spec_from_code(code) is None ==> forall|u: ImageWriteMode| u.spec_code() != code,
    {
        assert forall|u: ImageWriteMode| ImageWriteMode::spec_from_code(#[trigger] u.spec_code()) == Some(u) by {
            match u {
                ImageWriteMode::JpegQuality => {},
                ImageWriteMode::JpegProgressive => {},
                ImageWriteMode::JpegOptimize => {},
                ImageWriteMode::JpegRstInterval => {},
                ImageWriteMode::JpegLumaQuality => {},
                ImageWriteMode::JpegChromaQuality => {},
                ImageWriteMode::PngCompression => {},
                ImageWriteMode::PngStrategy => {},
                ImageWriteMode::PngBilevel => {},
                ImageWriteMode::PxmBinary => {},
                ImageWriteMode::WebpQuality => {},
                ImageWriteMode::PamTupletype => {},
            }
        }
    }
}

/// PNG compression strategies.
#[derive(Debug, Clone, Copy, PartialEq, Eq, Hash, Structural)]
pub enum ImageWritePngFlag {
    /// For normal data.
    Default,
    /// For data produced by a filter (or predictor).
    Filtered,
    /// Force Huffman encoding only (no string match).
    HuffmanOnly,
    /// Limit match distances to one (run-length encoding).
    RLE,
    /// Prevent the use of dynamic Huffman codes.
    Fixed,
}

impl ImageWritePngFlag {
    /// The native integer code of this variant.
    pub open spec fn spec_code(self) -> i32 {
        match self {
            ImageWritePngFlag::Default => 0,
            ImageWritePngFlag::Filtered => 1,
            ImageWritePngFlag::HuffmanOnly => 2,
            ImageWritePngFlag::RLE => 3,
            ImageWritePngFlag::Fixed => 4,
        }
    }

    /// The variant whose native code is `code`, if any.
    pub open spec fn spec_from_code(code: i32) -> Option<ImageWritePngFlag> {
        match code {
            0 => Some(ImageWritePngFlag::Default),
            1 => Some(ImageWritePngFlag::Filtered),
            2 => Some(ImageWritePngFlag::HuffmanOnly),
            3 => Some(ImageWritePngFlag::RLE),
            4 => Some(ImageWritePngFlag::Fixed),
            _ => None,
        }
    }

    /// Returns the native integer code of this variant.
    pub fn code(self) -> (r: i32)
        ensures
            r == self.spec_code(),
    {
        match self {
            ImageWritePngFlag::Default => 0,
            ImageWritePngFlag::Filtered => 1,
            ImageWritePngFlag::HuffmanOnly => 2,
            ImageWritePngFlag::RLE => 3,
            ImageWritePngFlag::Fixed => 4,
        }
    }

    /// Decodes a native integer code; a code that no variant has is an
    /// error that carries the code.
    pub fn from_code(code: i32) -> (r: Result<ImageWritePngFlag, CvError>)
        ensures
            r == decoded(ImageWritePngFlag::spec_from_code(code), code),
    {
        match code {
            0 => Ok(ImageWritePngFlag::Default),
            1 => Ok(ImageWritePngFlag::Filtered),
            2 => Ok(ImageWritePngFlag::HuffmanOnly),
            3 => Ok(ImageWritePngFlag::RLE),
            4 => Ok(ImageWritePngFlag::Fixed),
            _ => Err(CvError::EnumFromPrimitiveConversionError { value: code }),
        }
    }

    /// Decoding the code of a variant gives that variant back, and a code
    /// decodes only to the variant whose code it is: every other code is
    /// rejected.
    pub proof fn lemma_code_round_trip(v: ImageWritePngFlag, code: i32)
        ensures
            ImageWritePngFlag::spec_from_code(v.spec_code()) == Some(v),
            ImageWritePngFlag::spec_from_code(code) matches Some(w) ==> w.spec_code() == code,
            ImageWritePngFlag::spec_from_code(code) is None ==> forall|u: ImageWritePngFlag| u.spec_code() != code,
    {
        assert forall|u: ImageWritePngFlag| ImageWritePngFlag::spec_from_code(#[trigger] u.spec_code()) == Some(u) by {
            match u {
                ImageWritePngFlag::Default => {},
                ImageWritePngFlag::Filtered => {},
                ImageWritePngFlag::HuffmanOnly => {},
                ImageWritePngFlag::RLE => {},
                ImageWritePngFlag::Fixed => {},
            }
        }
    }
}

} // verus!
