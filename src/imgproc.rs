//! Image processing: conversion codes and operation modes.
use crate::{decoded, CvError};
use vstd::prelude::*;

verus! {

/// Color space conversion code; the name reads source `2` target.
#[allow(non_camel_case_types)]
#[derive(Debug, Clone, Copy, PartialEq, Eq, Hash, Structural)]
pub enum ColorConversion {
    BGR2BGRA,
    BGRA2BGR,
    BGR2RGBA,
    RGBA2BGR,
    BGR2RGB,
    BGRA2RGBA,
    BGR2GRAY,
    RGB2GRAY,
    GRAY2BGR,
    GRAY2BGRA,
    BGRA2GRAY,
    RGBA2GRAY,
    BGR2BGR565,
    RGB2BGR565,
    BGR5652BGR,
    BGR5652RGB,
    BGRA2BGR565,
    RGBA2BGR565,
    BGR5652BGRA,
    BGR5652RGBA,
    GRAY2BGR565,
    BGR5652GRAY,
    BGR2BGR555,
    RGB2BGR555,
    BGR5552BGR,
    BGR5552RGB,
    BGRA2BGR555,
    RGBA2BGR555,
    BGR5552BGRA,
    BGR5552RGBA,
    GRAY2BGR555,
    BGR5552GRAY,
    BGR2XYZ,
    RGB2XYZ,
    XYZ2BGR,
    XYZ2RGB,
    BGR2YCrCb,
    RGB2YCrCb,
    YCrCb2BGR,
    YCrCb2RGB,
    BGR2HSV,
    RGB2HSV,
    BGR2Lab,
    RGB2Lab,
    BGR2Luv,
    RGB2Luv,
    BGR2HLS,
    RGB2HLS,
    HSV2BGR,
    HSV2RGB,
    Lab2BGR,
    Lab2RGB,
    Luv2BGR,
    Luv2RGB,
    HLS2BGR,
    HLS2RGB,
    BGR2HSV_FULL,
    RGB2HSV_FULL,
    BGR2HLS_FULL,
    RGB2HLS_FULL,
    HSV2BGR_FULL,
    HSV2RGB_FULL,
    HLS2BGR_FULL,
    HLS2RGB_FULL,
    LBGR2Lab,
    LRGB2Lab,
    LBGR2Luv,
    LRGB2Luv,
    Lab2LBGR,
    Lab2LRGB,
    Luv2LBGR,
    Luv2LRGB,
    BGR2YUV,
    RGB2YUV,
    YUV2BGR,
    YUV2RGB,
    YUV2RGB_NV12,
    YUV2BGR_NV12,
    YUV2RGB_NV21,
    YUV2BGR_NV21,
    YUV2RGBA_NV12,
    YUV2BGRA_NV12,
    YUV2RGBA_NV21,
    YUV2BGRA_NV21,
    YUV2RGB_YV12,
    YUV2BGR_YV12,
    YUV2RGB_IYUV,
    YUV2BGR_IYUV,
    YUV2RGBA_YV12,
    YUV2BGRA_YV12,
    YUV2RGBA_IYUV,
    YUV2BGRA_IYUV,
    YUV2GRAY_420,
    YUV2RGB_UYVY,
    YUV2BGR_UYVY,
    YUV2RGBA_UYVY,
    YUV2BGRA_UYVY,
    YUV2RGB_YUY2,
    YUV2BGR_YUY2,
    YUV2RGB_YVYU,
    YUV2BGR_YVYU,
    YUV2RGBA_YUY2,
    YUV2BGRA_YUY2,
    YUV2RGBA_YVYU,
    YUV2BGRA_YVYU,
    YUV2GRAY_UYVY,
    YUV2GRAY_YUY2,
    RGBA2mRGBA,
    mRGBA2RGBA,
    RGB2YUV_I420,
    BGR2YUV_I420,
    RGBA2YUV_I420,
    BGRA2YUV_I420,
    RGB2YUV_YV12,
    BGR2YUV_YV12,
    RGBA2YUV_YV12,
    BGRA2YUV_YV12,
    BayerBG2BGR,
    BayerGB2BGR,
    BayerRG2BGR,
    BayerGR2BGR,
    BayerBG2GRAY,
    BayerGB2GRAY,
    BayerRG2GRAY,
    BayerGR2GRAY,
    BayerBG2BGR_VNG,
    BayerGB2BGR_VNG,
    BayerRG2BGR_VNG,
    BayerGR2BGR_VNG,
    BayerBG2BGR_EA,
    BayerGB2BGR_EA,
    BayerRG2BGR_EA,
    BayerGR2BGR_EA,
    COLORCVT_MAX,
}

impl ColorConversion {
    /// The native integer code of this variant.
    pub open spec fn spec_code(self) -> i32 {
        match self {
            ColorConversion::BGR2BGRA => 0,
            ColorConversion::BGRA2BGR => 1,
            ColorConversion::BGR2RGBA => 2,
            ColorConversion::RGBA2BGR => 3,
            ColorConversion::BGR2RGB => 4,
            ColorConversion::BGRA2RGBA => 5,
            ColorConversion::BGR2GRAY => 6,
            ColorConversion::RGB2GRAY => 7,
            ColorConversion::GRAY2BGR => 8,
            ColorConversion::GRAY2BGRA => 9,
            ColorConversion::BGRA2GRAY => 10,
            ColorConversion::RGBA2GRAY => 11,
            ColorConversion::BGR2BGR565 => 12,
            ColorConversion::RGB2BGR565 => 13,
            ColorConversion::BGR5652BGR => 14,
            ColorConversion::BGR5652RGB => 15,
            ColorConversion::BGRA2BGR565 => 16,
            ColorConversion::RGBA2BGR565 => 17,
            ColorConversion::BGR5652BGRA => 18,
            ColorConversion::BGR5652RGBA => 19,
            ColorConversion::GRAY2BGR565 => 20,
            ColorConversion::BGR5652GRAY => 21,
            ColorConversion::BGR2BGR555 => 22,
            ColorConversion::RGB2BGR555 => 23,
            ColorConversion::BGR5552BGR => 24,
            ColorConversion::BGR5552RGB => 25,
            ColorConversion::BGRA2BGR555 => 26,
            ColorConversion::RGBA2BGR555 => 27,
            ColorConversion::BGR5552BGRA => 28,
            ColorConversion::BGR5552RGBA => 29,
            ColorConversion::GRAY2BGR555 => 30,
            ColorConversion::BGR5552GRAY => 31,
            ColorConversion::BGR2XYZ => 32,
            ColorConversion::RGB2XYZ => 33,
            ColorConversion::XYZ2BGR => 34,
            ColorConversion::XYZ2RGB => 35,
            ColorConversion::BGR2YCrCb => 36,
            ColorConversion::RGB2YCrCb => 37,
            ColorConversion::YCrCb2BGR => 38,
            ColorConversion::YCrCb2RGB => 39,
            ColorConversion::BGR2HSV => 40,
            ColorConversion::RGB2HSV => 41,
            ColorConversion::BGR2Lab => 44,
            ColorConversion::RGB2Lab => 45,
            ColorConversion::BGR2Luv => 50,
            ColorConversion::RGB2Luv => 51,
            ColorConversion::BGR2HLS => 52,
            ColorConversion::RGB2HLS => 53,
            ColorConversion::HSV2BGR => 54,
            ColorConversion::HSV2RGB => 55,
            ColorConversion::Lab2BGR => 56,
            ColorConversion::Lab2RGB => 57,
            ColorConversion::Luv2BGR => 58,
            ColorConversion::Luv2RGB => 59,
            ColorConversion::HLS2BGR => 60,
            ColorConversion::HLS2RGB => 61,
            ColorConversion::BGR2HSV_FULL => 66,
            ColorConversion::RGB2HSV_FULL => 67,
            ColorConversion::BGR2HLS_FULL => 68,
            ColorConversion::RGB2HLS_FULL => 69,
            ColorConversion::HSV2BGR_FULL => 70,
            ColorConversion::HSV2RGB_FULL => 71,
            ColorConversion::HLS2BGR_FULL => 72,
            ColorConversion::HLS2RGB_FULL => 73,
            ColorConversion::LBGR2Lab => 74,
            ColorConversion::LRGB2Lab => 75,
            ColorConversion::LBGR2Luv => 76,
            ColorConversion::LRGB2Luv => 77,
            ColorConversion::Lab2LBGR => 78,
            ColorConversion::Lab2LRGB => 79,
            ColorConversion::Luv2LBGR => 80,
            ColorConversion::Luv2LRGB => 81,
            ColorConversion::BGR2YUV => 82,
            ColorConversion::RGB2YUV => 83,
            ColorConversion::YUV2BGR => 84,
            ColorConversion::YUV2RGB => 85,
            ColorConversion::YUV2RGB_NV12 => 90,
            ColorConversion::YUV2BGR_NV12 => 91,
            ColorConversion::YUV2RGB_NV21 => 92,
            ColorConversion::YUV2BGR_NV21 => 93,
            ColorConversion::YUV2RGBA_NV12 => 94,
            ColorConversion::YUV2BGRA_NV12 => 95,
            ColorConversion::YUV2RGBA_NV21 => 96,
            ColorConversion::YUV2BGRA_NV21 => 97,
            ColorConversion::YUV2RGB_YV12 => 98,
            ColorConversion::YUV2BGR_YV12 => 99,
            ColorConversion::YUV2RGB_IYUV => 100,
            ColorConversion::YUV2BGR_IYUV => 101,
            ColorConversion::YUV2RGBA_YV12 => 102,
            ColorConversion::YUV2BGRA_YV12 => 103,
            ColorConversion::YUV2RGBA_IYUV => 104,
            ColorConversion::YUV2BGRA_IYUV => 105,
            ColorConversion::YUV2GRAY_420 => 106,
            ColorConversion::YUV2RGB_UYVY => 107,
            ColorConversion::YUV2BGR_UYVY => 108,
            ColorConversion::YUV2RGBA_UYVY => 111,
            ColorConversion::YUV2BGRA_UYVY => 112,
            ColorConversion::YUV2RGB_YUY2 => 115,
            ColorConversion::YUV2BGR_YUY2 => 116,
            ColorConversion::YUV2RGB_YVYU => 117,
            ColorConversion::YUV2BGR_YVYU => 118,
            ColorConversion::YUV2RGBA_YUY2 => 119,
            ColorConversion::YUV2BGRA_YUY2 => 120,
            ColorConversion::YUV2RGBA_YVYU => 121,
            ColorConversion::YUV2BGRA_YVYU => 122,
            ColorConversion::YUV2GRAY_UYVY => 123,
            ColorConversion::YUV2GRAY_YUY2 => 124,
            ColorConversion::RGBA2mRGBA => 125,
            ColorConversion::mRGBA2RGBA => 126,
            ColorConversion::RGB2YUV_I420 => 127,
            ColorConversion::BGR2YUV_I420 => 128,
            ColorConversion::RGBA2YUV_I420 => 129,
            ColorConversion::BGRA2YUV_I420 => 130,
            ColorConversion::RGB2YUV_YV12 => 131,
            ColorConversion::BGR2YUV_YV12 => 132,
            ColorConversion::RGBA2YUV_YV12 => 133,
            ColorConversion::BGRA2YUV_YV12 => 134,
            ColorConversion::BayerBG2BGR => 46,
            ColorConversion::BayerGB2BGR => 47,
            ColorConversion::BayerRG2BGR => 48,
            ColorConversion::BayerGR2BGR => 49,
            ColorConversion::BayerBG2GRAY => 86,
            ColorConversion::BayerGB2GRAY => 87,
            ColorConversion::BayerRG2GRAY => 88,
            ColorConversion::BayerGR2GRAY => 89,
            ColorConversion::BayerBG2BGR_VNG => 62,
            ColorConversion::BayerGB2BGR_VNG => 63,
            ColorConversion::BayerRG2BGR_VNG => 64,
            ColorConversion::BayerGR2BGR_VNG => 65,
            ColorConversion::BayerBG2BGR_EA => 135,
            ColorConversion::BayerGB2BGR_EA => 136,
            ColorConversion::BayerRG2BGR_EA => 137,
            ColorConversion::BayerGR2BGR_EA => 138,
            ColorConversion::COLORCVT_MAX => 139,
        }
    }

    /// The variant whose native code is `code`, if any.
    pub open spec fn spec_from_code(code: i32) -> Option<ColorConversion> {
        match code {
            0 => Some(ColorConversion::BGR2BGRA),
            1 => Some(ColorConversion::BGRA2BGR),
            2 => Some(ColorConversion::BGR2RGBA),
            3 => Some(ColorConversion::RGBA2BGR),
            4 => Some(ColorConversion::BGR2RGB),
            5 => Some(ColorConversion::BGRA2RGBA),
            6 => Some(ColorConversion::BGR2GRAY),
            7 => Some(ColorConversion::RGB2GRAY),
            8 => Some(ColorConversion::GRAY2BGR),
            9 => Some(ColorConversion::GRAY2BGRA),
            10 => Some(ColorConversion::BGRA2GRAY),
            11 => Some(ColorConversion::RGBA2GRAY),
            12 => Some(ColorConversion::BGR2BGR565),
            13 => Some(ColorConversion::RGB2BGR565),
            14 => Some(ColorConversion::BGR5652BGR),
            15 => Some(ColorConversion::BGR5652RGB),
            16 => Some(ColorConversion::BGRA2BGR565),
            17 => Some(ColorConversion::RGBA2BGR565),
            18 => Some(ColorConversion::BGR5652BGRA),
            19 => Some(ColorConversion::BGR5652RGBA),
            20 => Some(ColorConversion::GRAY2BGR565),
            21 => Some(ColorConversion::BGR5652GRAY),
            22 => Some(ColorConversion::BGR2BGR555),
            23 => Some(ColorConversion::RGB2BGR555),
            24 => Some(ColorConversion::BGR5552BGR),
            25 => Some(ColorConversion::BGR5552RGB),
            26 => Some(ColorConversion::BGRA2BGR555),
            27 => Some(ColorConversion::RGBA2BGR555),
            28 => Some(ColorConversion::BGR5552BGRA),
            29 => Some(ColorConversion::BGR5552RGBA),
            30 => Some(ColorConversion::GRAY2BGR555),
            31 => Some(ColorConversion::BGR5552GRAY),
            32 => Some(ColorConversion::BGR2XYZ),
            33 => Some(ColorConversion::RGB2XYZ),
            34 => Some(ColorConversion::XYZ2BGR),
            35 => Some(ColorConversion::XYZ2RGB),
            36 => Some(ColorConversion::BGR2YCrCb),
            37 => Some(ColorConversion::RGB2YCrCb),
            38 => Some(ColorConversion::YCrCb2BGR),
            39 => Some(ColorConversion::YCrCb2RGB),
            40 => Some(ColorConversion::BGR2HSV),
            41 => Some(ColorConversion::RGB2HSV),
            44 => Some(ColorConversion::BGR2Lab),
            45 => Some(ColorConversion::RGB2Lab),
            46 => Some(ColorConversion::BayerBG2BGR),
            47 => Some(ColorConversion::BayerGB2BGR),
            48 => Some(ColorConversion::BayerRG2BGR),
            49 => Some(ColorConversion::BayerGR2BGR),
            50 => Some(ColorConversion::BGR2Luv),
            51 => Some(ColorConversion::RGB2Luv),
            52 => Some(ColorConversion::BGR2HLS),
            53 => Some(ColorConversion::RGB2HLS),
            54 => Some(ColorConversion::HSV2BGR),
            55 => Some(ColorConversion::HSV2RGB),
            56 => Some(ColorConversion::Lab2BGR),
            57 => Some(ColorConversion::Lab2RGB),
            58 => Some(ColorConversion::Luv2BGR),
            59 => Some(ColorConversion::Luv2RGB),
            60 => Some(ColorConversion::HLS2BGR),
            61 => Some(ColorConversion::HLS2RGB),
            62 => Some(ColorConversion::BayerBG2BGR_VNG),
            63 => Some(ColorConversion::BayerGB2BGR_VNG),
            64 => Some(ColorConversion::BayerRG2BGR_VNG),
            65 => Some(ColorConversion::BayerGR2BGR_VNG),
            66 => Some(ColorConversion::BGR2HSV_FULL),
            67 => Some(ColorConversion::RGB2HSV_FULL),
            68 => Some(ColorConversion::BGR2HLS_FULL),
            69 => Some(ColorConversion::RGB2HLS_FULL),
            70 => Some(ColorConversion::HSV2BGR_FULL),
            71 => Some(ColorConversion::HSV2RGB_FULL),
            72 => Some(ColorConversion::HLS2BGR_FULL),
            73 => Some(ColorConversion::HLS2RGB_FULL),
            74 => Some(ColorConversion::LBGR2Lab),
            75 => Some(ColorConversion::LRGB2Lab),
            76 => Some(ColorConversion::LBGR2Luv),
            77 => Some(ColorConversion::LRGB2Luv),
            78 => Some(ColorConversion::Lab2LBGR),
            79 => Some(ColorConversion::Lab2LRGB),
            80 => Some(ColorConversion::Luv2LBGR),
            81 => Some(ColorConversion::Luv2LRGB),
            82 => Some(ColorConversion::BGR2YUV),
            83 => Some(ColorConversion::RGB2YUV),
            84 => Some(ColorConversion::YUV2BGR),
            85 => Some(ColorConversion::YUV2RGB),
            86 => Some(ColorConversion::BayerBG2GRAY),
            87 => Some(ColorConversion::BayerGB2GRAY),
            88 => Some(ColorConversion::BayerRG2GRAY),
            89 => Some(ColorConversion::BayerGR2GRAY),
            90 => Some(ColorConversion::YUV2RGB_NV12),
            91 => Some(ColorConversion::YUV2BGR_NV12),
            92 => Some(ColorConversion::YUV2RGB_NV21),
            93 => Some(ColorConversion::YUV2BGR_NV21),
            94 => Some(ColorConversion::YUV2RGBA_NV12),
            95 => Some(ColorConversion::YUV2BGRA_NV12),
            96 => Some(ColorConversion::YUV2RGBA_NV21),
            97 => Some(ColorConversion::YUV2BGRA_NV21),
            98 => Some(ColorConversion::YUV2RGB_YV12),
            99 => Some(ColorConversion::YUV2BGR_YV12),
            100 => Some(ColorConversion::YUV2RGB_IYUV),
            101 => Some(ColorConversion::YUV2BGR_IYUV),
            102 => Some(ColorConversion::YUV2RGBA_YV12),
            103 => Some(ColorConversion::YUV2BGRA_YV12),
            104 => Some(ColorConversion::YUV2RGBA_IYUV),
            105 => Some(ColorConversion::YUV2BGRA_IYUV),
            106 => Some(ColorConversion::YUV2GRAY_420),
            107 => Some(ColorConversion::YUV2RGB_UYVY),
            108 => Some(ColorConversion::YUV2BGR_UYVY),
            111 => Some(ColorConversion::YUV2RGBA_UYVY),
            112 => Some(ColorConversion::YUV2BGRA_UYVY),
            115 => Some(ColorConversion::YUV2RGB_YUY2),
            116 => Some(ColorConversion::YUV2BGR_YUY2),
            117 => Some(ColorConversion::YUV2RGB_YVYU),
            118 => Some(ColorConversion::YUV2BGR_YVYU),
            119 => Some(ColorConversion::YUV2RGBA_YUY2),
            120 => Some(ColorConversion::YUV2BGRA_YUY2),
            121 => Some(ColorConversion::YUV2RGBA_YVYU),
            122 => Some(ColorConversion::YUV2BGRA_YVYU),
            123 => Some(ColorConversion::YUV2GRAY_UYVY),
            124 => Some(ColorConversion::YUV2GRAY_YUY2),
            125 => Some(ColorConversion::RGBA2mRGBA),
            126 => Some(ColorConversion::mRGBA2RGBA),
            127 => Some(ColorConversion::RGB2YUV_I420),
            128 => Some(ColorConversion::BGR2YUV_I420),
            129 => Some(ColorConversion::RGBA2YUV_I420),
            130 => Some(ColorConversion::BGRA2YUV_I420),
            131 => Some(ColorConversion::RGB2YUV_YV12),
            132 => Some(ColorConversion::BGR2YUV_YV12),
            133 => Some(ColorConversion::RGBA2YUV_YV12),
            134 => Some(ColorConversion::BGRA2YUV_YV12),
            135 => Some(ColorConversion::BayerBG2BGR_EA),
            136 => Some(ColorConversion::BayerGB2BGR_EA),
            137 => Some(ColorConversion::BayerRG2BGR_EA),
            138 => Some(ColorConversion::BayerGR2BGR_EA),
            139 => Some(ColorConversion::COLORCVT_MAX),
            _ => None,
        }
    }

    /// Returns the native integer code of this variant.
    pub fn code(self) -> (r: i32)
        ensures
            r == self.spec_code(),
    {
        match self {
            ColorConversion::BGR2BGRA => 0,
            ColorConversion::BGRA2BGR => 1,
            ColorConversion::BGR2RGBA => 2,
            ColorConversion::RGBA2BGR => 3,
            ColorConversion::BGR2RGB => 4,
            ColorConversion::BGRA2RGBA => 5,
            ColorConversion::BGR2GRAY => 6,
            ColorConversion::RGB2GRAY => 7,
            ColorConversion::GRAY2BGR => 8,
            ColorConversion::GRAY2BGRA => 9,
            ColorConversion::BGRA2GRAY => 10,
            ColorConversion::RGBA2GRAY => 11,
            ColorConversion::BGR2BGR565 => 12,
            ColorConversion::RGB2BGR565 => 13,
            ColorConversion::BGR5652BGR => 14,
            ColorConversion::BGR5652RGB => 15,
            ColorConversion::BGRA2BGR565 => 16,
            ColorConversion::RGBA2BGR565 => 17,
            ColorConversion::BGR5652BGRA => 18,
            ColorConversion::BGR5652RGBA => 19,
            ColorConversion::GRAY2BGR565 => 20,
            ColorConversion::BGR5652GRAY => 21,
            ColorConversion::BGR2BGR555 => 22,
            ColorConversion::RGB2BGR555 => 23,
            ColorConversion::BGR5552BGR => 24,
            ColorConversion::BGR5552RGB => 25,
            ColorConversion::BGRA2BGR555 => 26,
            ColorConversion::RGBA2BGR555 => 27,
            ColorConversion::BGR5552BGRA => 28,
            ColorConversion::BGR5552RGBA => 29,
            ColorConversion::GRAY2BGR555 => 30,
            ColorConversion::BGR5552GRAY => 31,
            ColorConversion::BGR2XYZ => 32,
            ColorConversion::RGB2XYZ => 33,
            ColorConversion::XYZ2BGR => 34,
            ColorConversion::XYZ2RGB => 35,
            ColorConversion::BGR2YCrCb => 36,
            ColorConversion::RGB2YCrCb => 37,
            ColorConversion::YCrCb2BGR => 38,
            ColorConversion::YCrCb2RGB => 39,
            ColorConversion::BGR2HSV => 40,
            ColorConversion::RGB2HSV => 41,
            ColorConversion::BGR2Lab => 44,
            ColorConversion::RGB2Lab => 45,
            ColorConversion::BGR2Luv => 50,
            ColorConversion::RGB2Luv => 51,
            ColorConversion::BGR2HLS => 52,
            ColorConversion::RGB2HLS => 53,
            ColorConversion::HSV2BGR => 54,
            ColorConversion::HSV2RGB => 55,
            ColorConversion::Lab2BGR => 56,
            ColorConversion::Lab2RGB => 57,
            ColorConversion::Luv2BGR => 58,
            ColorConversion::Luv2RGB => 59,
            ColorConversion::HLS2BGR => 60,
            ColorConversion::HLS2RGB => 61,
            ColorConversion::BGR2HSV_FULL => 66,
            ColorConversion::RGB2HSV_FULL => 67,
            ColorConversion::BGR2HLS_FULL => 68,
            ColorConversion::RGB2HLS_FULL => 69,
            ColorConversion::HSV2BGR_FULL => 70,
            ColorConversion::HSV2RGB_FULL => 71,
            ColorConversion::HLS2BGR_FULL => 72,
            ColorConversion::HLS2RGB_FULL => 73,
            ColorConversion::LBGR2Lab => 74,
            ColorConversion::LRGB2Lab => 75,
            ColorConversion::LBGR2Luv => 76,
            ColorConversion::LRGB2Luv => 77,
            ColorConversion::Lab2LBGR => 78,
            ColorConversion::Lab2LRGB => 79,
            ColorConversion::Luv2LBGR => 80,
            ColorConversion::Luv2LRGB => 81,
            ColorConversion::BGR2YUV => 82,
            ColorConversion::RGB2YUV => 83,
            ColorConversion::YUV2BGR => 84,
            ColorConversion::YUV2RGB => 85,
            ColorConversion::YUV2RGB_NV12 => 90,
            ColorConversion::YUV2BGR_NV12 => 91,
            ColorConversion::YUV2RGB_NV21 => 92,
            ColorConversion::YUV2BGR_NV21 => 93,
            ColorConversion::YUV2RGBA_NV12 => 94,
            ColorConversion::YUV2BGRA_NV12 => 95,
            ColorConversion::YUV2RGBA_NV21 => 96,
            ColorConversion::YUV2BGRA_NV21 => 97,
            ColorConversion::YUV2RGB_YV12 => 98,
            ColorConversion::YUV2BGR_YV12 => 99,
            ColorConversion::YUV2RGB_IYUV => 100,
            ColorConversion::YUV2BGR_IYUV => 101,
            ColorConversion::YUV2RGBA_YV12 => 102,
            ColorConversion::YUV2BGRA_YV12 => 103,
            ColorConversion::YUV2RGBA_IYUV => 104,
            ColorConversion::YUV2BGRA_IYUV => 105,
            ColorConversion::YUV2GRAY_420 => 106,
            ColorConversion::YUV2RGB_UYVY => 107,
            ColorConversion::YUV2BGR_UYVY => 108,
            ColorConversion::YUV2RGBA_UYVY => 111,
            ColorConversion::YUV2BGRA_UYVY => 112,
            ColorConversion::YUV2RGB_YUY2 => 115,
            ColorConversion::YUV2BGR_YUY2 => 116,
            ColorConversion::YUV2RGB_YVYU => 117,
            ColorConversion::YUV2BGR_YVYU => 118,
            ColorConversion::YUV2RGBA_YUY2 => 119,
            ColorConversion::YUV2BGRA_YUY2 => 120,
            ColorConversion::YUV2RGBA_YVYU => 121,
            ColorConversion::YUV2BGRA_YVYU => 122,
            ColorConversion::YUV2GRAY_UYVY => 123,
            ColorConversion::YUV2GRAY_YUY2 => 124,
            ColorConversion::RGBA2mRGBA => 125,
            ColorConversion::mRGBA2RGBA => 126,
            ColorConversion::RGB2YUV_I420 => 127,
            ColorConversion::BGR2YUV_I420 => 128,
            ColorConversion::RGBA2YUV_I420 => 129,
            ColorConversion::BGRA2YUV_I420 => 130,
            ColorConversion::RGB2YUV_YV12 => 131,
            ColorConversion::BGR2YUV_YV12 => 132,
            ColorConversion::RGBA2YUV_YV12 => 133,
            ColorConversion::BGRA2YUV_YV12 => 134,
            ColorConversion::BayerBG2BGR => 46,
            ColorConversion::BayerGB2BGR => 47,
            ColorConversion::BayerRG2BGR => 48,
            ColorConversion::BayerGR2BGR => 49,
            ColorConversion::BayerBG2GRAY => 86,
            ColorConversion::BayerGB2GRAY => 87,
            ColorConversion::BayerRG2GRAY => 88,
            ColorConversion::BayerGR2GRAY => 89,
            ColorConversion::BayerBG2BGR_VNG => 62,
            ColorConversion::BayerGB2BGR_VNG => 63,
            ColorConversion::BayerRG2BGR_VNG => 64,
            ColorConversion::BayerGR2BGR_VNG => 65,
            ColorConversion::BayerBG2BGR_EA => 135,
            ColorConversion::BayerGB2BGR_EA => 136,
            ColorConversion::BayerRG2BGR_EA => 137,
            ColorConversion::BayerGR2BGR_EA => 138,
            ColorConversion::COLORCVT_MAX => 139,
        }
    }

    /// Decodes a native integer code; a code that no variant has is an
    /// error that carries the code.
    pub fn from_code(code: i32) -> (r: Result<ColorConversion, CvError>)
        ensures
            r == decoded(ColorConversion::spec_from_code(code), code),
    {
        match code {
            0 => Ok(ColorConversion::BGR2BGRA),
            1 => Ok(ColorConversion::BGRA2BGR),
            2 => Ok(ColorConversion::BGR2RGBA),
            3 => Ok(ColorConversion::RGBA2BGR),
            4 => Ok(ColorConversion::BGR2RGB),
            5 => Ok(ColorConversion::BGRA2RGBA),
            6 => Ok(ColorConversion::BGR2GRAY),
            7 => Ok(ColorConversion::RGB2GRAY),
            8 => Ok(ColorConversion::GRAY2BGR),
            9 => Ok(ColorConversion::GRAY2BGRA),
            10 => Ok(ColorConversion::BGRA2GRAY),
            11 => Ok(ColorConversion::RGBA2GRAY),
            12 => Ok(ColorConversion::BGR2BGR565),
            13 => Ok(ColorConversion::RGB2BGR565),
            14 => Ok(ColorConversion::BGR5652BGR),
            15 => Ok(ColorConversion::BGR5652RGB),
            16 => Ok(ColorConversion::BGRA2BGR565),
            17 => Ok(ColorConversion::RGBA2BGR565),
            18 => Ok(ColorConversion::BGR5652BGRA),
            19 => Ok(ColorConversion::BGR5652RGBA),
            20 => Ok(ColorConversion::GRAY2BGR565),
            21 => Ok(ColorConversion::BGR5652GRAY),
            22 => Ok(ColorConversion::BGR2BGR555),
            23 => Ok(ColorConversion::RGB2BGR555),
            24 => Ok(ColorConversion::BGR5552BGR),
            25 => Ok(ColorConversion::BGR5552RGB),
            26 => Ok(ColorConversion::BGRA2BGR555),
            27 => Ok(ColorConversion::RGBA2BGR555),
            28 => Ok(ColorConversion::BGR5552BGRA),
            29 => Ok(ColorConversion::BGR5552RGBA),
            30 => Ok(ColorConversion::GRAY2BGR555),
            31 => Ok(ColorConversion::BGR5552GRAY),
            32 => Ok(ColorConversion::BGR2XYZ),
            33 => Ok(ColorConversion::RGB2XYZ),
            34 => Ok(ColorConversion::XYZ2BGR),
            35 => Ok(ColorConversion::XYZ2RGB),
            36 => Ok(ColorConversion::BGR2YCrCb),
            37 => Ok(ColorConversion::RGB2YCrCb),
            38 => Ok(ColorConversion::YCrCb2BGR),
            39 => Ok(ColorConversion::YCrCb2RGB),
            40 => Ok(ColorConversion::BGR2HSV),
            41 => Ok(ColorConversion::RGB2HSV),
            44 => Ok(ColorConversion::BGR2Lab),
            45 => Ok(ColorConversion::RGB2Lab),
            46 => Ok(ColorConversion::BayerBG2BGR),
            47 => Ok(ColorConversion::BayerGB2BGR),
            48 => Ok(ColorConversion::BayerRG2BGR),
            49 => Ok(ColorConversion::BayerGR2BGR),
            50 => Ok(ColorConversion::BGR2Luv),
            51 => Ok(ColorConversion::RGB2Luv),
            52 => Ok(ColorConversion::BGR2HLS),
            53 => Ok(ColorConversion::RGB2HLS),
            54 => Ok(ColorConversion::HSV2BGR),
            55 => Ok(ColorConversion::HSV2RGB),
            56 => Ok(ColorConversion::Lab2BGR),
            57 => Ok(ColorConversion::Lab2RGB),
            58 => Ok(ColorConversion::Luv2BGR),
            59 => Ok(ColorConversion::Luv2RGB),
            60 => Ok(ColorConversion::HLS2BGR),
            61 => Ok(ColorConversion::HLS2RGB),
            62 => Ok(ColorConversion::BayerBG2BGR_VNG),
            63 => Ok(ColorConversion::BayerGB2BGR_VNG),
            64 => Ok(ColorConversion::BayerRG2BGR_VNG),
            65 => Ok(ColorConversion::BayerGR2BGR_VNG),
            66 => Ok(ColorConversion::BGR2HSV_FULL),
            67 => Ok(ColorConversion::RGB2HSV_FULL),
            68 => Ok(ColorConversion::BGR2HLS_FULL),
            69 => Ok(ColorConversion::RGB2HLS_FULL),
            70 => Ok(ColorConversion::HSV2BGR_FULL),
            71 => Ok(ColorConversion::HSV2RGB_FULL),
            72 => Ok(ColorConversion::HLS2BGR_FULL),
            73 => Ok(ColorConversion::HLS2RGB_FULL),
            74 => Ok(ColorConversion::LBGR2Lab),
            75 => Ok(ColorConversion::LRGB2Lab),
            76 => Ok(ColorConversion::LBGR2Luv),
            77 => Ok(ColorConversion::LRGB2Luv),
            78 => Ok(ColorConversion::Lab2LBGR),
            79 => Ok(ColorConversion::Lab2LRGB),
            80 => Ok(ColorConversion::Luv2LBGR),
            81 => Ok(ColorConversion::Luv2LRGB),
            82 => Ok(ColorConversion::BGR2YUV),
            83 => Ok(ColorConversion::RGB2YUV),
            84 => Ok(ColorConversion::YUV2BGR),
            85 => Ok(ColorConversion::YUV2RGB),
            86 => Ok(ColorConversion::BayerBG2GRAY),
            87 => Ok(ColorConversion::BayerGB2GRAY),
            88 => Ok(ColorConversion::BayerRG2GRAY),
            89 => Ok(ColorConversion::BayerGR2GRAY),
            90 => Ok(ColorConversion::YUV2RGB_NV12),
            91 => Ok(ColorConversion::YUV2BGR_NV12),
            92 => Ok(ColorConversion::YUV2RGB_NV21),
            93 => Ok(ColorConversion::YUV2BGR_NV21),
            94 => Ok(ColorConversion::YUV2RGBA_NV12),
            95 => Ok(ColorConversion::YUV2BGRA_NV12),
            96 => Ok(ColorConversion::YUV2RGBA_NV21),
            97 => Ok(ColorConversion::YUV2BGRA_NV21),
            98 => Ok(ColorConversion::YUV2RGB_YV12),
            99 => Ok(ColorConversion::YUV2BGR_YV12),
            100 => Ok(ColorConversion::YUV2RGB_IYUV),
            101 => Ok(ColorConversion::YUV2BGR_IYUV),
            102 => Ok(ColorConversion::YUV2RGBA_YV12),
            103 => Ok(ColorConversion::YUV2BGRA_YV12),
            104 => Ok(ColorConversion::YUV2RGBA_IYUV),
            105 => Ok(ColorConversion::YUV2BGRA_IYUV),
            106 => Ok(ColorConversion::YUV2GRAY_420),
            107 => Ok(ColorConversion::YUV2RGB_UYVY),
            108 => Ok(ColorConversion::YUV2BGR_UYVY),
            111 => Ok(ColorConversion::YUV2RGBA_UYVY),
            112 => Ok(ColorConversion::YUV2BGRA_UYVY),
            115 => Ok(ColorConversion::YUV2RGB_YUY2),
            116 => Ok(ColorConversion::YUV2BGR_YUY2),
            117 => Ok(ColorConversion::YUV2RGB_YVYU),
            118 => Ok(ColorConversion::YUV2BGR_YVYU),
            119 => Ok(ColorConversion::YUV2RGBA_YUY2),
            120 => Ok(ColorConversion::YUV2BGRA_YUY2),
            121 => Ok(ColorConversion::YUV2RGBA_YVYU),
            122 => Ok(ColorConversion::YUV2BGRA_YVYU),
            123 => Ok(ColorConversion::YUV2GRAY_UYVY),
            124 => Ok(ColorConversion::YUV2GRAY_YUY2),
            125 => Ok(ColorConversion::RGBA2mRGBA),
            126 => Ok(ColorConversion::mRGBA2RGBA),
            127 => Ok(ColorConversion::RGB2YUV_I420),
            128 => Ok(ColorConversion::BGR2YUV_I420),
            129 => Ok(ColorConversion::RGBA2YUV_I420),
            130 => Ok(ColorConversion::BGRA2YUV_I420),
            131 => Ok(ColorConversion::RGB2YUV_YV12),
            132 => Ok(ColorConversion::BGR2YUV_YV12),
            133 => Ok(ColorConversion::RGBA2YUV_YV12),
            134 => Ok(ColorConversion::BGRA2YUV_YV12),
            135 => Ok(ColorConversion::BayerBG2BGR_EA),
            136 => Ok(ColorConversion::BayerGB2BGR_EA),
            137 => Ok(ColorConversion::BayerRG2BGR_EA),
            138 => Ok(ColorConversion::BayerGR2BGR_EA),
            139 => Ok(ColorConversion::COLORCVT_MAX),
            _ => Err(CvError::EnumFromPrimitiveConversionError { value: code }),
        }
    }

    /// Decoding the code of a variant gives that variant back, and a code
    /// decodes only to the variant whose code it is: every other code is
    /// rejected.
    pub proof fn lemma_code_round_trip(v: ColorConversion, code: i32)
        ensures
            ColorConversion::spec_from_code(v.spec_code()) == Some(v),
            ColorConversion::spec_from_code(code) matches Some(w) ==> w.spec_code() == code,
            ColorConversion::spec_from_code(code) is None ==> forall|u: ColorConversion| u.spec_code() != code,
    {
        assert forall|u: ColorConversion| ColorConversion::spec_from_code(#[trigger] u.spec_code()) == Some(u) by {
            match u {
                ColorConversion::BGR2BGRA => {},
                ColorConversion::BGRA2BGR => {},
                ColorConversion::BGR2RGBA => {},
                ColorConversion::RGBA2BGR => {},
                ColorConversion::BGR2RGB => {},
                ColorConversion::BGRA2RGBA => {},
                ColorConversion::BGR2GRAY => {},
                ColorConversion::RGB2GRAY => {},
                ColorConversion::GRAY2BGR => {},
                ColorConversion::GRAY2BGRA => {},
                ColorConversion::BGRA2GRAY => {},
                ColorConversion::RGBA2GRAY => {},
                ColorConversion::BGR2BGR565 => {},
                ColorConversion::RGB2BGR565 => {},
                ColorConversion::BGR5652BGR => {},
                ColorConversion::BGR5652RGB => {},
                ColorConversion::BGRA2BGR565 => {},
                ColorConversion::RGBA2BGR565 => {},
                ColorConversion::BGR5652BGRA => {},
                ColorConversion::BGR5652RGBA => {},
                ColorConversion::GRAY2BGR565 => {},
                ColorConversion::BGR5652GRAY => {},
                ColorConversion::BGR2BGR555 => {},
                ColorConversion::RGB2BGR555 => {},
                ColorConversion::BGR5552BGR => {},
                ColorConversion::BGR5552RGB => {},
                ColorConversion::BGRA2BGR555 => {},
                ColorConversion::RGBA2BGR555 => {},
                ColorConversion::BGR5552BGRA => {},
                ColorConversion::BGR5552RGBA => {},
                ColorConversion::GRAY2BGR555 => {},
                ColorConversion::BGR5552GRAY => {},
                ColorConversion::BGR2XYZ => {},
                ColorConversion::RGB2XYZ => {},
                ColorConversion::XYZ2BGR => {},
                ColorConversion::XYZ2RGB => {},
                ColorConversion::BGR2YCrCb => {},
                ColorConversion::RGB2YCrCb => {},
                ColorConversion::YCrCb2BGR => {},
                ColorConversion::YCrCb2RGB => {},
                ColorConversion::BGR2HSV => {},
                ColorConversion::RGB2HSV => {},
                ColorConversion::BGR2Lab => {},
                ColorConversion::RGB2Lab => {},
                ColorConversion::BGR2Luv => {},
                ColorConversion::RGB2Luv => {},
                ColorConversion::BGR2HLS => {},
                ColorConversion::RGB2HLS => {},
                ColorConversion::HSV2BGR => {},
                ColorConversion::HSV2RGB => {},
                ColorConversion::Lab2BGR => {},
                ColorConversion::Lab2RGB => {},
                ColorConversion::Luv2BGR => {},
                ColorConversion::Luv2RGB => {},
                ColorConversion::HLS2BGR => {},
                ColorConversion::HLS2RGB => {},
                ColorConversion::BGR2HSV_FULL => {},
                ColorConversion::RGB2HSV_FULL => {},
                ColorConversion::BGR2HLS_FULL => {},
                ColorConversion::RGB2HLS_FULL => {},
                ColorConversion::HSV2BGR_FULL => {},
                ColorConversion::HSV2RGB_FULL => {},
                ColorConversion::HLS2BGR_FULL => {},
                ColorConversion::HLS2RGB_FULL => {},
                ColorConversion::LBGR2Lab => {},
                ColorConversion::LRGB2Lab => {},
                ColorConversion::LBGR2Luv => {},
                ColorConversion::LRGB2Luv => {},
                ColorConversion::Lab2LBGR => {},
                ColorConversion::Lab2LRGB => {},
                ColorConversion::Luv2LBGR => {},
                ColorConversion::Luv2LRGB => {},
                ColorConversion::BGR2YUV => {},
                ColorConversion::RGB2YUV => {},
                ColorConversion::YUV2BGR => {},
                ColorConversion::YUV2RGB => {},
                ColorConversion::YUV2RGB_NV12 => {},
                ColorConversion::YUV2BGR_NV12 => {},
                ColorConversion::YUV2RGB_NV21 => {},
                ColorConversion::YUV2BGR_NV21 => {},
                ColorConversion::YUV2RGBA_NV12 => {},
                ColorConversion::YUV2BGRA_NV12 => {},
                ColorConversion::YUV2RGBA_NV21 => {},
                ColorConversion::YUV2BGRA_NV21 => {},
                ColorConversion::YUV2RGB_YV12 => {},
                ColorConversion::YUV2BGR_YV12 => {},
                ColorConversion::YUV2RGB_IYUV => {},
                ColorConversion::YUV2BGR_IYUV => {},
                ColorConversion::YUV2RGBA_YV12 => {},
                ColorConversion::YUV2BGRA_YV12 => {},
                ColorConversion::YUV2RGBA_IYUV => {},
                ColorConversion::YUV2BGRA_IYUV => {},
                ColorConversion::YUV2GRAY_420 => {},
                ColorConversion::YUV2RGB_UYVY => {},
                ColorConversion::YUV2BGR_UYVY => {},
                ColorConversion::YUV2RGBA_UYVY => {},
                ColorConversion::YUV2BGRA_UYVY => {},
                ColorConversion::YUV2RGB_YUY2 => {},
                ColorConversion::YUV2BGR_YUY2 => {},
                ColorConversion::YUV2RGB_YVYU => {},
                ColorConversion::YUV2BGR_YVYU => {},
                ColorConversion::YUV2RGBA_YUY2 => {},
                ColorConversion::YUV2BGRA_YUY2 => {},
                ColorConversion::YUV2RGBA_YVYU => {},
                ColorConversion::YUV2BGRA_YVYU => {},
                ColorConversion::YUV2GRAY_UYVY => {},
                ColorConversion::YUV2GRAY_YUY2 => {},
                ColorConversion::RGBA2mRGBA => {},
                ColorConversion::mRGBA2RGBA => {},
                ColorConversion::RGB2YUV_I420 => {},
                ColorConversion::BGR2YUV_I420 => {},
                ColorConversion::RGBA2YUV_I420 => {},
                ColorConversion::BGRA2YUV_I420 => {},
                ColorConversion::RGB2YUV_YV12 => {},
                ColorConversion::BGR2YUV_YV12 => {},
                ColorConversion::RGBA2YUV_YV12 => {},
                ColorConversion::BGRA2YUV_YV12 => {},
                ColorConversion::BayerBG2BGR => {},
                ColorConversion::BayerGB2BGR => {},
                ColorConversion::BayerRG2BGR => {},
                ColorConversion::BayerGR2BGR => {},
                ColorConversion::BayerBG2GRAY => {},
                ColorConversion::BayerGB2GRAY => {},
                ColorConversion::BayerRG2GRAY => {},
                ColorConversion::BayerGR2GRAY => {},
                ColorConversion::BayerBG2BGR_VNG => {},
                ColorConversion::BayerGB2BGR_VNG => {},
                ColorConversion::BayerRG2BGR_VNG => {},
                ColorConversion::BayerGR2BGR_VNG => {},
                ColorConversion::BayerBG2BGR_EA => {},
                ColorConversion::BayerGB2BGR_EA => {},
                ColorConversion::BayerRG2BGR_EA => {},
                ColorConversion::BayerGR2BGR_EA => {},
                ColorConversion::COLORCVT_MAX => {},
            }
        }
    }
}

/// Comparison method of template matching.
#[derive(Debug, Clone, Copy, PartialEq, Eq, Hash, Structural)]
pub enum TemplateMatchMode {
    /// Squared difference.
    SqDiff,
    /// Normed squared difference.
    SqDiffNormed,
    /// Cross correlation.
    Ccorr,
    /// Normed cross correlation.
    CcorrNormed,
    /// Correlation coefficient.
    Ccoeff,
    /// Normed correlation coefficient.
    CcoeffNormed,
}

impl TemplateMatchMode {
    /// The native integer code of this variant.
    pub open spec fn spec_code(self) -> i32 {
        match self {
            TemplateMatchMode::SqDiff => 0,
            TemplateMatchMode::SqDiffNormed => 1,
            TemplateMatchMode::Ccorr => 2,
            TemplateMatchMode::CcorrNormed => 3,
            TemplateMatchMode::Ccoeff => 4,
            TemplateMatchMode::CcoeffNormed => 5,
        }
    }

    /// The variant whose native code is `code`, if any.
    pub open spec fn spec_from_code(code: i32) -> Option<TemplateMatchMode> {
        match code {
            0 => Some(TemplateMatchMode::SqDiff),
            1 => Some(TemplateMatchMode::SqDiffNormed),
            2 => Some(TemplateMatchMode::Ccorr),
            3 => Some(TemplateMatchMode::CcorrNormed),
            4 => Some(TemplateMatchMode::Ccoeff),
            5 => Some(TemplateMatchMode::CcoeffNormed),
            _ => None,
        }
    }

    /// Returns the native integer code of this variant.
    pub fn code(self) -> (r: i32)
        ensures
            r == self.spec_code(),
    {
        match self {
            TemplateMatchMode::SqDiff => 0,
            TemplateMatchMode::SqDiffNormed => 1,
            TemplateMatchMode::Ccorr => 2,
            TemplateMatchMode::CcorrNormed => 3,
            TemplateMatchMode::Ccoeff => 4,
            TemplateMatchMode::CcoeffNormed => 5,
        }
    }

    /// Decodes a native integer code; a code that no variant has is an
    /// error that carries the code.
    pub fn from_code(code: i32) -> (r: Result<TemplateMatchMode, CvError>)
        ensures
            r == decoded(TemplateMatchMode::spec_from_code(code), code),
    {
        match code {
            0 => Ok(TemplateMatchMode::SqDiff),
            1 => Ok(TemplateMatchMode::SqDiffNormed),
            2 => Ok(TemplateMatchMode::Ccorr),
            3 => Ok(TemplateMatchMode::CcorrNormed),
            4 => Ok(TemplateMatchMode::Ccoeff),
            5 => Ok(TemplateMatchMode::CcoeffNormed),
            _ => Err(CvError::EnumFromPrimitiveConversionError { value: code }),
        }
    }

    /// Decoding the code of a variant gives that variant back, and a code
    /// decodes only to the variant whose code it is: every other code is
    /// rejected.
    pub proof fn lemma_code_round_trip(v: TemplateMatchMode, code: i32)
        ensures
            TemplateMatchMode::spec_from_code(v.spec_code()) == Some(v),
            TemplateMatchMode::spec_from_code(code) matches Some(w) ==> w.spec_code() == code,
            TemplateMatchMode::spec_from_code(code) is None ==> forall|u: TemplateMatchMode| u.spec_code() != code,
    {
        assert forall|u: TemplateMatchMode| TemplateMatchMode::spec_from_code(#[trigger] u.spec_code()) == Some(u) by {
            match u {
                TemplateMatchMode::SqDiff => {},
                TemplateMatchMode::SqDiffNormed => {},
                TemplateMatchMode::Ccorr => {},
                TemplateMatchMode::CcorrNormed => {},
                TemplateMatchMode::Ccoeff => {},
                TemplateMatchMode::CcoeffNormed => {},
            }
        }
    }
}

/// Type of a threshold operation.
#[derive(Debug, Clone, Copy, PartialEq, Eq, Hash, Structural)]
pub enum ThresholdType {
    /// Binary threshold.
    Binary,
    /// Inverted binary threshold.
    BinaryInv,
    /// Truncate to the threshold.
    Trunc,
    /// Zero below the threshold.
    ToZero,
    /// Zero above the threshold.
    ToZeroInv,
    /// Mask flag.
    Mask,
    /// Otsu's method picks the threshold.
    Otsu,
    /// The triangle method picks the threshold.
    Triangle,
}

impl ThresholdType {
    /// The native integer code of this variant.
    pub open spec fn spec_code(self) -> i32 {
        match self {
            ThresholdType::Binary => 0,
            ThresholdType::BinaryInv => 1,
            ThresholdType::Trunc => 2,
            ThresholdType::ToZero => 3,
            ThresholdType::ToZeroInv => 4,
            ThresholdType::Mask => 7,
            ThresholdType::Otsu => 8,
            ThresholdType::Triangle => 16,
        }
    }

    /// The variant whose native code is `code`, if any.
    pub open spec fn spec_from_code(code: i32) -> Option<ThresholdType> {
        match code {
            0 => Some(ThresholdType::Binary),
            1 => Some(ThresholdType::BinaryInv),
            2 => Some(ThresholdType::Trunc),
            3 => Some(ThresholdType::ToZero),
            4 => Some(ThresholdType::ToZeroInv),
            7 => Some(ThresholdType::Mask),
            8 => Some(ThresholdType::Otsu),
            16 => Some(ThresholdType::Triangle),
            _ => None,
        }
    }

    /// Returns the native integer code of this variant.
    pub fn code(self) -> (r: i32)
        ensures
            r == self.spec_code(),
    {
        match self {
            ThresholdType::Binary => 0,
            ThresholdType::BinaryInv => 1,
            ThresholdType::Trunc => 2,
            ThresholdType::ToZero => 3,
            ThresholdType::ToZeroInv => 4,
            ThresholdType::Mask => 7,
            ThresholdType::Otsu => 8,
            ThresholdType::Triangle => 16,
        }
    }

    /// Decodes a native integer code; a code that no variant has is an
    /// error that carries the code.
    pub fn from_code(code: i32) -> (r: Result<ThresholdType, CvError>)
        ensures
            r == decoded(ThresholdType::spec_from_code(code), code),
    {
        match code {
            0 => Ok(ThresholdType::Binary),
            1 => Ok(ThresholdType::BinaryInv),
            2 => Ok(ThresholdType::Trunc),
            3 => Ok(ThresholdType::ToZero),
            4 => Ok(ThresholdType::ToZeroInv),
            7 => Ok(ThresholdType::Mask),
            8 => Ok(ThresholdType::Otsu),
            16 => Ok(ThresholdType::Triangle),
            _ => Err(CvError::EnumFromPrimitiveConversionError { value: code }),
        }
    }

    /// Decoding the code of a variant gives that variant back, and a code
    /// decodes only to the variant whose code it is: every other code is
    /// rejected.
    pub proof fn lemma_code_round_trip(v: ThresholdType, code: i32)
        ensures
            ThresholdType::spec_from_code(v.spec_code()) == Some(v),
            ThresholdType::spec_from_code(code) matches Some(w) ==> w.spec_code() == code,
            ThresholdType::spec_from_code(code) is None ==> forall|u: ThresholdType| u.spec_code() != code,
    {
        assert forall|u: ThresholdType| ThresholdType::spec_from_code(#[trigger] u.spec_code()) == Some(u) by {
            match u {
                ThresholdType::Binary => {},
                ThresholdType::BinaryInv => {},
                ThresholdType::Trunc => {},
                ThresholdType::ToZero => {},
                ThresholdType::ToZeroInv => {},
                ThresholdType::Mask => {},
                ThresholdType::Otsu => {},
                ThresholdType::Triangle => {},
            }
        }
    }
}

/// Interpolation algorithm.
#[derive(Debug, Clone, Copy, PartialEq, Eq, Hash, Structural)]
pub enum InterpolationFlag {
    /// Nearest neighbor interpolation.
    Nearst,
    /// Bilinear interpolation.
    Linear,
    /// Bicubic interpolation.
    Cubic,
    /// Resampling using pixel area relation.
    Area,
    /// Lanczos interpolation over 8x8 neighborhood.
    Lanczos4,
    /// Bit exact bilinear interpolation.
    LinearExact,
    /// Mask for interpolation codes.
    Max,
    /// Fill all destination pixels; outliers are set to zero.
    WarpFillOutliers,
    /// Inverse transformation.
    WarpInverseMap,
}

impl InterpolationFlag {
    /// The native integer code of this variant.
    pub open spec fn spec_code(self) -> i32 {
        match self {
            InterpolationFlag::Nearst => 0,
            InterpolationFlag::Linear => 1,
            InterpolationFlag::Cubic => 2,
            InterpolationFlag::Area => 3,
            InterpolationFlag::Lanczos4 => 4,
            InterpolationFlag::LinearExact => 5,
            InterpolationFlag::Max => 7,
            InterpolationFlag::WarpFillOutliers => 8,
            InterpolationFlag::WarpInverseMap => 16,
        }
    }

    /// The variant whose native code is `code`, if any.
    pub open spec fn spec_from_code(code: i32) -> Option<InterpolationFlag> {
        match code {
            0 => Some(InterpolationFlag::Nearst),
            1 => Some(InterpolationFlag::Linear),
            2 => Some(InterpolationFlag::Cubic),
            3 => Some(InterpolationFlag::Area),
            4 => Some(InterpolationFlag::Lanczos4),
            5 => Some(InterpolationFlag::LinearExact),
            7 => Some(InterpolationFlag::Max),
            8 => Some(InterpolationFlag::WarpFillOutliers),
            16 => Some(InterpolationFlag::WarpInverseMap),
            _ => None,
        }
    }

    /// Returns the native integer code of this variant.
    pub fn code(self) -> (r: i32)
        ensures
            r == self.spec_code(),
    {
        match self {
            InterpolationFlag::Nearst => 0,
            InterpolationFlag::Linear => 1,
            InterpolationFlag::Cubic => 2,
            InterpolationFlag::Area => 3,
            InterpolationFlag::Lanczos4 => 4,
            InterpolationFlag::LinearExact => 5,
            InterpolationFlag::Max => 7,
            InterpolationFlag::WarpFillOutliers => 8,
            InterpolationFlag::WarpInverseMap => 16,
        }
    }

    /// Decodes a native integer code; a code that no variant has is an
    /// error that carries the code.
    pub fn from_code(code: i32) -> (r: Result<InterpolationFlag, CvError>)
        ensures
            r == decoded(InterpolationFlag::spec_from_code(code), code),
    {
        match code {
            0 => Ok(InterpolationFlag::Nearst),
            1 => Ok(InterpolationFlag::Linear),
            2 => Ok(InterpolationFlag::Cubic),
            3 => Ok(InterpolationFlag::Area),
            4 => Ok(InterpolationFlag::Lanczos4),
            5 => Ok(InterpolationFlag::LinearExact),
            7 => Ok(InterpolationFlag::Max),
            8 => Ok(InterpolationFlag::WarpFillOutliers),
            16 => Ok(InterpolationFlag::WarpInverseMap),
            _ => Err(CvError::EnumFromPrimitiveConversionError { value: code }),
        }
    }

    /// Decoding the code of a variant gives that variant back, and a code
    /// decodes only to the variant whose code it is: every other code is
    /// rejected.
    pub proof fn lemma_code_round_trip(v: InterpolationFlag, code: i32)
        ensures
            InterpolationFlag::spec_from_code(v.spec_code()) == Some(v),
            InterpolationFlag::spec_from_code(code) matches Some(w) ==> w.spec_code() == code,
            InterpolationFlag::spec_from_code(code) is None ==> forall|u: InterpolationFlag| u.spec_code() != code,
    {
        assert forall|u: InterpolationFlag| InterpolationFlag::spec_from_code(#[trigger] u.spec_code()) == Some(u) by {
            match u {
                InterpolationFlag::Nearst => {},
                InterpolationFlag::Linear => {},
                InterpolationFlag::Cubic => {},
                InterpolationFlag::Area => {},
                InterpolationFlag::Lanczos4 => {},
                InterpolationFlag::LinearExact => {},
                InterpolationFlag::Max => {},
                InterpolationFlag::WarpFillOutliers => {},
                InterpolationFlag::WarpInverseMap => {},
            }
        }
    }
}

} // verus!
