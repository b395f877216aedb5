use rustcv::cvcore::{BorderType, CompareType, CovarFlag, CvType};
use rustcv::highgui::{WindowFlag, WindowProperty};
use rustcv::imgcodecs::{ImageReadMode, ImageWriteMode, ImageWritePngFlag};
use rustcv::imgproc::{ColorConversion, InterpolationFlag, TemplateMatchMode, ThresholdType};
use rustcv::CvError;

fn unknown(value: i32) -> CvError {
    CvError::EnumFromPrimitiveConversionError { value }
}

#[test]
fn cv_type_codes_round_trip() {
    let all = [
        (CvType::Cv8UC1, 0),
        (CvType::Cv8SC1, 1),
        (CvType::Cv16UC1, 2),
        (CvType::Cv16SC1, 3),
        (CvType::Cv32SC1, 4),
        (CvType::Cv32FC1, 5),
        (CvType::Cv64FC1, 6),
        (CvType::Cv8UC2, 8),
        (CvType::Cv8UC3, 16),
        (CvType::Cv8SC3, 17),
        (CvType::Cv16UC3, 18),
        (CvType::Cv16SC3, 19),
        (CvType::Cv32SC3, 20),
        (CvType::Cv32FC3, 21),
        (CvType::Cv64FC3, 22),
    ];
    for (t, code) in all.iter() {
        assert_eq!(t.code(), *code);
        assert_eq!(CvType::from_code(*code), Ok(*t));
    }
}

#[test]
fn cv_type_unknown_codes_rejected() {
    for code in [-1, 7, 9, 15, 23, 24, 64, i32::MAX, i32::MIN].iter() {
        assert_eq!(CvType::from_code(*code), Err(unknown(*code)));
    }
}

#[test]
fn cv_type_layout() {
    assert_eq!(CvType::Cv8UC1.channels(), 1);
    assert_eq!(CvType::Cv8UC1.depth(), 0);
    assert_eq!(CvType::Cv8UC1.elem_size(), 1);
    assert_eq!(CvType::Cv8UC2.channels(), 2);
    assert_eq!(CvType::Cv8UC2.elem_size(), 2);
    assert_eq!(CvType::Cv8UC3.channels(), 3);
    assert_eq!(CvType::Cv8UC3.elem_size(), 3);
    assert_eq!(CvType::Cv16SC1.elem_size(), 2);
    assert_eq!(CvType::Cv32SC3.depth(), 4);
    assert_eq!(CvType::Cv32FC3.elem_size(), 12);
    assert_eq!(CvType::Cv64FC1.elem_size(), 8);
    assert_eq!(CvType::Cv64FC3.channels(), 3);
    assert_eq!(CvType::Cv64FC3.depth(), 6);
    assert_eq!(CvType::Cv64FC3.elem_size(), 24);
}

#[test]
fn cv_type_data_len() {
    assert_eq!(CvType::Cv8UC1.data_len(101, 102), Some(10302));
    assert_eq!(CvType::Cv8UC3.data_len(2, 5), Some(30));
    assert_eq!(CvType::Cv64FC3.data_len(512, 512), Some(6291456));
    assert_eq!(CvType::Cv8UC1.data_len(0, 102), Some(0));
    assert_eq!(CvType::Cv8UC1.data_len(-1, 102), None);
    assert_eq!(CvType::Cv8UC1.data_len(101, -2), None);
}

#[test]
fn border_type_codes() {
    let all = [
        (BorderType::Constant, 0),
        (BorderType::Replicate, 1),
        (BorderType::Reflect, 2),
        (BorderType::Wrap, 3),
        (BorderType::Reflect101, 4),
        (BorderType::Transparent, 5),
        (BorderType::Isolated, 16),
    ];
    for (b, code) in all.iter() {
        assert_eq!(b.code(), *code);
        assert_eq!(BorderType::from_code(*code), Ok(*b));
    }
    assert_eq!(BorderType::from_code(6), Err(unknown(6)));
    assert_eq!(BorderType::from_code(-1), Err(unknown(-1)));
}

#[test]
fn covar_flag_codes() {
    let all = [
        (CovarFlag::Scrambled, 0),
        (CovarFlag::Normal, 1),
        (CovarFlag::UseAvg, 2),
        (CovarFlag::Scale, 4),
        (CovarFlag::Rows, 8),
        (CovarFlag::Cols, 16),
    ];
    for (f, code) in all.iter() {
        assert_eq!(f.code(), *code);
        assert_eq!(CovarFlag::from_code(*code), Ok(*f));
    }
    assert_eq!(CovarFlag::from_code(3), Err(unknown(3)));
}

#[test]
fn compare_type_codes() {
    let all = [
        (CompareType::Eq, 0),
        (CompareType::Gt, 1),
        (CompareType::Ge, 2),
        (CompareType::Lt, 3),
        (CompareType::Le, 4),
        (CompareType::Ne, 5),
    ];
    for (c, code) in all.iter() {
        assert_eq!(c.code(), *code);
        assert_eq!(CompareType::from_code(*code), Ok(*c));
    }
    assert_eq!(CompareType::from_code(6), Err(unknown(6)));
}

#[test]
fn window_codes() {
    assert_eq!(WindowFlag::Normal.code(), 0);
    assert_eq!(WindowFlag::Autosize.code(), 1);
    assert_eq!(WindowFlag::Opengl.code(), 0x1000);
    assert_eq!(WindowFlag::FreeRatio.code(), 0x100);
    assert_eq!(WindowFlag::from_code(0x100), Ok(WindowFlag::FreeRatio));
    assert_eq!(WindowFlag::from_code(0x1000), Ok(WindowFlag::Opengl));
    assert_eq!(WindowFlag::from_code(2), Err(unknown(2)));
    assert_eq!(WindowProperty::Visible.code(), 4);
    assert_eq!(WindowProperty::from_code(2), Ok(WindowProperty::AspectRatio));
    assert_eq!(WindowProperty::from_code(5), Err(unknown(5)));
}

#[test]
fn image_codes() {
    assert_eq!(ImageReadMode::Unchanged.code(), -1);
    assert_eq!(ImageReadMode::from_code(-1), Ok(ImageReadMode::Unchanged));
    assert_eq!(ImageReadMode::from_code(1), Ok(ImageReadMode::Color));
    assert_eq!(ImageReadMode::ReducedColor8.code(), 65);
    assert_eq!(ImageReadMode::from_code(3), Err(unknown(3)));
    assert_eq!(ImageWriteMode::PamTupletype.code(), 128);
    assert_eq!(ImageWriteMode::from_code(16), Ok(ImageWriteMode::PngCompression));
    assert_eq!(ImageWriteMode::from_code(0), Err(unknown(0)));
    assert_eq!(ImageWritePngFlag::RLE.code(), 3);
    assert_eq!(ImageWritePngFlag::from_code(4), Ok(ImageWritePngFlag::Fixed));
    assert_eq!(ImageWritePngFlag::from_code(5), Err(unknown(5)));
}

#[test]
fn color_conversion_codes() {
    assert_eq!(ColorConversion::BGR2BGRA.code(), 0);
    assert_eq!(ColorConversion::BGR2GRAY.code(), 6);
    assert_eq!(ColorConversion::BayerBG2BGR.code(), 46);
    assert_eq!(ColorConversion::COLORCVT_MAX.code(), 139);
    assert_eq!(ColorConversion::from_code(6), Ok(ColorConversion::BGR2GRAY));
    assert_eq!(ColorConversion::from_code(126), Ok(ColorConversion::mRGBA2RGBA));
    assert_eq!(ColorConversion::from_code(138), Ok(ColorConversion::BayerGR2BGR_EA));
    for code in 0..140 {
        if let Ok(c) = ColorConversion::from_code(code) {
            assert_eq!(c.code(), code);
        }
    }
    for code in [-1, 42, 43, 109, 110, 113, 114, 140].iter() {
        assert_eq!(ColorConversion::from_code(*code), Err(unknown(*code)));
    }
}

#[test]
fn imgproc_mode_codes() {
    assert_eq!(TemplateMatchMode::CcoeffNormed.code(), 5);
    assert_eq!(TemplateMatchMode::from_code(0), Ok(TemplateMatchMode::SqDiff));
    assert_eq!(TemplateMatchMode::from_code(6), Err(unknown(6)));
    assert_eq!(ThresholdType::Triangle.code(), 16);
    assert_eq!(ThresholdType::from_code(7), Ok(ThresholdType::Mask));
    assert_eq!(ThresholdType::from_code(5), Err(unknown(5)));
    assert_eq!(InterpolationFlag::WarpInverseMap.code(), 16);
    assert_eq!(InterpolationFlag::from_code(1), Ok(InterpolationFlag::Linear));
    assert_eq!(InterpolationFlag::from_code(6), Err(unknown(6)));
}
