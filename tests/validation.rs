use rustcv::highgui::Window;
use rustcv::objdetect::cascade_load_result;
use rustcv::{c_string, path_to_cstring, CvError};

#[test]
fn c_string_appends_terminator() {
    assert_eq!(c_string("data"), Ok(b"data\0".to_vec()));
    assert_eq!(c_string(""), Ok(vec![0u8]));
    assert_eq!(c_string("é"), Ok(vec![0xc3, 0xa9, 0]));
}

#[test]
fn c_string_rejects_interior_nul() {
    assert_eq!(c_string("pr\0ob"), Err(CvError::InvalidString("pr\0ob".to_string())));
    assert_eq!(c_string("\0"), Err(CvError::InvalidString("\0".to_string())));
}

#[test]
fn path_conversion() {
    assert_eq!(
        path_to_cstring("assets/lenna.png"),
        Ok(b"assets/lenna.png\0".to_vec())
    );
    assert_eq!(
        path_to_cstring("a\0b.xml"),
        Err(CvError::InvalidPath("a\0b.xml".to_string()))
    );
}

#[test]
fn window_state() {
    let mut window = Window::new("test").expect("failed to create window");
    assert_eq!(window.name(), "test");
    assert!(window.is_open());
    window.close();
    assert!(!window.is_open());
    assert_eq!(window.name(), "test");
}

#[test]
fn window_name_with_nul_is_refused() {
    let r = Window::new("te\0st");
    assert!(matches!(r, Err(CvError::InvalidString(ref s)) if s == "te\0st"));
}

#[test]
fn cascade_load_status() {
    assert_eq!(cascade_load_result(1, "model.xml"), Ok(()));
    assert_eq!(cascade_load_result(-1, "model.xml"), Ok(()));
    assert_eq!(
        cascade_load_result(0, "missing.xml"),
        Err(CvError::InvalidCascadeModel("missing.xml".to_string()))
    );
}
