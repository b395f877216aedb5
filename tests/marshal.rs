use rustcv::cvcore::{descriptor_length, drain, element_count, from_byte_array, Point, Rect};

#[test]
fn element_count_guards_empty_results() {
    assert_eq!(element_count(0), 0);
    assert_eq!(element_count(-3), 0);
    assert_eq!(element_count(i32::MIN), 0);
    assert_eq!(element_count(7), 7);
    assert_eq!(element_count(i32::MAX), i32::MAX as usize);
}

#[test]
fn drain_empty_result() {
    let none: [Rect; 0] = [];
    let out = drain(&none[..element_count(0)]);
    assert!(out.is_empty());
}

#[test]
fn drain_copies_every_rect() {
    let native = [
        Rect { x: 217, y: 201, width: 173, height: 173 },
        Rect { x: 33, y: 99, width: 24, height: 24 },
        Rect { x: 219, y: 204, width: 167, height: 167 },
    ];
    let n = element_count(3);
    let out = drain(&native[..n]);
    assert_eq!(out.len(), 3);
    assert_eq!(out, native.to_vec());
    assert_eq!(out[0].x, 217);
    assert_eq!(out[2].height, 167);
}

#[test]
fn drain_copies_points() {
    let native = [Point { x: 1, y: 2 }, Point { x: -4, y: 9 }];
    let out = drain(&native);
    assert_eq!(out, vec![Point { x: 1, y: 2 }, Point { x: -4, y: 9 }]);
}

#[test]
fn drained_result_outlives_native_buffer() {
    let out = {
        let native = vec![Rect { x: 1, y: 2, width: 3, height: 4 }];
        drain(&native)
    };
    assert_eq!(out, vec![Rect { x: 1, y: 2, width: 3, height: 4 }]);
}

#[test]
fn byte_array_copy_keeps_bytes() {
    let native: Vec<u8> = vec![0, 255, 7, 128, 1];
    let owned = from_byte_array(&native);
    assert_eq!(owned, native);
    drop(native);
    assert_eq!(owned, vec![0, 255, 7, 128, 1]);
    assert!(from_byte_array(&[]).is_empty());
}

#[test]
fn byte_round_trip_through_descriptor() {
    let b: Vec<u8> = (0..=255u8).collect();
    let length = descriptor_length(b.len()).unwrap();
    assert_eq!(length, 256);
    let back = from_byte_array(&b[..element_count(length)]);
    assert_eq!(back, b);
}

#[test]
fn descriptor_length_limits() {
    assert_eq!(descriptor_length(0), Some(0));
    assert_eq!(descriptor_length(10302), Some(10302));
    assert_eq!(descriptor_length(i32::MAX as usize), Some(i32::MAX));
    assert_eq!(descriptor_length(i32::MAX as usize + 1), None);
    assert_eq!(descriptor_length(usize::MAX), None);
}
