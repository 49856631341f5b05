use banano_qr::{center_offset, logo_target_height, logo_target_width};

#[test]
fn target_width_is_two_fifths_truncated() {
    assert_eq!(logo_target_width(232), 92);
    assert_eq!(logo_target_width(5), 2);
    assert_eq!(logo_target_width(2), 0);
    assert_eq!(logo_target_width(u32::MAX), 1_717_986_918);
}

#[test]
fn target_height_truncates() {
    assert_eq!(logo_target_height(100, 50, 40), Some(20));
    assert_eq!(logo_target_height(3, 2, 92), Some(61));
    assert_eq!(logo_target_height(7, 0, 92), Some(0));
}

#[test]
fn target_height_of_zero_width_logo_is_undefined() {
    assert_eq!(logo_target_height(0, 50, 40), None);
}

#[test]
fn target_height_too_large_for_u32() {
    assert_eq!(logo_target_height(1, u32::MAX, 2), None);
}

#[test]
fn height_keeps_aspect_within_one_pixel() {
    for &(lw, lh, w) in &[(3u32, 2u32, 92u32), (100, 37, 92), (7, 13, 41), (640, 480, 92)] {
        let h = logo_target_height(lw, lh, w).unwrap() as u64;
        let (lw, lh, w) = (lw as u64, lh as u64, w as u64);
        assert!(h * lw <= lh * w);
        assert!(lh * w < (h + 1) * lw);
    }
}

#[test]
fn center_offset_truncates_toward_zero() {
    assert_eq!(center_offset(232, 92), 70);
    assert_eq!(center_offset(100, 41), 29);
    assert_eq!(center_offset(10, 10), 0);
    assert_eq!(center_offset(10, 15), -2);
    assert_eq!(center_offset(0, u32::MAX), -2_147_483_647);
}

#[test]
fn centered_logo_stays_in_bounds() {
    for &(outer, inner) in &[(232u32, 92u32), (233, 92), (10, 10), (10, 0), (1, 1)] {
        let off = center_offset(outer, inner);
        assert!(off >= 0);
        assert!(off + inner as i64 <= outer as i64);
    }
}
