use rearview_mirror::geometry::{
    clamp_longest_edge, mirror_center, mirror_size, taskbar_mirror_position, taskbar_mirror_size,
    MirrorSize, SavedPosition, TaskbarBounds,
};

#[test]
fn mirror_size_clamps_and_keeps_four_to_one() {
    assert_eq!(mirror_size(600), MirrorSize { width: 600, height: 150 });
    assert_eq!(mirror_size(0), MirrorSize { width: 128, height: 32 });
    assert_eq!(mirror_size(5000), MirrorSize { width: 1600, height: 400 });
    assert_eq!(mirror_size(u32::MAX), MirrorSize { width: 1600, height: 400 });
}

#[test]
fn mirror_height_rounds_half_away_from_zero() {
    assert_eq!(mirror_size(129).height, 32);
    assert_eq!(mirror_size(130).height, 33);
    assert_eq!(mirror_size(131).height, 33);
    for w in 128u32..=1600 {
        let expected = (w as f64 / 4.0).round() as u32;
        assert_eq!(mirror_size(w).height, expected);
    }
}

#[test]
fn clamp_edges() {
    assert_eq!(clamp_longest_edge(127), 128);
    assert_eq!(clamp_longest_edge(128), 128);
    assert_eq!(clamp_longest_edge(1600), 1600);
    assert_eq!(clamp_longest_edge(1601), 1600);
}

#[test]
fn taskbar_size_is_four_times_thickness() {
    let bottom_bar = TaskbarBounds { left: 0, top: 1032, right: 1920, bottom: 1080 };
    assert_eq!(taskbar_mirror_size(Some(bottom_bar)), 192);
    let side_bar = TaskbarBounds { left: 0, top: 0, right: 62, bottom: 1080 };
    assert_eq!(taskbar_mirror_size(Some(side_bar)), 248);
    let reversed = TaskbarBounds { left: 1920, top: 1080, right: 0, bottom: 1032 };
    assert_eq!(taskbar_mirror_size(Some(reversed)), 192);
    assert_eq!(taskbar_mirror_size(None), 192);
}

#[test]
fn taskbar_size_saturates() {
    let huge = TaskbarBounds { left: -2_000_000_000, top: -2_000_000_000, right: 2_000_000_000, bottom: 0 };
    assert_eq!(taskbar_mirror_size(Some(huge)), u32::MAX);
    let exact = TaskbarBounds { left: 0, top: 0, right: i32::MAX, bottom: i32::MAX };
    let expected = ((i32::MAX as u32 as f64) * 4.0).round() as u32;
    assert_eq!(taskbar_mirror_size(Some(exact)), expected);
}

#[test]
fn taskbar_position_horizontal_and_vertical() {
    let bottom_bar = TaskbarBounds { left: 0, top: 1032, right: 1920, bottom: 1080 };
    assert_eq!(taskbar_mirror_position(192, Some(bottom_bar)), SavedPosition { x: 1728, y: 1032 });
    assert_eq!(taskbar_mirror_position(10, Some(bottom_bar)), SavedPosition { x: 1792, y: 1032 });
    let side_bar = TaskbarBounds { left: 1858, top: 0, right: 1920, bottom: 1080 };
    assert_eq!(taskbar_mirror_position(248, Some(side_bar)), SavedPosition { x: 1858, y: 1018 });
    assert_eq!(taskbar_mirror_position(130, Some(side_bar)), SavedPosition { x: 1858, y: 1047 });
    assert_eq!(taskbar_mirror_position(600, None), SavedPosition { x: 0, y: 0 });
}

#[test]
fn mirror_center_halves_size() {
    let p = SavedPosition { x: 100, y: 50 };
    assert_eq!(mirror_center(p, MirrorSize { width: 601, height: 150 }), SavedPosition { x: 400, y: 125 });
    assert_eq!(mirror_center(p, MirrorSize { width: 0, height: 1 }), SavedPosition { x: 100, y: 50 });
}

#[test]
fn mirror_center_reads_size_as_signed() {
    let p = SavedPosition { x: 10, y: 20 };
    let w: u32 = 0xffff_fffd;
    let expected_x = 10 + (w as i32) / 2;
    assert_eq!(mirror_center(p, MirrorSize { width: w, height: 5 }), SavedPosition { x: expected_x, y: 22 });
    assert_eq!(expected_x, 9);
    let c = mirror_center(SavedPosition { x: 0, y: 0 }, MirrorSize { width: 0x8000_0000, height: 0 });
    assert_eq!(c.x, (0x8000_0000u32 as i32) / 2);
}
