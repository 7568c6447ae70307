use wacom_randr::mapper::{compute_transform, desktop_bounds, select_target, BoundingBox, MapError, TabletTransform};
use wacom_randr::topology::XcbOutputDescription;

fn out(name: &str, x: i16, y: i16, width: u16, height: u16) -> XcbOutputDescription {
    XcbOutputDescription { name: name.to_string(), x, y, width, height }
}

fn ratio(n: i32, d: i32) -> f32 {
    n as f32 / d as f32
}

fn floats(t: &TabletTransform) -> (f32, f32, f32, f32) {
    (ratio(t.dx_num, t.width), ratio(t.dy_num, t.height), ratio(t.cx_num, t.width), ratio(t.cy_num, t.height))
}

#[test]
fn target_single_output() {
    let v = vec![out("HDMI-1", 0, 0, 1920, 1080)];
    assert_eq!(select_target(&v, "HDMI-1"), 0);
}

#[test]
fn target_second_of_two() {
    let v = vec![out("DP-1", 0, 0, 1920, 1080), out("HDMI-1", 1920, 0, 1920, 1080)];
    assert_eq!(select_target(&v, "HDMI-1"), 1);
    assert_eq!(select_target(&v, "DP-1"), 0);
}

#[test]
fn target_falls_back_to_first() {
    let v = vec![out("DP-1", 0, 0, 1920, 1080), out("HDMI-1", 1920, 0, 1920, 1080)];
    assert_eq!(select_target(&v, "VGA-7"), 0);
}

#[test]
fn target_first_of_duplicate_names() {
    let v = vec![out("A", 0, 0, 10, 10), out("B", 10, 0, 10, 10), out("B", 20, 0, 10, 10)];
    assert_eq!(select_target(&v, "B"), 1);
}

#[test]
fn side_by_side_second_output() {
    let v = vec![out("DP-1", 0, 0, 1920, 1080), out("HDMI-1", 1920, 0, 1920, 1080)];
    let t = compute_transform(&v, "HDMI-1").unwrap();
    let (dx, dy, cx, cy) = floats(&t);
    assert_eq!(dx, 0.5);
    assert_eq!(dy, 0.0);
    assert_eq!(cx, 0.5);
    assert_eq!(cy, 1.0);
}

#[test]
fn single_output_identity() {
    let v = vec![out("eDP-1", 0, 0, 1920, 1080)];
    let t = compute_transform(&v, "eDP-1").unwrap();
    let (dx, dy, cx, cy) = floats(&t);
    assert_eq!(dx, 0.0);
    assert_eq!(dy, 0.0);
    assert_eq!(cx, 1.0);
    assert_eq!(cy, 1.0);
}

#[test]
fn mismatched_name_maps_to_first() {
    let v = vec![out("DP-1", 0, 0, 1920, 1080), out("HDMI-1", 1920, 0, 1920, 1080)];
    let t = compute_transform(&v, "nothing").unwrap();
    let (dx, dy, cx, cy) = floats(&t);
    assert_eq!(dx, 0.0);
    assert_eq!(dy, 0.0);
    assert_eq!(cx, 0.5);
    assert_eq!(cy, 1.0);
}

#[test]
fn scales_within_unit_range() {
    let layouts = vec![
        vec![out("A", 0, 0, 1920, 1080)],
        vec![out("A", 0, 0, 1920, 1080), out("B", 1920, 0, 1280, 1024)],
        vec![out("A", -1280, 200, 1280, 1024), out("B", 0, 0, 2560, 1440), out("C", 0, 1440, 800, 600)],
    ];
    for v in layouts.iter() {
        for name in ["A", "B", "C"] {
            let t = compute_transform(v, name).unwrap();
            let (dx, dy, cx, cy) = floats(&t);
            assert!(cx > 0.0 && cx <= 1.0);
            assert!(cy > 0.0 && cy <= 1.0);
            assert!(dx >= 0.0 && dx + cx <= 1.0 + 1e-6);
            assert!(dy >= 0.0 && dy + cy <= 1.0 + 1e-6);
        }
    }
}

#[test]
fn negative_positions_and_stacked_outputs() {
    let v = vec![out("LEFT", -1280, 200, 1280, 1024), out("MAIN", 0, 0, 2560, 1440)];
    let b = desktop_bounds(&v);
    assert_eq!(b, BoundingBox { min_x: -1280, min_y: 0, max_x: 2560, max_y: 1440 });
    let t = compute_transform(&v, "LEFT").unwrap();
    assert_eq!(
        t,
        TabletTransform { dx_num: 0, cx_num: 1280, width: 3840, dy_num: 200, cy_num: 1024, height: 1440 }
    );
    let t = compute_transform(&v, "MAIN").unwrap();
    assert_eq!(
        t,
        TabletTransform { dx_num: 1280, cx_num: 2560, width: 3840, dy_num: 0, cy_num: 1440, height: 1440 }
    );
}

#[test]
fn bounds_at_the_largest_coordinates() {
    let v = vec![out("A", i16::MIN, i16::MIN, 10, 10), out("B", i16::MAX, i16::MAX, u16::MAX, u16::MAX)];
    let b = desktop_bounds(&v);
    assert_eq!(b.min_x, -32768);
    assert_eq!(b.max_x, 32767 + 65535);
    let t = compute_transform(&v, "B").unwrap();
    assert_eq!(t.width, 32767 + 65535 + 32768);
    assert_eq!(t.dx_num, 65535);
}

#[test]
fn degenerate_width_is_refused() {
    let v = vec![out("A", 100, 0, 0, 1080)];
    assert_eq!(compute_transform(&v, "A"), Err(MapError::DegenerateBounds));
}

#[test]
fn degenerate_height_is_refused() {
    let v = vec![out("A", 0, 0, 1920, 0), out("B", 1920, 0, 1920, 0)];
    assert_eq!(compute_transform(&v, "B"), Err(MapError::DegenerateBounds));
}

#[test]
fn empty_snapshot_is_refused() {
    let v: Vec<XcbOutputDescription> = Vec::new();
    assert_eq!(compute_transform(&v, "A"), Err(MapError::NoOutputs));
}

#[test]
fn matrix_entries_row_major() {
    let v = vec![out("DP-1", 0, 0, 1920, 1080), out("HDMI-1", 1920, 0, 1920, 1080)];
    let t = compute_transform(&v, "HDMI-1").unwrap();
    let m: Vec<f32> = t.matrix().iter().map(|&(n, d)| ratio(n, d)).collect();
    assert_eq!(m, vec![0.5, 0.0, 0.5, 0.0, 1.0, 0.0, 0.0, 0.0, 1.0]);
    assert!(m.iter().all(|x| x.is_finite()));
}
