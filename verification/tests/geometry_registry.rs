use screen_capture::geometry::ElementRect;
use screen_capture::monitor::{
    capture_scope_region, MonitorGeometry, MonitorInfo, MonitorList,
};
use screen_capture::scale::{check_monitor_scale_factors_consistent, scale_position};

fn rect(min_x: i32, min_y: i32, max_x: i32, max_y: i32) -> ElementRect {
    ElementRect { min_x, min_y, max_x, max_y }
}

#[test]
fn overlaps_is_symmetric() {
    let pairs = [
        (rect(0, 0, 10, 10), rect(5, 5, 20, 20)),
        (rect(0, 0, 10, 10), rect(10, 0, 20, 10)),
        (rect(0, 0, 10, 10), rect(11, 0, 20, 10)),
        (rect(-5, -5, 0, 0), rect(0, 0, 5, 5)),
        (rect(0, 0, 0, 0), rect(-1, -1, 1, 1)),
    ];
    for (a, b) in pairs {
        assert_eq!(a.overlaps(&b), b.overlaps(&a));
    }
}

#[test]
fn clip_of_disjoint_rectangles_has_zero_area() {
    let a = rect(0, 0, 10, 10);
    let b = rect(20, 20, 30, 30);
    assert!(!a.overlaps(&b));
    assert!(a.clip_rect(&b).is_zero_area());
    let c = rect(0, 50, 10, 60);
    assert!(!a.overlaps(&c));
    assert!(a.clip_rect(&c).is_zero_area());
}

#[test]
fn clip_with_self_is_identity() {
    let a = rect(-100, 50, 300, 400);
    assert_eq!(a.clip_rect(&a), a);
}

#[test]
fn clip_takes_the_intersection() {
    let a = rect(0, 0, 10, 10);
    let b = rect(5, 5, 20, 20);
    assert_eq!(a.clip_rect(&b), rect(5, 5, 10, 10));
}

#[test]
fn translate_moves_all_coordinates() {
    let a = rect(1, 2, 3, 4);
    assert_eq!(a.translate(10, -20), rect(11, -18, 13, -16));
}

#[test]
fn center_of_rect() {
    let a = rect(0, 0, 1920, 1080);
    assert_eq!(a.center(), (960, 540));
}

#[test]
fn bounding_box_of_empty_registry_is_zero_rect() {
    let list = MonitorList::all(Vec::new());
    assert_eq!(list.get_monitors_bounding_box(), rect(0, 0, 0, 0));
}

#[test]
fn bounding_box_of_two_monitors() {
    let list = MonitorList::all(vec![
        MonitorInfo { rect: rect(0, 0, 1920, 1080) },
        MonitorInfo { rect: rect(1920, 0, 3840, 1080) },
    ]);
    assert_eq!(list.get_monitors_bounding_box(), rect(0, 0, 3840, 1080));
}

#[test]
fn registry_filters_by_region() {
    let descriptors = vec![
        MonitorInfo { rect: rect(0, 0, 1000, 1000) },
        MonitorInfo { rect: rect(1000, 0, 2000, 1000) },
        MonitorInfo { rect: rect(4000, 0, 5000, 1000) },
    ];
    let list = MonitorList::get_by_region(descriptors, rect(500, 500, 1500, 800));
    let rects = list.monitor_rect_list();
    assert_eq!(rects, vec![rect(0, 0, 1000, 1000), rect(1000, 0, 2000, 1000)]);
    assert_eq!(list.len(), 2);
    assert_eq!(list.get(1).rect, rect(1000, 0, 2000, 1000));
}

#[test]
fn physical_geometry_is_used_directly() {
    let info = MonitorInfo::new(MonitorGeometry::Physical {
        x: -1920,
        y: 0,
        width: 1920,
        height: 1080,
    });
    assert_eq!(info.rect, rect(-1920, 0, 0, 1080));
}

#[test]
fn logical_geometry_is_scaled_to_physical_pixels() {
    let info = MonitorInfo::new(MonitorGeometry::Logical {
        x: 0,
        y: 0,
        width: 1920,
        height: 1080,
        scale_num: 2,
        scale_den: 1,
    });
    assert_eq!(info.rect, rect(0, 0, 3840, 2160));

    let shifted = MonitorInfo::new(MonitorGeometry::Logical {
        x: -101,
        y: 10,
        width: 100,
        height: 100,
        scale_num: 150,
        scale_den: 100,
    });
    // -101 * 1.5 truncates toward zero, as the platform's narrowing cast does.
    assert_eq!(shifted.rect, rect(-151, 15, -1, 165));
}

#[test]
fn fallback_geometry_is_the_zero_rect() {
    let info = MonitorInfo::new(MonitorGeometry::fallback());
    assert_eq!(info.rect, rect(0, 0, 0, 0));
}

#[test]
fn local_crop_region_is_clipped_and_translated() {
    let monitor = MonitorInfo { rect: rect(1000, 0, 2000, 1000) };
    let local = monitor.get_monitor_crop_region(rect(500, 500, 1500, 800));
    assert_eq!(local, rect(0, 500, 500, 800));
}

#[test]
fn scale_position_truncates_and_scales() {
    assert_eq!(scale_position(100, -101, 150, 100), (150, -151));
    assert_eq!(scale_position(7, 7, 1, 1), (7, 7));
}

#[test]
fn scale_factor_consistency() {
    assert!(check_monitor_scale_factors_consistent(&vec![]));
    assert!(check_monitor_scale_factors_consistent(&vec![200]));
    assert!(check_monitor_scale_factors_consistent(&vec![200, 200, 200]));
    assert!(!check_monitor_scale_factors_consistent(&vec![200, 150]));
}

#[test]
fn scope_region_prefers_the_explicit_region() {
    let region = rect(1, 2, 3, 4);
    assert_eq!(capture_scope_region(Some(region), false, 0, 0), Some(region));
    assert_eq!(capture_scope_region(None, true, 50, 60), None);
    assert_eq!(
        capture_scope_region(None, false, 50, 60),
        Some(rect(50, 60, 51, 61))
    );
}
