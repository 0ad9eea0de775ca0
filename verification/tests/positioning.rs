use trident::windows::positioning::{
    clamp, dock, resolve_saved_position, DockDto, DockEdge, MonitorWorkArea, OrbPosition,
    PhysicalPoint, PhysicalSize, WorkArea, DOCK_SNAP_DISTANCE_PX,
};

const ORB_SIZE: PhysicalSize = PhysicalSize { width: 240, height: 44 };

fn primary() -> MonitorWorkArea {
    MonitorWorkArea::new("DISPLAY1", WorkArea::new(0, 0, 1_000, 800))
}

#[test]
fn clamps_an_orb_to_the_work_area_instead_of_the_monitor_bounds() {
    let position = clamp(PhysicalPoint::new(999, 799), ORB_SIZE, primary().work_area);

    assert_eq!(position, PhysicalPoint::new(760, 756));
}

#[test]
fn snaps_at_the_exact_docking_threshold() {
    let docked = dock(
        PhysicalPoint::new(64, 200),
        ORB_SIZE,
        &primary().name,
        primary().work_area,
    );

    assert_eq!(docked.edge, Some(DockEdge::Left));
    assert_eq!(docked.position.physical_x, 0);
}

#[test]
fn snaps_one_pixel_inside_the_docking_threshold() {
    let docked = dock(
        PhysicalPoint::new(63, 200),
        ORB_SIZE,
        &primary().name,
        primary().work_area,
    );

    assert_eq!(docked.edge, Some(DockEdge::Left));
    assert_eq!(docked.position.physical_x, 0);
}

#[test]
fn keeps_a_position_undocked_beyond_the_docking_threshold() {
    let docked = dock(
        PhysicalPoint::new(65, 200),
        ORB_SIZE,
        &primary().name,
        primary().work_area,
    );

    assert_eq!(docked.edge, None);
    assert_eq!(docked.position.physical_x, 65);
}

#[test]
fn falls_back_to_the_primary_monitor_when_the_saved_monitor_is_missing() {
    let saved = OrbPosition::new("DISCONNECTED", 1_500, 10, Some(DockEdge::Right));

    let primary = primary();
    let resolved = resolve_saved_position(
        std::slice::from_ref(&primary),
        &primary.name,
        Some(&saved),
        ORB_SIZE,
    );

    assert_eq!(
        resolved,
        Some(OrbPosition::new("DISPLAY1", 760, 10, Some(DockEdge::Right)))
    );
}

#[test]
fn returns_none_when_no_primary_monitor_is_available() {
    let resolved = resolve_saved_position(&[], "DISPLAY1", None, ORB_SIZE);

    assert_eq!(resolved, None);
}

#[test]
fn clamps_an_orb_wider_than_the_work_area_to_its_left_and_top_edges() {
    let narrow = WorkArea::new(100, 50, 300, 80);

    let position = clamp(PhysicalPoint::new(250, 70), ORB_SIZE, narrow);

    assert_eq!(position, PhysicalPoint::new(100, 50));
}

#[test]
fn clamps_a_point_left_of_and_above_the_work_area() {
    let area = WorkArea::new(-1_920, 40, 0, 1_080);

    let position = clamp(PhysicalPoint::new(-5_000, -20), ORB_SIZE, area);

    assert_eq!(position, PhysicalPoint::new(-1_920, 40));
}

#[test]
fn leaves_a_point_inside_the_work_area_unclamped() {
    let position = clamp(PhysicalPoint::new(300, 300), ORB_SIZE, primary().work_area);

    assert_eq!(position, PhysicalPoint::new(300, 300));
}

#[test]
fn clamping_twice_is_clamping_once() {
    let once = clamp(PhysicalPoint::new(2_000, -50), ORB_SIZE, primary().work_area);
    let twice = clamp(once, ORB_SIZE, primary().work_area);

    assert_eq!(once, twice);
}

#[test]
fn clamps_a_size_beyond_i32_as_i32_max() {
    let huge = PhysicalSize::new(u32::MAX, u32::MAX);

    let position = clamp(PhysicalPoint::new(10, 10), huge, WorkArea::new(0, 0, 100, 100));

    assert_eq!(position, PhysicalPoint::new(0, 0));
}

#[test]
fn snaps_flush_to_the_right_edge() {
    let docked = dock(PhysicalPoint::new(720, 300), ORB_SIZE, "DISPLAY1", primary().work_area);

    assert_eq!(docked.edge, Some(DockEdge::Right));
    assert_eq!(docked.position.physical_x, 760);
    assert_eq!(docked.position.physical_y, 300);
    assert_eq!(docked.position.edge, Some(DockEdge::Right));
    assert_eq!(docked.position.monitor_name, "DISPLAY1");
}

#[test]
fn snaps_flush_to_the_top_edge() {
    let docked = dock(PhysicalPoint::new(400, 30), ORB_SIZE, "DISPLAY1", primary().work_area);

    assert_eq!(docked.edge, Some(DockEdge::Top));
    assert_eq!(docked.position.physical_x, 400);
    assert_eq!(docked.position.physical_y, 0);
}

#[test]
fn snaps_flush_to_the_bottom_edge() {
    let docked = dock(PhysicalPoint::new(400, 700), ORB_SIZE, "DISPLAY1", primary().work_area);

    assert_eq!(docked.edge, Some(DockEdge::Bottom));
    assert_eq!(docked.position.physical_y, 756);
}

#[test]
fn prefers_the_earlier_edge_on_a_tie() {
    // 10 pixels from both the left and the top edge
    let docked = dock(PhysicalPoint::new(10, 10), ORB_SIZE, "DISPLAY1", primary().work_area);

    assert_eq!(docked.edge, Some(DockEdge::Left));
    assert_eq!(docked.position.physical_x, 0);
    assert_eq!(docked.position.physical_y, 10);
}

#[test]
fn snaps_to_the_nearer_of_two_close_edges() {
    // 40 pixels from the left, 20 from the top
    let docked = dock(PhysicalPoint::new(40, 20), ORB_SIZE, "DISPLAY1", primary().work_area);

    assert_eq!(docked.edge, Some(DockEdge::Top));
    assert_eq!(docked.position.physical_x, 40);
    assert_eq!(docked.position.physical_y, 0);
}

#[test]
fn docks_a_point_dropped_outside_the_work_area_after_clamping_it() {
    let docked = dock(PhysicalPoint::new(5_000, 400), ORB_SIZE, "DISPLAY1", primary().work_area);

    assert_eq!(docked.edge, Some(DockEdge::Right));
    assert_eq!(docked.position.physical_x, 760);
    assert_eq!(docked.position.physical_y, 400);
}

#[test]
fn the_snap_distance_is_sixty_four_pixels() {
    assert_eq!(DOCK_SNAP_DISTANCE_PX, 64);
}

#[test]
fn docking_a_docked_orb_again_keeps_it_in_place() {
    let area = primary().work_area;
    let first = dock(PhysicalPoint::new(710, 500), ORB_SIZE, "DISPLAY1", area);
    let again = dock(
        PhysicalPoint::new(first.position.physical_x, first.position.physical_y),
        ORB_SIZE,
        "DISPLAY1",
        area,
    );

    assert_eq!(first.edge, Some(DockEdge::Right));
    assert_eq!(again.position, first.position);
}

#[test]
fn a_docked_position_is_restored_on_the_same_monitor() {
    let secondary = MonitorWorkArea::new("DISPLAY2", WorkArea::new(1_000, 0, 2_920, 1_040));
    let monitors = vec![primary(), secondary.clone()];
    let docked = dock(PhysicalPoint::new(2_900, 500), ORB_SIZE, &secondary.name, secondary.work_area);

    let restored = resolve_saved_position(&monitors, "DISPLAY1", Some(&docked.position), ORB_SIZE);

    assert_eq!(restored, Some(docked.position.clone()));
    assert_eq!(docked.position, OrbPosition::new("DISPLAY2", 2_680, 500, Some(DockEdge::Right)));
}

#[test]
fn restores_onto_the_saved_monitor_when_it_is_connected() {
    let secondary = MonitorWorkArea::new("DISPLAY2", WorkArea::new(1_000, 0, 2_920, 1_040));
    let monitors = vec![primary(), secondary];
    let saved = OrbPosition::new("DISPLAY2", 5_000, -40, None);

    let restored = resolve_saved_position(&monitors, "DISPLAY1", Some(&saved), ORB_SIZE);

    assert_eq!(restored, Some(OrbPosition::new("DISPLAY2", 2_680, 0, None)));
}

#[test]
fn places_the_orb_at_the_primary_work_area_corner_when_nothing_was_saved() {
    let monitors = vec![MonitorWorkArea::new("DISPLAY1", WorkArea::new(0, 40, 1_000, 800))];

    let restored = resolve_saved_position(&monitors, "DISPLAY1", None, ORB_SIZE);

    assert_eq!(restored, Some(OrbPosition::new("DISPLAY1", 0, 40, None)));
}

#[test]
fn uses_the_first_of_two_monitors_with_the_same_name() {
    let monitors = vec![
        MonitorWorkArea::new("DISPLAY1", WorkArea::new(0, 0, 1_000, 800)),
        MonitorWorkArea::new("DISPLAY1", WorkArea::new(5_000, 0, 6_000, 800)),
    ];
    let saved = OrbPosition::new("DISPLAY1", 5_500, 100, None);

    let restored = resolve_saved_position(&monitors, "DISPLAY1", Some(&saved), ORB_SIZE);

    assert_eq!(restored, Some(OrbPosition::new("DISPLAY1", 760, 100, None)));
}

#[test]
fn converts_a_position_into_the_dock_report() {
    let position = OrbPosition::new("DISPLAY1", 0, 200, Some(DockEdge::Left));

    let dto = DockDto::from(position);

    assert_eq!(
        dto,
        DockDto {
            monitor_name: "DISPLAY1".to_owned(),
            physical_x: 0,
            physical_y: 200,
            edge: Some(DockEdge::Left),
        }
    );
}

#[test]
fn builds_plain_values_with_the_constructors() {
    assert_eq!(PhysicalPoint::new(3, -4), PhysicalPoint { x: 3, y: -4 });
    assert_eq!(PhysicalSize::new(240, 44), ORB_SIZE);
    assert_eq!(
        WorkArea::new(1, 2, 3, 4),
        WorkArea { left: 1, top: 2, right: 3, bottom: 4 }
    );
    assert_eq!(primary().name, "DISPLAY1");
}

#[test]
fn docking_an_orb_wider_than_its_work_area_again_keeps_it_in_place() {
    let area = WorkArea::new(0, 0, 100, 1_000);
    let size = PhysicalSize::new(200, 50);
    let first = dock(PhysicalPoint::new(30, 500), size, "DISPLAY1", area);
    let again = dock(
        PhysicalPoint::new(first.position.physical_x, first.position.physical_y),
        size,
        "DISPLAY1",
        area,
    );

    assert_eq!(first.edge, Some(DockEdge::Right));
    assert_eq!(first.position.physical_x, -100);
    assert_eq!(first.position.physical_y, 500);
    assert_eq!(again.position, first.position);
}

#[test]
fn restoring_a_restored_position_again_changes_nothing() {
    let monitors = vec![
        MonitorWorkArea::new("DISPLAY1", WorkArea::new(0, 0, 100, 100)),
        MonitorWorkArea::new("DISPLAY2", WorkArea::new(100, 0, 1_100, 800)),
    ];
    let saved = OrbPosition::new("DISPLAY1", 5_000, -40, Some(DockEdge::Top));
    let first = match resolve_saved_position(&monitors, "DISPLAY2", Some(&saved), ORB_SIZE) {
        Some(position) => position,
        None => panic!("the saved monitor is connected"),
    };
    let again = resolve_saved_position(&monitors, "DISPLAY2", Some(&first), ORB_SIZE);

    assert_eq!(first, OrbPosition::new("DISPLAY1", 0, 0, Some(DockEdge::Top)));
    assert_eq!(again, Some(first));
}
