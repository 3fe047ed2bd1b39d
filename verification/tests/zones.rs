use box_overlay::geometry::{Point, Rect, UNITS_PER_POINT};
use box_overlay::zones::{
    drag, zone_at, Command, CursorIcon, ResizeDirection, Zone, ZoneLayout, FIRST_BAND, SECOND_BAND,
};

fn rect(min_x: i32, min_y: i32, max_x: i32, max_y: i32) -> Rect {
    Rect::from_min_max(Point { x: min_x, y: min_y }, Point { x: max_x, y: max_y })
}

fn window_400_by_100() -> Rect {
    rect(0, 0, 400 * UNITS_PER_POINT, 100 * UNITS_PER_POINT)
}

#[test]
fn the_bands_take_a_fifth_and_three_quarters_of_the_rest() {
    assert_eq!(FIRST_BAND, (1, 5));
    assert_eq!(SECOND_BAND, (3, 4));
}

#[test]
fn layout_of_a_400_by_100_window() {
    let u = UNITS_PER_POINT;
    let layout = ZoneLayout::new(window_400_by_100());
    assert_eq!(layout.north_west, rect(0, 0, 80 * u, 20 * u));
    assert_eq!(layout.north, rect(80 * u, 0, 320 * u, 20 * u));
    assert_eq!(layout.north_east, rect(320 * u, 0, 400 * u, 20 * u));
    assert_eq!(layout.west, rect(0, 20 * u, 80 * u, 80 * u));
    assert_eq!(layout.center, rect(80 * u, 20 * u, 320 * u, 80 * u));
    assert_eq!(layout.east, rect(320 * u, 20 * u, 400 * u, 80 * u));
    assert_eq!(layout.south_west, rect(0, 80 * u, 80 * u, 100 * u));
    assert_eq!(layout.south, rect(80 * u, 80 * u, 320 * u, 100 * u));
    assert_eq!(layout.south_east, rect(320 * u, 80 * u, 400 * u, 100 * u));
}

#[test]
fn layout_of_a_window_away_from_the_origin() {
    let layout = ZoneLayout::new(rect(-100, 1000, 0, 1010));
    assert_eq!(layout.north_west, rect(-100, 1000, -80, 1002));
    assert_eq!(layout.center, rect(-80, 1002, -20, 1008));
    assert_eq!(layout.south_east, rect(-20, 1008, 0, 1010));
}

#[test]
fn layout_rounds_the_cuts_down() {
    let layout = ZoneLayout::new(rect(0, 0, 7, 3));
    assert_eq!(layout.north_west, rect(0, 0, 1, 0));
    assert_eq!(layout.center, rect(1, 0, 5, 2));
    assert_eq!(layout.south_east, rect(5, 2, 7, 3));
}

#[test]
fn layout_rect_picks_the_zone() {
    let layout = ZoneLayout::new(window_400_by_100());
    assert_eq!(layout.rect(Zone::NorthWest), layout.north_west);
    assert_eq!(layout.rect(Zone::North), layout.north);
    assert_eq!(layout.rect(Zone::NorthEast), layout.north_east);
    assert_eq!(layout.rect(Zone::West), layout.west);
    assert_eq!(layout.rect(Zone::Center), layout.center);
    assert_eq!(layout.rect(Zone::East), layout.east);
    assert_eq!(layout.rect(Zone::SouthWest), layout.south_west);
    assert_eq!(layout.rect(Zone::South), layout.south);
    assert_eq!(layout.rect(Zone::SouthEast), layout.south_east);
}

fn check_partition(window: Rect, margin: i32, step: usize) {
    let layout = ZoneLayout::new(window);
    let zones = Zone::all();
    for x in (window.min.x.min(window.max.x) - margin..=window.min.x.max(window.max.x) + margin)
        .step_by(step)
    {
        for y in (window.min.y.min(window.max.y) - margin..=window.min.y.max(window.max.y) + margin)
            .step_by(step)
        {
            let p = Point { x, y };
            let holding: Vec<Zone> =
                zones.iter().copied().filter(|z| layout.rect(*z).contains(p)).collect();
            if window.contains(p) {
                assert_eq!(holding.len(), 1);
                assert_eq!(zone_at(window, p), Some(holding[0]));
            } else {
                assert!(holding.is_empty());
                assert_eq!(zone_at(window, p), None);
            }
        }
    }
}

#[test]
fn the_zones_part_the_window() {
    check_partition(rect(0, 0, 40, 10), 3, 1);
    check_partition(rect(-17, 5, 6, 28), 3, 1);
    check_partition(window_400_by_100(), 640, 320);
}

#[test]
fn the_zones_part_a_window_of_one_unit() {
    let window = rect(3, 3, 4, 4);
    check_partition(window, 2, 1);
    assert_eq!(zone_at(window, Point { x: 3, y: 3 }), Some(Zone::SouthEast));
}

#[test]
fn the_zones_part_small_windows() {
    for width in 1..=12 {
        for height in 1..=12 {
            check_partition(rect(0, 0, width, height), 1, 1);
        }
    }
}

#[test]
fn an_empty_or_inverted_window_has_no_zone_anywhere() {
    check_partition(rect(0, 0, 0, 10), 2, 1);
    check_partition(rect(10, 10, 0, 0), 2, 1);
    check_partition(rect(0, 9, 20, 2), 2, 1);
}

#[test]
fn the_zones_part_the_widest_window() {
    let window = rect(i32::MIN, i32::MIN, i32::MAX, i32::MAX);
    let layout = ZoneLayout::new(window);
    assert_eq!(layout.center.min, Point { x: -1288490189, y: -1288490189 });
    assert_eq!(layout.center.max, Point { x: 1288490188, y: 1288490188 });
    assert_eq!(zone_at(window, Point { x: i32::MIN, y: i32::MIN }), Some(Zone::NorthWest));
    assert_eq!(zone_at(window, Point { x: 0, y: 0 }), Some(Zone::Center));
    assert_eq!(zone_at(window, Point { x: i32::MAX - 1, y: 0 }), Some(Zone::East));
    assert_eq!(zone_at(window, Point { x: i32::MAX, y: 0 }), None);
}

#[test]
fn hit_test_in_a_400_by_100_window() {
    let u = UNITS_PER_POINT;
    let window = window_400_by_100();
    assert_eq!(zone_at(window, Point { x: 0, y: 0 }), Some(Zone::NorthWest));
    assert_eq!(zone_at(window, Point { x: 200 * u, y: 10 * u }), Some(Zone::North));
    assert_eq!(zone_at(window, Point { x: 399 * u, y: 0 }), Some(Zone::NorthEast));
    assert_eq!(zone_at(window, Point { x: 10 * u, y: 50 * u }), Some(Zone::West));
    assert_eq!(zone_at(window, Point { x: 200 * u, y: 50 * u }), Some(Zone::Center));
    assert_eq!(zone_at(window, Point { x: 350 * u, y: 50 * u }), Some(Zone::East));
    assert_eq!(zone_at(window, Point { x: 10 * u, y: 90 * u }), Some(Zone::SouthWest));
    assert_eq!(zone_at(window, Point { x: 200 * u, y: 90 * u }), Some(Zone::South));
    assert_eq!(zone_at(window, Point { x: 399 * u, y: 99 * u }), Some(Zone::SouthEast));
    assert_eq!(zone_at(window, Point { x: 400 * u, y: 50 * u }), None);
    assert_eq!(zone_at(window, Point { x: 200 * u, y: 100 * u }), None);
    assert_eq!(zone_at(window, Point { x: -1, y: 50 * u }), None);
}

#[test]
fn hit_test_on_the_cuts() {
    let u = UNITS_PER_POINT;
    let window = window_400_by_100();
    assert_eq!(zone_at(window, Point { x: 80 * u - 1, y: 20 * u - 1 }), Some(Zone::NorthWest));
    assert_eq!(zone_at(window, Point { x: 80 * u, y: 20 * u - 1 }), Some(Zone::North));
    assert_eq!(zone_at(window, Point { x: 80 * u - 1, y: 20 * u }), Some(Zone::West));
    assert_eq!(zone_at(window, Point { x: 80 * u, y: 20 * u }), Some(Zone::Center));
    assert_eq!(zone_at(window, Point { x: 320 * u - 1, y: 80 * u - 1 }), Some(Zone::Center));
    assert_eq!(zone_at(window, Point { x: 320 * u, y: 80 * u - 1 }), Some(Zone::East));
    assert_eq!(zone_at(window, Point { x: 320 * u - 1, y: 80 * u }), Some(Zone::South));
    assert_eq!(zone_at(window, Point { x: 320 * u, y: 80 * u }), Some(Zone::SouthEast));
}

#[test]
fn all_lists_the_nine_zones_once() {
    let zones = Zone::all();
    assert_eq!(
        zones,
        [
            Zone::NorthWest,
            Zone::North,
            Zone::NorthEast,
            Zone::West,
            Zone::Center,
            Zone::East,
            Zone::SouthWest,
            Zone::South,
            Zone::SouthEast,
        ]
    );
}

#[test]
fn each_zone_has_its_name() {
    assert_eq!(Zone::NorthWest.name(), "northwest");
    assert_eq!(Zone::North.name(), "north");
    assert_eq!(Zone::NorthEast.name(), "northeast");
    assert_eq!(Zone::West.name(), "west");
    assert_eq!(Zone::Center.name(), "center");
    assert_eq!(Zone::East.name(), "east");
    assert_eq!(Zone::SouthWest.name(), "southwest");
    assert_eq!(Zone::South.name(), "south");
    assert_eq!(Zone::SouthEast.name(), "southeast");
}

#[test]
fn no_two_zones_share_a_name_a_command_or_a_cursor() {
    let zones = Zone::all();
    for a in zones {
        for b in zones {
            if a != b {
                assert_ne!(a.name(), b.name());
                assert_ne!(a.command(), b.command());
                assert_ne!(a.cursor_icon(true), b.cursor_icon(true));
            }
        }
    }
}

#[test]
fn edges_and_corners_resize_in_their_direction() {
    assert_eq!(Zone::NorthWest.resize_direction(), Some(ResizeDirection::NorthWest));
    assert_eq!(Zone::North.resize_direction(), Some(ResizeDirection::North));
    assert_eq!(Zone::NorthEast.resize_direction(), Some(ResizeDirection::NorthEast));
    assert_eq!(Zone::West.resize_direction(), Some(ResizeDirection::West));
    assert_eq!(Zone::East.resize_direction(), Some(ResizeDirection::East));
    assert_eq!(Zone::SouthWest.resize_direction(), Some(ResizeDirection::SouthWest));
    assert_eq!(Zone::South.resize_direction(), Some(ResizeDirection::South));
    assert_eq!(Zone::SouthEast.resize_direction(), Some(ResizeDirection::SouthEast));
    assert_eq!(Zone::Center.resize_direction(), None);
}

#[test]
fn a_drag_on_a_zone_resizes_or_moves() {
    assert_eq!(Zone::NorthWest.command(), Command::BeginResize(ResizeDirection::NorthWest));
    assert_eq!(Zone::North.command(), Command::BeginResize(ResizeDirection::North));
    assert_eq!(Zone::NorthEast.command(), Command::BeginResize(ResizeDirection::NorthEast));
    assert_eq!(Zone::West.command(), Command::BeginResize(ResizeDirection::West));
    assert_eq!(Zone::Center.command(), Command::BeginMove);
    assert_eq!(Zone::East.command(), Command::BeginResize(ResizeDirection::East));
    assert_eq!(Zone::SouthWest.command(), Command::BeginResize(ResizeDirection::SouthWest));
    assert_eq!(Zone::South.command(), Command::BeginResize(ResizeDirection::South));
    assert_eq!(Zone::SouthEast.command(), Command::BeginResize(ResizeDirection::SouthEast));
}

#[test]
fn a_shown_cursor_tells_what_a_drag_would_do() {
    assert_eq!(Zone::NorthWest.cursor_icon(true), CursorIcon::ResizeNorthWest);
    assert_eq!(Zone::North.cursor_icon(true), CursorIcon::ResizeNorth);
    assert_eq!(Zone::NorthEast.cursor_icon(true), CursorIcon::ResizeNorthEast);
    assert_eq!(Zone::West.cursor_icon(true), CursorIcon::ResizeWest);
    assert_eq!(Zone::Center.cursor_icon(true), CursorIcon::Grabbing);
    assert_eq!(Zone::East.cursor_icon(true), CursorIcon::ResizeEast);
    assert_eq!(Zone::SouthWest.cursor_icon(true), CursorIcon::ResizeSouthWest);
    assert_eq!(Zone::South.cursor_icon(true), CursorIcon::ResizeSouth);
    assert_eq!(Zone::SouthEast.cursor_icon(true), CursorIcon::ResizeSouthEast);
}

#[test]
fn a_hidden_cursor_is_hidden_over_every_zone() {
    for zone in Zone::all() {
        assert_eq!(zone.cursor_icon(false), CursorIcon::Hidden);
    }
}

#[test]
fn drag_begins_a_resize_only_when_a_drag_started() {
    assert_eq!(
        drag(true, ResizeDirection::NorthEast),
        Some(Command::BeginResize(ResizeDirection::NorthEast))
    );
    assert_eq!(drag(true, ResizeDirection::South), Some(Command::BeginResize(ResizeDirection::South)));
    assert_eq!(drag(false, ResizeDirection::NorthEast), None);
}
