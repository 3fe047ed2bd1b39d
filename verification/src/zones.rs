//! The nine interaction zones of the window: where they lie, what a drag
//! that starts on one of them does, and which cursor each one shows.

use vstd::prelude::*;
use crate::geometry::{lemma_lerp_between, lerp_spec, Point, Rect};

verus! {

/// One of the nine parts of the window: four corners, four edges, and the
/// centre.
#[derive(Clone, Copy, Debug, PartialEq, Eq)]
pub enum Zone {
    NorthWest,
    North,
    NorthEast,
    West,
    Center,
    East,
    SouthWest,
    South,
    SouthEast,
}

/// The side or corner of the window that a resize moves.
#[derive(Clone, Copy, Debug, PartialEq, Eq)]
pub enum ResizeDirection {
    North,
    South,
    East,
    West,
    NorthEast,
    SouthEast,
    NorthWest,
    SouthWest,
}

/// The cursor shown over a zone; `Hidden` shows no cursor at all.
#[derive(Clone, Copy, Debug, PartialEq, Eq)]
pub enum CursorIcon {
    Hidden,
    Grabbing,
    ResizeNorth,
    ResizeSouth,
    ResizeEast,
    ResizeWest,
    ResizeNorthEast,
    ResizeNorthWest,
    ResizeSouthEast,
    ResizeSouthWest,
}

/// What the window host is asked to do.
#[derive(Clone, Copy, Debug, PartialEq, Eq)]
pub enum Command {
    /// Start resizing the window by the given side or corner.
    BeginResize(ResizeDirection),
    /// Start moving the window.
    BeginMove,
    /// Close the window.
    Close,
}

/// The first band takes this fraction of a side: a fifth.
pub const FIRST_BAND: (u32, u32) = (1, 5);

/// The second band takes this fraction of what the first one left: three
/// quarters. The third band takes the rest.
pub const SECOND_BAND: (u32, u32) = (3, 4);

/// Where the first band ends between `lo` and `hi`.
pub open spec fn first_cut(lo: int, hi: int) -> int {
    lerp_spec(lo, hi, FIRST_BAND.0 as int, FIRST_BAND.1 as int)
}

/// Where the second band ends between `lo` and `hi`.
pub open spec fn second_cut(lo: int, hi: int) -> int {
    lerp_spec(first_cut(lo, hi), hi, SECOND_BAND.0 as int, SECOND_BAND.1 as int)
}

/// The boundary before band `k` of the three bands between `lo` and `hi`;
/// for `k` = 3, the end of the last one.
pub open spec fn cut(k: int, lo: int, hi: int) -> int {
    if k <= 0 {
        lo
    } else if k == 1 {
        first_cut(lo, hi)
    } else if k == 2 {
        second_cut(lo, hi)
    } else {
        hi
    }
}

/// The band between `lo` and `hi` that holds `v`, if `v` lies at or after
/// `lo` and before `hi`.
pub open spec fn band_of(v: int, lo: int, hi: int) -> int {
    if v < first_cut(lo, hi) {
        0
    } else if v < second_cut(lo, hi) {
        1
    } else {
        2
    }
}

/// The four boundaries between `lo` and `hi` stand in the order of `lo` and
/// `hi`.
pub proof fn lemma_cuts_ordered(lo: int, hi: int)
    ensures
        lo <= hi ==> lo <= first_cut(lo, hi) <= second_cut(lo, hi) <= hi,
        hi <= lo ==> hi <= second_cut(lo, hi) <= first_cut(lo, hi) <= lo,
{
    lemma_lerp_between(lo, hi, 1, 5);
    lemma_lerp_between(first_cut(lo, hi), hi, 3, 4);
}

impl Zone {
    /// The column of the zone, counted from the west.
    pub open spec fn column(self) -> int {
        match self {
            Zone::NorthWest | Zone::West | Zone::SouthWest => 0,
            Zone::North | Zone::Center | Zone::South => 1,
            Zone::NorthEast | Zone::East | Zone::SouthEast => 2,
        }
    }

    /// The row of the zone, counted from the north.
    pub open spec fn row(self) -> int {
        match self {
            Zone::NorthWest | Zone::North | Zone::NorthEast => 0,
            Zone::West | Zone::Center | Zone::East => 1,
            Zone::SouthWest | Zone::South | Zone::SouthEast => 2,
        }
    }

    /// The zone in the given column and row.
    pub open spec fn in_grid(column: int, row: int) -> Zone {
        if row <= 0 {
            if column <= 0 {
                Zone::NorthWest
            } else if column == 1 {
                Zone::North
            } else {
                Zone::NorthEast
            }
        } else if row == 1 {
            if column <= 0 {
                Zone::West
            } else if column == 1 {
                Zone::Center
            } else {
                Zone::East
            }
        } else {
            if column <= 0 {
                Zone::SouthWest
            } else if column == 1 {
                Zone::South
            } else {
                Zone::SouthEast
            }
        }
    }

    /// The rectangle of the zone in a window: its column's band of the
    /// width, and its row's band of the height.
    pub open spec fn rect_spec(self, window: Rect) -> Rect {
        Rect {
            min: Point {
                x: cut(self.column(), window.min.x as int, window.max.x as int) as i32,
                y: cut(self.row(), window.min.y as int, window.max.y as int) as i32,
            },
            max: Point {
                x: cut(self.column() + 1, window.min.x as int, window.max.x as int) as i32,
                y: cut(self.row() + 1, window.min.y as int, window.max.y as int) as i32,
            },
        }
    }

    /// The side or corner that a drag on the zone resizes; none for the
    /// centre, which moves the window.
    pub open spec fn resize_direction_spec(self) -> Option<ResizeDirection> {
        match self {
            Zone::NorthWest => Some(ResizeDirection::NorthWest),
            Zone::North => Some(ResizeDirection::North),
            Zone::NorthEast => Some(ResizeDirection::NorthEast),
            Zone::West => Some(ResizeDirection::West),
            Zone::Center => None,
            Zone::East => Some(ResizeDirection::East),
            Zone::SouthWest => Some(ResizeDirection::SouthWest),
            Zone::South => Some(ResizeDirection::South),
            Zone::SouthEast => Some(ResizeDirection::SouthEast),
        }
    }

    /// What a primary-button drag that starts on the zone asks of the host.
    pub open spec fn command_spec(self) -> Command {
        match self.resize_direction_spec() {
            Some(direction) => Command::BeginResize(direction),
            None => Command::BeginMove,
        }
    }

    /// The cursor over the zone while the cursor is shown.
    pub open spec fn visible_icon(self) -> CursorIcon {
        match self {
            Zone::NorthWest => CursorIcon::ResizeNorthWest,
            Zone::North => CursorIcon::ResizeNorth,
            Zone::NorthEast => CursorIcon::ResizeNorthEast,
            Zone::West => CursorIcon::ResizeWest,
            Zone::Center => CursorIcon::Grabbing,
            Zone::East => CursorIcon::ResizeEast,
            Zone::SouthWest => CursorIcon::ResizeSouthWest,
            Zone::South => CursorIcon::ResizeSouth,
            Zone::SouthEast => CursorIcon::ResizeSouthEast,
        }
    }

    /// The cursor over the zone: the visible one, or none while the cursor
    /// is hidden.
    pub open spec fn cursor_icon_spec(self, show_cursor: bool) -> CursorIcon {
        if show_cursor {
            self.visible_icon()
        } else {
            CursorIcon::Hidden
        }
    }

    /// The name under which the zone is registered with the host.
    pub open spec fn name_spec(self) -> Seq<char> {
        match self {
            Zone::NorthWest => "northwest"@,
            Zone::North => "north"@,
            Zone::NorthEast => "northeast"@,
            Zone::West => "west"@,
            Zone::Center => "center"@,
            Zone::East => "east"@,
            Zone::SouthWest => "southwest"@,
            Zone::South => "south"@,
            Zone::SouthEast => "southeast"@,
        }
    }

    /// The name under which the zone is registered with the host. It is the
    /// same in every frame, and no two zones share it.
    pub fn name(self) -> (name: &'static str)
        ensures
            name@ == self.name_spec(),
    {
        match self {
            Zone::NorthWest => "northwest",
            Zone::North => "north",
            Zone::NorthEast => "northeast",
            Zone::West => "west",
            Zone::Center => "center",
            Zone::East => "east",
            Zone::SouthWest => "southwest",
            Zone::South => "south",
            Zone::SouthEast => "southeast",
        }
    }

    /// The nine zones, row by row from the north-west corner.
    pub fn all() -> (zones: [Zone; 9])
        ensures
            zones@ == seq![
                Zone::NorthWest,
                Zone::North,
                Zone::NorthEast,
                Zone::West,
                Zone::Center,
                Zone::East,
                Zone::SouthWest,
                Zone::South,
                Zone::SouthEast,
            ],
    {
        let zones = [
            Zone::NorthWest,
            Zone::North,
            Zone::NorthEast,
            Zone::West,
            Zone::Center,
            Zone::East,
            Zone::SouthWest,
            Zone::South,
            Zone::SouthEast,
        ];
        assert(zones@ =~= seq![
            Zone::NorthWest,
            Zone::North,
            Zone::NorthEast,
            Zone::West,
            Zone::Center,
            Zone::East,
            Zone::SouthWest,
            Zone::South,
            Zone::SouthEast,
        ]);
        zones
    }

    /// The side or corner that a drag on the zone resizes; none for the
    /// centre.
    pub fn resize_direction(self) -> (direction: Option<ResizeDirection>)
        ensures
            direction == self.resize_direction_spec(),
    {
        match self {
            Zone::NorthWest => Some(ResizeDirection::NorthWest),
            Zone::North => Some(ResizeDirection::North),
            Zone::NorthEast => Some(ResizeDirection::NorthEast),
            Zone::West => Some(ResizeDirection::West),
            Zone::Center => None,
            Zone::East => Some(ResizeDirection::East),
            Zone::SouthWest => Some(ResizeDirection::SouthWest),
            Zone::South => Some(ResizeDirection::South),
            Zone::SouthEast => Some(ResizeDirection::SouthEast),
        }
    }

    /// What a primary-button drag that starts on the zone asks of the host:
    /// a resize by the zone's side or corner, or a move for the centre.
    pub fn command(self) -> (command: Command)
        ensures
            command == self.command_spec(),
    {
        match self.resize_direction() {
            Some(direction) => Command::BeginResize(direction),
            None => Command::BeginMove,
        }
    }

    /// The cursor to show over the zone: the one that tells what a drag
    /// would do while the cursor is shown, and none while it is hidden.
    pub fn cursor_icon(self, show_cursor: bool) -> (icon: CursorIcon)
        ensures
            icon == self.cursor_icon_spec(show_cursor),
    {
        if !show_cursor {
            return CursorIcon::Hidden;
        }
        match self {
            Zone::NorthWest => CursorIcon::ResizeNorthWest,
            Zone::North => CursorIcon::ResizeNorth,
            Zone::NorthEast => CursorIcon::ResizeNorthEast,
            Zone::West => CursorIcon::ResizeWest,
            Zone::Center => CursorIcon::Grabbing,
            Zone::East => CursorIcon::ResizeEast,
            Zone::SouthWest => CursorIcon::ResizeSouthWest,
            Zone::South => CursorIcon::ResizeSouth,
            Zone::SouthEast => CursorIcon::ResizeSouthEast,
        }
    }
}

/// No two zones share a name, a command or a visible cursor: the host can
/// key a zone by its name, and a command or a cursor tells the zone.
pub proof fn lemma_zones_told_apart(a: Zone, b: Zone)
    requires
        a != b,
    ensures
        a.name_spec() != b.name_spec(),
        a.command_spec() != b.command_spec(),
        a.visible_icon() != b.visible_icon(),
{
    reveal_strlit("northwest");
    reveal_strlit("north");
    reveal_strlit("northeast");
    reveal_strlit("west");
    reveal_strlit("center");
    reveal_strlit("east");
    reveal_strlit("southwest");
    reveal_strlit("south");
    reveal_strlit("southeast");
    let (s, t) = (a.name_spec(), b.name_spec());
    if s.len() == t.len() && s[0] == t[0] {
        assert(s.len() == 9);
        assert(s[5] != t[5]);
    }
}

/// The rectangles of the nine zones of one window.
#[derive(Clone, Copy, Debug, PartialEq, Eq)]
pub struct ZoneLayout {
    pub north_west: Rect,
    pub north: Rect,
    pub north_east: Rect,
    pub west: Rect,
    pub center: Rect,
    pub east: Rect,
    pub south_west: Rect,
    pub south: Rect,
    pub south_east: Rect,
}

impl ZoneLayout {
    /// The rectangle that the layout holds for `zone`.
    pub open spec fn rect_spec(self, zone: Zone) -> Rect {
        match zone {
            Zone::NorthWest => self.north_west,
            Zone::North => self.north,
            Zone::NorthEast => self.north_east,
            Zone::West => self.west,
            Zone::Center => self.center,
            Zone::East => self.east,
            Zone::SouthWest => self.south_west,
            Zone::South => self.south,
            Zone::SouthEast => self.south_east,
        }
    }

    /// The layout of a window: each zone with its band of the width and its
    /// band of the height.
    pub open spec fn of(window: Rect) -> ZoneLayout {
        ZoneLayout {
            north_west: Zone::NorthWest.rect_spec(window),
            north: Zone::North.rect_spec(window),
            north_east: Zone::NorthEast.rect_spec(window),
            west: Zone::West.rect_spec(window),
            center: Zone::Center.rect_spec(window),
            east: Zone::East.rect_spec(window),
            south_west: Zone::SouthWest.rect_spec(window),
            south: Zone::South.rect_spec(window),
            south_east: Zone::SouthEast.rect_spec(window),
        }
    }

    /// Cuts the window into a west, a middle and an east column, and each
    /// column into a north, a centre and a south part.
    pub fn new(window: Rect) -> (layout: ZoneLayout)
        ensures
            layout == ZoneLayout::of(window),
    {
        proof {
            lemma_cuts_ordered(window.min.x as int, window.max.x as int);
            lemma_cuts_ordered(window.min.y as int, window.max.y as int);
        }
        let (west, east) = window.split_left_right_at_fraction(FIRST_BAND.0, FIRST_BAND.1);
        let (middle, east) = east.split_left_right_at_fraction(SECOND_BAND.0, SECOND_BAND.1);

        let (north_west, south_west) = west.split_top_bottom_at_fraction(FIRST_BAND.0, FIRST_BAND.1);
        let (west, south_west) = south_west.split_top_bottom_at_fraction(
            SECOND_BAND.0,
            SECOND_BAND.1,
        );

        let (north_east, south_east) = east.split_top_bottom_at_fraction(FIRST_BAND.0, FIRST_BAND.1);
        let (east, south_east) = south_east.split_top_bottom_at_fraction(
            SECOND_BAND.0,
            SECOND_BAND.1,
        );

        let (north, center) = middle.split_top_bottom_at_fraction(FIRST_BAND.0, FIRST_BAND.1);
        let (center, south) = center.split_top_bottom_at_fraction(SECOND_BAND.0, SECOND_BAND.1);

        ZoneLayout {
            north_west,
            north,
            north_east,
            west,
            center,
            east,
            south_west,
            south,
            south_east,
        }
    }

    /// The rectangle of `zone`.
    pub fn rect(&self, zone: Zone) -> (rect: Rect)
        ensures
            rect == self.rect_spec(zone),
    {
        match zone {
            Zone::NorthWest => self.north_west,
            Zone::North => self.north,
            Zone::NorthEast => self.north_east,
            Zone::West => self.west,
            Zone::Center => self.center,
            Zone::East => self.east,
            Zone::SouthWest => self.south_west,
            Zone::South => self.south,
            Zone::SouthEast => self.south_east,
        }
    }
}

/// The zone of the window that holds `p`, if `p` lies in the window.
pub open spec fn zone_at_spec(window: Rect, p: Point) -> Option<Zone> {
    if window.contains_spec(p) {
        Some(
            Zone::in_grid(
                band_of(p.x as int, window.min.x as int, window.max.x as int),
                band_of(p.y as int, window.min.y as int, window.max.y as int),
            ),
        )
    } else {
        None
    }
}

/// The nine zones part the window: a point of the window lies in exactly one
/// zone, the one that `zone_at_spec` names, and a point outside the window
/// lies in none.
pub proof fn lemma_zones_partition(window: Rect, p: Point)
    ensures
        forall|zone: Zone|
            zone_at_spec(window, p) == Some(zone) <==> (#[trigger] zone.rect_spec(
                window,
            )).contains_spec(p),
        window.contains_spec(p) <==> exists|zone: Zone|
            (#[trigger] zone.rect_spec(window)).contains_spec(p),
        forall|a: Zone, b: Zone|
            a != b ==> !((#[trigger] a.rect_spec(window)).contains_spec(p) && (
            #[trigger] b.rect_spec(window)).contains_spec(p)),
{
    lemma_cuts_ordered(window.min.x as int, window.max.x as int);
    lemma_cuts_ordered(window.min.y as int, window.max.y as int);
    assert forall|zone: Zone|
        zone_at_spec(window, p) == Some(zone) <==> (#[trigger] zone.rect_spec(
            window,
        )).contains_spec(p) by {
        match zone {
            Zone::NorthWest => {},
            Zone::North => {},
            Zone::NorthEast => {},
            Zone::West => {},
            Zone::Center => {},
            Zone::East => {},
            Zone::SouthWest => {},
            Zone::South => {},
            Zone::SouthEast => {},
        }
    }
    if window.contains_spec(p) {
        let zone = zone_at_spec(window, p)->0;
        assert(zone.rect_spec(window).contains_spec(p));
    }
}

/// Hit test: the zone of the window under `p`.
pub fn zone_at(window: Rect, p: Point) -> (hit: Option<Zone>)
    ensures
        hit == zone_at_spec(window, p),
        hit is Some <==> window.contains_spec(p),
        forall|zone: Zone|
            hit == Some(zone) <==> (#[trigger] zone.rect_spec(window)).contains_spec(p),
{
    proof {
        lemma_zones_partition(window, p);
    }
    let layout = ZoneLayout::new(window);
    if layout.north_west.contains(p) {
        Some(Zone::NorthWest)
    } else if layout.north.contains(p) {
        Some(Zone::North)
    } else if layout.north_east.contains(p) {
        Some(Zone::NorthEast)
    } else if layout.west.contains(p) {
        Some(Zone::West)
    } else if layout.center.contains(p) {
        Some(Zone::Center)
    } else if layout.east.contains(p) {
        Some(Zone::East)
    } else if layout.south_west.contains(p) {
        Some(Zone::SouthWest)
    } else if layout.south.contains(p) {
        Some(Zone::South)
    } else if layout.south_east.contains(p) {
        Some(Zone::SouthEast)
    } else {
        None
    }
}

/// What the host is asked to do when it reports whether a primary-button
/// drag has started on an edge or corner zone: to begin the resize in the
/// zone's direction if one has, and nothing otherwise.
pub fn drag(drag_started: bool, direction: ResizeDirection) -> (command: Option<Command>)
    ensures
        command == if drag_started {
            Some(Command::BeginResize(direction))
        } else {
            None
        },
{
    if drag_started {
        Some(Command::BeginResize(direction))
    } else {
        None
    }
}

} // verus!
