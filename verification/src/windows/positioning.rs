//! Monitor maths for the orb: clamping into a work area, magnetic docking to
//! the nearest work-area edge, and resolving a saved position against the
//! monitors that are connected now.
use vstd::prelude::*;

verus! {

/// Distance, in physical pixels, within which a dropped orb snaps to a work-area edge.
pub const DOCK_SNAP_DISTANCE_PX: i32 = 64;

#[derive(Debug, Clone, Copy, PartialEq, Eq, Structural)]
pub struct PhysicalPoint {
    pub x: i32,
    pub y: i32,
}

impl PhysicalPoint {
    pub fn new(x: i32, y: i32) -> (point: Self)
        ensures
            point == (PhysicalPoint { x, y }),
    {
        Self { x, y }
    }
}

#[derive(Debug, Clone, Copy, PartialEq, Eq, Structural)]
pub struct PhysicalSize {
    pub width: u32,
    pub height: u32,
}

/// A length in physical pixels as a signed coordinate offset: lengths beyond
/// `i32::MAX` count as `i32::MAX`.
pub open spec fn extent(length: u32) -> int {
    if length > i32::MAX {
        i32::MAX as int
    } else {
        length as int
    }
}

impl PhysicalSize {
    pub fn new(width: u32, height: u32) -> (size: Self)
        ensures
            size == (PhysicalSize { width, height }),
    {
        Self { width, height }
    }

    pub open spec fn width_extent(self) -> int {
        extent(self.width)
    }

    pub open spec fn height_extent(self) -> int {
        extent(self.height)
    }

    fn width_as_i32(self) -> (width: i32)
        ensures
            width == self.width_extent(),
    {
        if self.width > i32::MAX as u32 {
            i32::MAX
        } else {
            self.width as i32
        }
    }

    fn height_as_i32(self) -> (height: i32)
        ensures
            height == self.height_extent(),
    {
        if self.height > i32::MAX as u32 {
            i32::MAX
        } else {
            self.height as i32
        }
    }
}

/// The usable part of a monitor (its bounds minus taskbars), in physical pixels.
#[derive(Debug, Clone, Copy, PartialEq, Eq, Structural)]
pub struct WorkArea {
    pub left: i32,
    pub top: i32,
    pub right: i32,
    pub bottom: i32,
}

impl WorkArea {
    pub fn new(left: i32, top: i32, right: i32, bottom: i32) -> (area: Self)
        ensures
            area == (WorkArea { left, top, right, bottom }),
    {
        Self { left, top, right, bottom }
    }

    /// An orb of this size fits between the work area's edges.
    pub open spec fn fits(self, size: PhysicalSize) -> bool {
        &&& self.right - self.left >= size.width_extent()
        &&& self.bottom - self.top >= size.height_extent()
    }

    /// The orb, placed at `point`, lies wholly inside the work area.
    pub open spec fn holds(self, point: PhysicalPoint, size: PhysicalSize) -> bool {
        &&& self.left <= point.x
        &&& point.x + size.width_extent() <= self.right
        &&& self.top <= point.y
        &&& point.y + size.height_extent() <= self.bottom
    }
}

#[derive(Debug, Clone, PartialEq, Eq)]
pub struct MonitorWorkArea {
    pub name: String,
    pub work_area: WorkArea,
}

impl View for MonitorWorkArea {
    type V = (Seq<char>, WorkArea);

    open spec fn view(&self) -> (Seq<char>, WorkArea) {
        (self.name@, self.work_area)
    }
}

impl MonitorWorkArea {
    pub fn new(name: &str, work_area: WorkArea) -> (monitor: Self)
        ensures
            monitor@ == (name@, work_area),
    {
        Self { name: name.to_owned(), work_area }
    }
}

#[derive(Debug, Clone, Copy, PartialEq, Eq, Structural)]
pub enum DockEdge {
    Left,
    Right,
    Top,
    Bottom,
}

#[derive(Debug, Clone, PartialEq, Eq)]
pub struct OrbPosition {
    pub monitor_name: String,
    pub physical_x: i32,
    pub physical_y: i32,
    pub edge: Option<DockEdge>,
}

/// A saved orb position as plain values: monitor name, x, y and docked edge.
impl View for OrbPosition {
    type V = (Seq<char>, int, int, Option<DockEdge>);

    open spec fn view(&self) -> (Seq<char>, int, int, Option<DockEdge>) {
        (self.monitor_name@, self.physical_x as int, self.physical_y as int, self.edge)
    }
}

impl OrbPosition {
    pub fn new(monitor_name: &str, physical_x: i32, physical_y: i32, edge: Option<DockEdge>) -> (position: Self)
        ensures
            position@ == (monitor_name@, physical_x as int, physical_y as int, edge),
    {
        Self { monitor_name: monitor_name.to_owned(), physical_x, physical_y, edge }
    }

    pub open spec fn point(self) -> PhysicalPoint {
        PhysicalPoint { x: self.physical_x, y: self.physical_y }
    }
}

/// What the orb window reports to the renderer after a drop.
#[derive(Debug, Clone, PartialEq, Eq)]
pub struct DockDto {
    pub monitor_name: String,
    pub physical_x: i32,
    pub physical_y: i32,
    pub edge: Option<DockEdge>,
}

impl From<OrbPosition> for DockDto {
    fn from(position: OrbPosition) -> (dto: Self) {
        Self {
            monitor_name: position.monitor_name,
            physical_x: position.physical_x,
            physical_y: position.physical_y,
            edge: position.edge,
        }
    }
}

impl vstd::std_specs::convert::FromSpecImpl<OrbPosition> for DockDto {
    open spec fn obeys_from_spec() -> bool {
        true
    }

    open spec fn from_spec(position: OrbPosition) -> DockDto {
        DockDto {
            monitor_name: position.monitor_name,
            physical_x: position.physical_x,
            physical_y: position.physical_y,
            edge: position.edge,
        }
    }
}

#[derive(Debug, Clone, PartialEq, Eq)]
pub struct DockedPosition {
    pub position: OrbPosition,
    pub edge: Option<DockEdge>,
}

// ---------------------------------------------------------------------------
// Saturating i32 arithmetic
// ---------------------------------------------------------------------------

/// The value an `i32` saturating operation yields for the exact result `value`.
pub open spec fn saturate(value: int) -> int {
    if value > i32::MAX {
        i32::MAX as int
    } else if value < i32::MIN {
        i32::MIN as int
    } else {
        value
    }
}

/// `i32::saturating_sub`.
fn saturating_sub(a: i32, b: i32) -> (difference: i32)
    ensures
        difference == saturate(a - b),
{
    let wide: i64 = a as i64 - b as i64;
    if wide > i32::MAX as i64 {
        i32::MAX
    } else if wide < i32::MIN as i64 {
        i32::MIN
    } else {
        wide as i32
    }
}

/// `i32::saturating_add`.
fn saturating_add(a: i32, b: i32) -> (sum: i32)
    ensures
        sum == saturate(a + b),
{
    let wide: i64 = a as i64 + b as i64;
    if wide > i32::MAX as i64 {
        i32::MAX
    } else if wide < i32::MIN as i64 {
        i32::MIN
    } else {
        wide as i32
    }
}

// ---------------------------------------------------------------------------
// Clamping
// ---------------------------------------------------------------------------

/// `value` restricted to `low ..= high` (for `low <= high`).
pub open spec fn clamp_to(value: int, low: int, high: int) -> int {
    if value < low {
        low
    } else if value > high {
        high
    } else {
        value
    }
}

/// The greatest coordinate at which an orb of length `length` still ends before
/// `high`; never below `low`.
pub open spec fn last_start(low: int, high: int, length: int) -> int {
    let limit = saturate(high - length);
    if limit < low {
        low
    } else {
        limit
    }
}

pub open spec fn clamped_x(position: PhysicalPoint, size: PhysicalSize, area: WorkArea) -> int {
    clamp_to(position.x as int, area.left as int, last_start(area.left as int, area.right as int, size.width_extent()))
}

pub open spec fn clamped_y(position: PhysicalPoint, size: PhysicalSize, area: WorkArea) -> int {
    clamp_to(position.y as int, area.top as int, last_start(area.top as int, area.bottom as int, size.height_extent()))
}

/// `i32::clamp`: `value` restricted to `low ..= high`.
fn clamp_axis(value: i32, low: i32, high: i32) -> (clamped: i32)
    requires
        low <= high,
    ensures
        clamped == clamp_to(value as int, low as int, high as int),
{
    if value < low {
        low
    } else if value > high {
        high
    } else {
        value
    }
}

/// `high.saturating_sub(length).max(low)`.
fn last_start_exec(low: i32, high: i32, length: i32) -> (limit: i32)
    requires
        length >= 0,
    ensures
        limit == last_start(low as int, high as int, length as int),
        low <= limit,
{
    let limit: i32 = saturating_sub(high, length);
    if limit < low {
        low
    } else {
        limit
    }
}

/// Moves an orb of `size` at `position` to the nearest place inside `work_area`.
/// Where the orb is wider (or taller) than the work area, it is aligned to the
/// work area's left (or top) edge.
pub fn clamp(position: PhysicalPoint, size: PhysicalSize, work_area: WorkArea) -> (clamped: PhysicalPoint)
    ensures
        clamped.x == clamped_x(position, size, work_area),
        clamped.y == clamped_y(position, size, work_area),
        work_area.fits(size) ==> work_area.holds(clamped, size),
        work_area.fits(size) && work_area.holds(position, size) ==> clamped == position,
        // each axis on its own: before the near edge goes to the near edge
        position.x < work_area.left ==> clamped.x == work_area.left,
        position.y < work_area.top ==> clamped.y == work_area.top,
        // an axis along which the orb already lies inside is kept
        work_area.left <= position.x && position.x + size.width_extent() <= work_area.right ==> clamped.x == position.x,
        work_area.top <= position.y && position.y + size.height_extent() <= work_area.bottom ==> clamped.y == position.y,
        // an overhang past the far edge ends flush with it
        work_area.left <= work_area.right - size.width_extent() < position.x ==> clamped.x == work_area.right - size.width_extent(),
        work_area.top <= work_area.bottom - size.height_extent() < position.y ==> clamped.y == work_area.bottom - size.height_extent(),
{
    let maximum_x: i32 = last_start_exec(work_area.left, work_area.right, size.width_as_i32());
    let maximum_y: i32 = last_start_exec(work_area.top, work_area.bottom, size.height_as_i32());

    PhysicalPoint::new(
        clamp_axis(position.x, work_area.left, maximum_x),
        clamp_axis(position.y, work_area.top, maximum_y),
    )
}


// ---------------------------------------------------------------------------
// Docking
// ---------------------------------------------------------------------------

/// The edges in the order in which docking considers them; on a tie the
/// earlier edge wins.
pub open spec fn edge_at(index: int) -> DockEdge {
    if index == 0 {
        DockEdge::Left
    } else if index == 1 {
        DockEdge::Right
    } else if index == 2 {
        DockEdge::Top
    } else {
        DockEdge::Bottom
    }
}

/// The gap, in saturating i32 arithmetic, between an orb of `size` at `(x, y)`
/// and one edge of `area`.
pub open spec fn edge_distance(edge: DockEdge, x: int, y: int, size: PhysicalSize, area: WorkArea) -> int {
    match edge {
        DockEdge::Left => saturate(x - area.left),
        DockEdge::Right => saturate(area.right - saturate(x + size.width_extent())),
        DockEdge::Top => saturate(y - area.top),
        DockEdge::Bottom => saturate(area.bottom - saturate(y + size.height_extent())),
    }
}

/// The nearest of the first `count` edges and its distance, starting from
/// `(Left, i32::MAX)` and taking an edge only when it is strictly nearer.
pub open spec fn nearest_among(x: int, y: int, size: PhysicalSize, area: WorkArea, count: nat) -> (DockEdge, int)
    decreases count,
{
    if count == 0 {
        (DockEdge::Left, i32::MAX as int)
    } else {
        let best = nearest_among(x, y, size, area, (count - 1) as nat);
        let distance = edge_distance(edge_at(count - 1), x, y, size, area);
        if distance < best.1 {
            (edge_at(count - 1), distance)
        } else {
            best
        }
    }
}

/// The nearest work-area edge of the clamped drop point, and its distance.
pub open spec fn nearest_edge(position: PhysicalPoint, size: PhysicalSize, area: WorkArea) -> (DockEdge, int) {
    nearest_among(clamped_x(position, size, area), clamped_y(position, size, area), size, area, 4)
}

/// The edge an orb dropped at `position` docks to, if any.
pub open spec fn docked_edge(position: PhysicalPoint, size: PhysicalSize, area: WorkArea) -> Option<DockEdge> {
    let nearest = nearest_edge(position, size, area);
    if nearest.1 <= DOCK_SNAP_DISTANCE_PX {
        Some(nearest.0)
    } else {
        None
    }
}

pub open spec fn docked_x(position: PhysicalPoint, size: PhysicalSize, area: WorkArea) -> int {
    match docked_edge(position, size, area) {
        Some(DockEdge::Left) => area.left as int,
        Some(DockEdge::Right) => saturate(area.right - size.width_extent()),
        _ => clamped_x(position, size, area),
    }
}

pub open spec fn docked_y(position: PhysicalPoint, size: PhysicalSize, area: WorkArea) -> int {
    match docked_edge(position, size, area) {
        Some(DockEdge::Top) => area.top as int,
        Some(DockEdge::Bottom) => saturate(area.bottom - size.height_extent()),
        _ => clamped_y(position, size, area),
    }
}

proof fn lemma_nearest_among_is_least(x: int, y: int, size: PhysicalSize, area: WorkArea, count: nat)
    requires
        count <= 4,
    ensures
        ({
            let best = nearest_among(x, y, size, area, count);
            &&& best.1 <= i32::MAX
            &&& forall|i: int| 0 <= i < count ==> best.1 <= #[trigger] edge_distance(edge_at(i), x, y, size, area)
            &&& count > 0 ==> exists|k: int| 0 <= k < count && #[trigger] edge_at(k) == best.0
                && edge_distance(edge_at(k), x, y, size, area) == best.1
                && forall|i: int| 0 <= i < k ==> best.1 < #[trigger] edge_distance(edge_at(i), x, y, size, area)
        }),
    decreases count,
{
    if count > 0 {
        lemma_nearest_among_is_least(x, y, size, area, (count - 1) as nat);
        let previous = nearest_among(x, y, size, area, (count - 1) as nat);
        let distance = edge_distance(edge_at(count - 1), x, y, size, area);
        assert(distance <= i32::MAX);
        if distance < previous.1 {
            let k = count - 1;
            assert(edge_at(k) == nearest_among(x, y, size, area, count).0);
        } else if count == 1 {
            assert(edge_at(0) == DockEdge::Left);
        }
    }
}

/// The nearest edge found by docking is one whose distance is least among the
/// four edges, and no edge before it in the order Left, Right, Top, Bottom is
/// as near.
pub proof fn lemma_nearest_edge_is_least(position: PhysicalPoint, size: PhysicalSize, area: WorkArea)
    ensures
        ({
            let x = clamped_x(position, size, area);
            let y = clamped_y(position, size, area);
            let nearest = nearest_edge(position, size, area);
            &&& edge_distance(nearest.0, x, y, size, area) == nearest.1
            &&& forall|edge: DockEdge| nearest.1 <= #[trigger] edge_distance(edge, x, y, size, area)
        }),
{
    let x = clamped_x(position, size, area);
    let y = clamped_y(position, size, area);
    lemma_nearest_among_is_least(x, y, size, area, 4);
    assert forall|edge: DockEdge| nearest_edge(position, size, area).1 <= #[trigger] edge_distance(edge, x, y, size, area) by {
        let i: int = match edge {
            DockEdge::Left => 0,
            DockEdge::Right => 1,
            DockEdge::Top => 2,
            DockEdge::Bottom => 3,
        };
        assert(edge_at(i) == edge);
    }
}

/// Docks an orb dropped at `position` on the monitor `monitor_name`: the point
/// is clamped into `work_area`, and if the nearest work-area edge is within
/// `DOCK_SNAP_DISTANCE_PX`, the orb snaps flush to that edge, which is recorded.
pub fn dock(position: PhysicalPoint, size: PhysicalSize, monitor_name: &str, work_area: WorkArea) -> (docked: DockedPosition)
    ensures
        docked.edge == docked_edge(position, size, work_area),
        docked.position@ == (
            monitor_name@,
            docked_x(position, size, work_area),
            docked_y(position, size, work_area),
            docked.edge,
        ),
        // it snaps exactly when the nearest edge is within the snap distance
        docked.edge is Some <==> nearest_edge(position, size, work_area).1 <= DOCK_SNAP_DISTANCE_PX,
        // to an edge no farther than any other
        docked.edge matches Some(edge) ==> forall|other: DockEdge| #[trigger] edge_distance(
            other,
            clamped_x(position, size, work_area),
            clamped_y(position, size, work_area),
            size,
            work_area,
        ) >= edge_distance(
            edge,
            clamped_x(position, size, work_area),
            clamped_y(position, size, work_area),
            size,
            work_area,
        ),
        // flush against that edge
        docked.edge == Some(DockEdge::Left) ==> docked.position.physical_x == work_area.left,
        docked.edge == Some(DockEdge::Right) ==> docked.position.physical_x == saturate(work_area.right - size.width_extent()),
        docked.edge == Some(DockEdge::Top) ==> docked.position.physical_y == work_area.top,
        docked.edge == Some(DockEdge::Bottom) ==> docked.position.physical_y == saturate(work_area.bottom - size.height_extent()),
        // otherwise it stays where clamping put it
        docked.edge is None ==> docked.position.physical_x == clamped_x(position, size, work_area)
            && docked.position.physical_y == clamped_y(position, size, work_area),
        // and a docked orb that fits never leaves the work area
        work_area.fits(size) ==> work_area.holds(docked.position.point(), size),
        // snapping moves the orb only across the edge it snaps to
        docked.edge == Some(DockEdge::Top) || docked.edge == Some(DockEdge::Bottom)
            ==> docked.position.physical_x == clamped_x(position, size, work_area),
        docked.edge == Some(DockEdge::Left) || docked.edge == Some(DockEdge::Right)
            ==> docked.position.physical_y == clamped_y(position, size, work_area),
{
    let clamped = clamp(position, size, work_area);
    let width: i32 = size.width_as_i32();
    let height: i32 = size.height_as_i32();
    let distances: [(DockEdge, i32); 4] = [
        (DockEdge::Left, saturating_sub(clamped.x, work_area.left)),
        (DockEdge::Right, saturating_sub(work_area.right, saturating_add(clamped.x, width))),
        (DockEdge::Top, saturating_sub(clamped.y, work_area.top)),
        (DockEdge::Bottom, saturating_sub(work_area.bottom, saturating_add(clamped.y, height))),
    ];
    let ghost x = clamped.x as int;
    let ghost y = clamped.y as int;
    let mut nearest_edge = DockEdge::Left;
    let mut nearest_distance: i32 = i32::MAX;
    let mut index: usize = 0;
    while index < 4
        invariant
            index <= 4,
            forall|i: int| 0 <= i < 4 ==> #[trigger] distances@[i] == (edge_at(i), edge_distance(edge_at(i), x, y, size, work_area) as i32),
            (nearest_edge, nearest_distance as int) == nearest_among(x, y, size, work_area, index as nat),
        decreases 4 - index,
    {
        let (edge, distance) = distances[index];
        if distance < nearest_distance {
            nearest_edge = edge;
            nearest_distance = distance;
        }
        index = index + 1;
    }
    let edge = if nearest_distance <= DOCK_SNAP_DISTANCE_PX {
        Some(nearest_edge)
    } else {
        None
    };
    let snapped = match edge {
        Some(DockEdge::Left) => PhysicalPoint::new(work_area.left, clamped.y),
        Some(DockEdge::Right) => PhysicalPoint::new(saturating_sub(work_area.right, width), clamped.y),
        Some(DockEdge::Top) => PhysicalPoint::new(clamped.x, work_area.top),
        Some(DockEdge::Bottom) => PhysicalPoint::new(clamped.x, saturating_sub(work_area.bottom, height)),
        None => clamped,
    };
    proof {
        lemma_nearest_edge_is_least(position, size, work_area);
    }

    DockedPosition { position: OrbPosition::new(monitor_name, snapped.x, snapped.y, edge), edge }
}


// ---------------------------------------------------------------------------
// Restoring a saved position
// ---------------------------------------------------------------------------

/// `index` is the first monitor in `monitors` called `name`.
pub open spec fn is_first_named(monitors: Seq<MonitorWorkArea>, name: Seq<char>, index: int) -> bool {
    &&& 0 <= index < monitors.len()
    &&& monitors[index].name@ == name
    &&& forall|j: int| 0 <= j < index ==> #[trigger] monitors[j].name@ != name
}

/// The index of the first monitor called `name`, if one is connected.
pub open spec fn first_named(monitors: Seq<MonitorWorkArea>, name: Seq<char>) -> Option<int> {
    if exists|index: int| is_first_named(monitors, name, index) {
        Some(choose|index: int| is_first_named(monitors, name, index))
    } else {
        None
    }
}

/// The monitor a saved position is restored to: the saved monitor if it is
/// still connected, else the primary monitor, else none.
pub open spec fn resolved_monitor(monitors: Seq<MonitorWorkArea>, primary: Seq<char>, saved: Option<OrbPosition>) -> Option<int> {
    let by_saved = match saved {
        Some(position) => first_named(monitors, position.monitor_name@),
        None => None,
    };
    if by_saved is Some {
        by_saved
    } else {
        first_named(monitors, primary)
    }
}

/// The point a restore starts from: the saved coordinates, or the top-left
/// corner of the work area when nothing was saved.
pub open spec fn restore_start(saved: Option<OrbPosition>, area: WorkArea) -> PhysicalPoint {
    match saved {
        Some(position) => position.point(),
        None => PhysicalPoint { x: area.left, y: area.top },
    }
}

/// The saved position behind an optional reference.
pub open spec fn owned(saved: Option<&OrbPosition>) -> Option<OrbPosition> {
    match saved {
        Some(position) => Some(*position),
        None => None,
    }
}

/// The restored position, as plain values.
pub open spec fn resolved_position(
    monitors: Seq<MonitorWorkArea>,
    primary: Seq<char>,
    saved: Option<OrbPosition>,
    size: PhysicalSize,
) -> Option<(Seq<char>, int, int, Option<DockEdge>)> {
    match resolved_monitor(monitors, primary, saved) {
        None => None,
        Some(index) => {
            let monitor = monitors[index];
            let start = restore_start(saved, monitor.work_area);
            let edge = match saved {
                Some(position) => position.edge,
                None => None,
            };
            Some((
                monitor.name@,
                clamped_x(start, size, monitor.work_area),
                clamped_y(start, size, monitor.work_area),
                edge,
            ))
        },
    }
}

proof fn lemma_first_named_is_unique(monitors: Seq<MonitorWorkArea>, name: Seq<char>, index: int)
    requires
        is_first_named(monitors, name, index),
    ensures
        first_named(monitors, name) == Some(index),
{
    let chosen = choose|i: int| is_first_named(monitors, name, i);
    assert(is_first_named(monitors, name, chosen));
    if chosen < index {
        assert(monitors[chosen].name@ != name);
    } else if index < chosen {
        assert(monitors[index].name@ != name);
    }
}

fn find_monitor(monitors: &[MonitorWorkArea], name: &String) -> (found: Option<usize>)
    ensures
        found matches Some(index) ==> is_first_named(monitors@, name@, index as int),
        found is None ==> forall|j: int| 0 <= j < monitors@.len() ==> #[trigger] monitors@[j].name@ != name@,
        found matches Some(index) ==> first_named(monitors@, name@) == Some(index as int),
        found is None ==> first_named(monitors@, name@) is None,
{
    let mut index: usize = 0;
    while index < monitors.len()
        invariant
            index <= monitors@.len(),
            forall|j: int| 0 <= j < index ==> #[trigger] monitors@[j].name@ != name@,
        decreases monitors@.len() - index,
    {
        if monitors[index].name == *name {
            proof {
                lemma_first_named_is_unique(monitors@, name@, index as int);
            }
            return Some(index);
        }
        index = index + 1;
    }
    None
}

/// Resolves where the orb goes on start-up: on the monitor it was saved on if
/// that monitor is still connected, otherwise on the primary monitor, clamped
/// into that monitor's work area; the saved edge is kept. `None` when neither
/// monitor is connected.
pub fn resolve_saved_position(
    monitors: &[MonitorWorkArea],
    primary_monitor_name: &str,
    saved_position: Option<&OrbPosition>,
    size: PhysicalSize,
) -> (resolved: Option<OrbPosition>)
    ensures
        resolved_position(monitors@, primary_monitor_name@, owned(saved_position), size) is None ==> resolved is None,
        resolved_position(monitors@, primary_monitor_name@, owned(saved_position), size) matches Some(expected)
            ==> resolved matches Some(position) && position@ == expected,
        // the saved dock edge is kept
        resolved matches Some(position) ==> position.edge == (match saved_position {
            Some(saved) => saved.edge,
            None => None,
        }),
{
    let mut monitor_index: Option<usize> = None;
    if let Some(saved) = saved_position {
        monitor_index = find_monitor(monitors, &saved.monitor_name);
    }
    if monitor_index.is_none() {
        let primary = primary_monitor_name.to_owned();
        monitor_index = find_monitor(monitors, &primary);
    }
    let index = match monitor_index {
        Some(index) => index,
        None => return None,
    };
    let monitor = &monitors[index];
    let point = match saved_position {
        Some(saved) => PhysicalPoint::new(saved.physical_x, saved.physical_y),
        None => PhysicalPoint::new(monitor.work_area.left, monitor.work_area.top),
    };
    let clamped = clamp(point, size, monitor.work_area);
    let edge = match saved_position {
        Some(saved) => saved.edge,
        None => None,
    };

    Some(OrbPosition::new(monitor.name.as_str(), clamped.x, clamped.y, edge))
}


// ---------------------------------------------------------------------------
// Laws
// ---------------------------------------------------------------------------

/// Clamping works on each axis alone and moves the coordinate to the nearest
/// place at which the orb starts inside the work area along that axis: a
/// coordinate before the near edge goes to the near edge, one whose orb lies
/// inside along the axis stays, one whose orb overhangs the far edge goes to
/// where it ends flush with that edge, and along an axis the orb is longer than
/// the work area it is aligned to the near edge. The other coordinate plays no
/// part. (A length beyond `i32::MAX` counts as `i32::MAX`.)
pub proof fn lemma_clamp_moves_each_axis_to_its_nearest_inside_place(position: PhysicalPoint, size: PhysicalSize, area: WorkArea)
    ensures
        ({
            let w: int = if size.width <= i32::MAX { size.width as int } else { i32::MAX as int };
            let h: int = if size.height <= i32::MAX { size.height as int } else { i32::MAX as int };
            let cx = clamped_x(position, size, area);
            let cy = clamped_y(position, size, area);
            &&& forall|other: PhysicalPoint| other.x == position.x ==> #[trigger] clamped_x(other, size, area) == cx
            &&& forall|other: PhysicalPoint| other.y == position.y ==> #[trigger] clamped_y(other, size, area) == cy
            &&& position.x < area.left ==> cx == area.left
            &&& area.left <= position.x && position.x + w <= area.right ==> cx == position.x
            &&& area.left <= area.right - w < position.x ==> cx == area.right - w
            &&& area.right - w < area.left ==> cx == area.left
            &&& position.y < area.top ==> cy == area.top
            &&& area.top <= position.y && position.y + h <= area.bottom ==> cy == position.y
            &&& area.top <= area.bottom - h < position.y ==> cy == area.bottom - h
            &&& area.bottom - h < area.top ==> cy == area.top
        }),
{
}

/// Docking snaps to an edge no farther than the snap distance and no farther
/// than any other edge, preferring the earlier of Left, Right, Top, Bottom on a
/// tie, and does not snap when every edge is farther than the snap distance.
/// It moves the clamped orb only across the edge it snaps to: flush against
/// that edge, keeping the clamped x at the top or bottom edge and the clamped y
/// at the left or right edge; an orb that does not snap stays where clamping
/// put it.
pub proof fn lemma_docking_moves_only_across_the_snapped_edge(position: PhysicalPoint, size: PhysicalSize, area: WorkArea)
    ensures
        ({
            let w: int = if size.width <= i32::MAX { size.width as int } else { i32::MAX as int };
            let h: int = if size.height <= i32::MAX { size.height as int } else { i32::MAX as int };
            let cx = clamped_x(position, size, area);
            let cy = clamped_y(position, size, area);
            let dx = docked_x(position, size, area);
            let dy = docked_y(position, size, area);
            let edge = docked_edge(position, size, area);
            &&& edge matches Some(snapped) ==> edge_distance(snapped, cx, cy, size, area) <= DOCK_SNAP_DISTANCE_PX
                && forall|other: DockEdge| edge_distance(snapped, cx, cy, size, area) <= #[trigger] edge_distance(other, cx, cy, size, area)
            &&& edge is None ==> forall|other: DockEdge| #[trigger] edge_distance(other, cx, cy, size, area) > DOCK_SNAP_DISTANCE_PX
            &&& edge == Some(DockEdge::Right) ==> edge_distance(DockEdge::Left, cx, cy, size, area) > edge_distance(DockEdge::Right, cx, cy, size, area)
            &&& edge == Some(DockEdge::Top) ==> edge_distance(DockEdge::Left, cx, cy, size, area) > edge_distance(DockEdge::Top, cx, cy, size, area)
                && edge_distance(DockEdge::Right, cx, cy, size, area) > edge_distance(DockEdge::Top, cx, cy, size, area)
            &&& edge == Some(DockEdge::Bottom) ==> edge_distance(DockEdge::Left, cx, cy, size, area) > edge_distance(DockEdge::Bottom, cx, cy, size, area)
                && edge_distance(DockEdge::Right, cx, cy, size, area) > edge_distance(DockEdge::Bottom, cx, cy, size, area)
                && edge_distance(DockEdge::Top, cx, cy, size, area) > edge_distance(DockEdge::Bottom, cx, cy, size, area)
            &&& (edge == Some(DockEdge::Top) || edge == Some(DockEdge::Bottom)) ==> dx == cx
            &&& (edge == Some(DockEdge::Left) || edge == Some(DockEdge::Right)) ==> dy == cy
            &&& edge is None ==> dx == cx && dy == cy
            &&& edge == Some(DockEdge::Left) ==> dx == area.left
            &&& edge == Some(DockEdge::Top) ==> dy == area.top
            &&& edge == Some(DockEdge::Right) && area.right - w >= i32::MIN ==> dx + w == area.right
            &&& edge == Some(DockEdge::Bottom) && area.bottom - h >= i32::MIN ==> dy + h == area.bottom
        }),
{
    let cx = clamped_x(position, size, area);
    let cy = clamped_y(position, size, area);
    lemma_nearest_edge_is_least(position, size, area);
    lemma_nearest_among_is_least(cx, cy, size, area, 4);
    let nearest = nearest_edge(position, size, area);
    let k = choose|k: int| 0 <= k < 4 && #[trigger] edge_at(k) == nearest.0
        && edge_distance(edge_at(k), cx, cy, size, area) == nearest.1
        && forall|i: int| 0 <= i < k ==> nearest.1 < #[trigger] edge_distance(edge_at(i), cx, cy, size, area);
    assert(edge_at(0) == DockEdge::Left);
    assert(edge_at(1) == DockEdge::Right);
    assert(edge_at(2) == DockEdge::Top);
    assert(edge_at(3) == DockEdge::Bottom);
    if k >= 1 {
        assert(nearest.1 < edge_distance(edge_at(0), cx, cy, size, area));
    }
    if k >= 2 {
        assert(nearest.1 < edge_distance(edge_at(1), cx, cy, size, area));
    }
    if k >= 3 {
        assert(nearest.1 < edge_distance(edge_at(2), cx, cy, size, area));
    }
    if docked_edge(position, size, area) is None {
        assert forall|other: DockEdge| #[trigger] edge_distance(other, cx, cy, size, area) > DOCK_SNAP_DISTANCE_PX by {
            assert(nearest.1 <= edge_distance(other, cx, cy, size, area));
        }
    }
}

/// Restoring keeps the saved dock edge, whichever monitor the orb lands on and
/// however far clamping moves it; with nothing saved there is no edge. A saved
/// monitor that is connected is the one restored onto, at the saved point
/// clamped into its work area.
pub proof fn lemma_restoring_keeps_the_saved_edge(
    monitors: Seq<MonitorWorkArea>,
    primary: Seq<char>,
    saved: Option<OrbPosition>,
    size: PhysicalSize,
)
    ensures
        resolved_position(monitors, primary, saved, size) matches Some(restored)
            ==> restored.3 == (match saved {
                Some(position) => position.edge,
                None => None,
            }),
        forall|index: int| #![trigger is_first_named(monitors, saved->0.monitor_name@, index)]
            saved is Some && is_first_named(monitors, saved->0.monitor_name@, index)
            ==> resolved_position(monitors, primary, saved, size) == Some((
                monitors[index].name@,
                clamped_x(saved->0.point(), size, monitors[index].work_area),
                clamped_y(saved->0.point(), size, monitors[index].work_area),
                saved->0.edge,
            )),
{
    if saved is Some {
        let name = saved->0.monitor_name@;
        assert forall|index: int| #![trigger is_first_named(monitors, name, index)]
            is_first_named(monitors, name, index)
            implies resolved_position(monitors, primary, saved, size) == Some((
                monitors[index].name@,
                clamped_x(saved->0.point(), size, monitors[index].work_area),
                clamped_y(saved->0.point(), size, monitors[index].work_area),
                saved->0.edge,
            )) by {
            lemma_first_named_is_unique(monitors, name, index);
        }
    }
}

/// Clamping an already clamped point leaves it where it is.
pub proof fn lemma_clamp_is_idempotent(position: PhysicalPoint, size: PhysicalSize, area: WorkArea, clamped: PhysicalPoint)
    requires
        clamped.x == clamped_x(position, size, area),
        clamped.y == clamped_y(position, size, area),
    ensures
        clamped_x(clamped, size, area) == clamped.x,
        clamped_y(clamped, size, area) == clamped.y,
{
}

/// An orb that fits its work area and is placed inside it is not moved by clamping.
pub proof fn lemma_clamp_keeps_an_inside_point(point: PhysicalPoint, size: PhysicalSize, area: WorkArea)
    requires
        area.fits(size),
        area.holds(point, size),
    ensures
        clamped_x(point, size, area) == point.x,
        clamped_y(point, size, area) == point.y,
{
}

/// Where an orb that fits its work area is docked, it lies wholly inside the work area.
pub proof fn lemma_docked_orb_stays_in_the_work_area(position: PhysicalPoint, size: PhysicalSize, area: WorkArea, docked: PhysicalPoint)
    requires
        area.fits(size),
        docked.x == docked_x(position, size, area),
        docked.y == docked_y(position, size, area),
    ensures
        area.holds(docked, size),
{
}

/// Dropping a docked orb again where it lies leaves it in place, and a snapped
/// orb stays snapped.
pub proof fn lemma_docking_again_keeps_the_orb_in_place(position: PhysicalPoint, size: PhysicalSize, area: WorkArea, docked: PhysicalPoint)
    requires
        area.fits(size),
        docked.x == docked_x(position, size, area),
        docked.y == docked_y(position, size, area),
    ensures
        docked_x(docked, size, area) == docked.x,
        docked_y(docked, size, area) == docked.y,
        docked_edge(position, size, area) is Some ==> docked_edge(docked, size, area) is Some,
{
    lemma_docked_orb_stays_in_the_work_area(position, size, area, docked);
    lemma_clamp_keeps_an_inside_point(docked, size, area);
    lemma_nearest_edge_is_least(position, size, area);
    lemma_nearest_edge_is_least(docked, size, area);
    let x = docked.x as int;
    let y = docked.y as int;
    let w = size.width_extent();
    let h = size.height_extent();
    // every distance from the settled point is non-negative
    assert(edge_distance(DockEdge::Left, x, y, size, area) >= 0);
    assert(edge_distance(DockEdge::Right, x, y, size, area) >= 0);
    assert(edge_distance(DockEdge::Top, x, y, size, area) >= 0);
    assert(edge_distance(DockEdge::Bottom, x, y, size, area) >= 0);
    match docked_edge(position, size, area) {
        Some(edge) => {
            assert(edge_distance(edge, x, y, size, area) == 0);
            assert(nearest_edge(docked, size, area).1 == 0);
        },
        None => {
            assert(nearest_edge(docked, size, area) == nearest_edge(position, size, area));
        },
    }
}

/// Dropping a docked orb again where it lies leaves it where it is, whether or
/// not the orb fits its work area.
pub proof fn lemma_docking_is_idempotent(position: PhysicalPoint, size: PhysicalSize, area: WorkArea, docked: PhysicalPoint)
    requires
        docked.x == docked_x(position, size, area),
        docked.y == docked_y(position, size, area),
    ensures
        docked_x(docked, size, area) == docked.x,
        docked_y(docked, size, area) == docked.y,
{
    if area.fits(size) {
        lemma_docking_again_keeps_the_orb_in_place(position, size, area, docked);
    } else {
        // Along an axis the orb does not fit, the far edge is at least as near
        // as any other, and docking to it puts the orb before the near edge,
        // where clamping brings it back; so the second docking starts from the
        // point the first one was clamped to.
        lemma_nearest_edge_is_least(position, size, area);
        let start = PhysicalPoint { x: clamped_x(position, size, area) as i32, y: clamped_y(position, size, area) as i32 };
        lemma_clamp_is_idempotent(position, size, area, start);
        let x = start.x as int;
        let y = start.y as int;
        assert(edge_distance(DockEdge::Top, x, y, size, area) >= 0);
        assert(edge_distance(DockEdge::Left, x, y, size, area) >= 0);
        if area.right - area.left < size.width_extent() {
            assert(edge_distance(DockEdge::Right, x, y, size, area) <= 0);
        } else {
            assert(edge_distance(DockEdge::Right, x, y, size, area) >= 0);
        }
        if area.bottom - area.top < size.height_extent() {
            assert(edge_distance(DockEdge::Bottom, x, y, size, area) <= 0);
        } else {
            assert(edge_distance(DockEdge::Bottom, x, y, size, area) >= 0);
        }
        assert(clamped_x(docked, size, area) == clamped_x(position, size, area));
        assert(clamped_y(docked, size, area) == clamped_y(position, size, area));
    }
}

/// A position that lies inside the work area of its still-connected monitor is
/// restored exactly as it was saved.
pub proof fn lemma_restore_keeps_a_position_inside_its_monitor(
    monitors: Seq<MonitorWorkArea>,
    primary: Seq<char>,
    saved: OrbPosition,
    size: PhysicalSize,
    index: int,
)
    requires
        first_named(monitors, saved.monitor_name@) == Some(index),
        monitors[index].work_area.fits(size),
        monitors[index].work_area.holds(saved.point(), size),
    ensures
        resolved_position(monitors, primary, Some(saved), size) == Some(saved@),
{
    let chosen = choose|i: int| is_first_named(monitors, saved.monitor_name@, i);
    assert(is_first_named(monitors, saved.monitor_name@, chosen));
    lemma_clamp_keeps_an_inside_point(saved.point(), size, monitors[index].work_area);
}

/// What docking stores is what the next start-up restores: a docked position,
/// saved on a monitor that is still connected, comes back unchanged.
pub proof fn lemma_docked_position_is_restored(
    monitors: Seq<MonitorWorkArea>,
    primary: Seq<char>,
    position: PhysicalPoint,
    size: PhysicalSize,
    index: int,
    docked: OrbPosition,
)
    requires
        first_named(monitors, docked.monitor_name@) == Some(index),
        monitors[index].work_area.fits(size),
        docked.physical_x == docked_x(position, size, monitors[index].work_area),
        docked.physical_y == docked_y(position, size, monitors[index].work_area),
        docked.edge == docked_edge(position, size, monitors[index].work_area),
    ensures
        resolved_position(monitors, primary, Some(docked), size) == Some(docked@),
{
    lemma_docked_orb_stays_in_the_work_area(position, size, monitors[index].work_area, docked.point());
    lemma_restore_keeps_a_position_inside_its_monitor(monitors, primary, docked, size, index);
}

/// When the saved monitor is gone, the orb is restored onto the primary
/// monitor, inside its work area when it fits there.
pub proof fn lemma_missing_monitor_falls_back_to_primary(
    monitors: Seq<MonitorWorkArea>,
    primary: Seq<char>,
    saved: OrbPosition,
    size: PhysicalSize,
    index: int,
)
    requires
        first_named(monitors, saved.monitor_name@) is None,
        first_named(monitors, primary) == Some(index),
    ensures
        resolved_position(monitors, primary, Some(saved), size) matches Some(restored) && restored.0 == primary
            && restored.3 == saved.edge
            && (monitors[index].work_area.fits(size) ==> monitors[index].work_area.left <= restored.1
                && restored.1 + size.width_extent() <= monitors[index].work_area.right
                && monitors[index].work_area.top <= restored.2
                && restored.2 + size.height_extent() <= monitors[index].work_area.bottom),
{
    let chosen = choose|i: int| is_first_named(monitors, primary, i);
    assert(is_first_named(monitors, primary, chosen));
}


/// Wherever a position is restored, it lies wholly inside the work area of the
/// monitor it is restored onto, when the orb fits there.
pub proof fn lemma_restored_orb_stays_in_the_work_area(
    monitors: Seq<MonitorWorkArea>,
    primary: Seq<char>,
    saved: Option<OrbPosition>,
    size: PhysicalSize,
    index: int,
)
    requires
        resolved_monitor(monitors, primary, saved) == Some(index),
        monitors[index].work_area.fits(size),
    ensures
        resolved_position(monitors, primary, saved, size) matches Some(restored)
            && restored.0 == monitors[index].name@
            && monitors[index].work_area.left <= restored.1
            && restored.1 + size.width_extent() <= monitors[index].work_area.right
            && monitors[index].work_area.top <= restored.2
            && restored.2 + size.height_extent() <= monitors[index].work_area.bottom,
{
}


/// Where a moved orb is kept (its point clamped into the work area of the
/// monitor it is on) is what the next start-up restores, while that monitor
/// is connected and the orb fits it.
pub proof fn lemma_clamped_position_is_restored(
    monitors: Seq<MonitorWorkArea>,
    primary: Seq<char>,
    moved: PhysicalPoint,
    size: PhysicalSize,
    index: int,
    kept: OrbPosition,
)
    requires
        first_named(monitors, kept.monitor_name@) == Some(index),
        monitors[index].work_area.fits(size),
        kept.physical_x == clamped_x(moved, size, monitors[index].work_area),
        kept.physical_y == clamped_y(moved, size, monitors[index].work_area),
    ensures
        resolved_position(monitors, primary, Some(kept), size) == Some(kept@),
{
    lemma_restore_keeps_a_position_inside_its_monitor(monitors, primary, kept, size, index);
}

/// Restoring an already restored position changes nothing.
pub proof fn lemma_restoring_twice_is_restoring_once(
    monitors: Seq<MonitorWorkArea>,
    primary: Seq<char>,
    saved: Option<OrbPosition>,
    size: PhysicalSize,
    restored: OrbPosition,
)
    requires
        resolved_position(monitors, primary, saved, size) == Some(restored@),
    ensures
        resolved_position(monitors, primary, Some(restored), size) == Some(restored@),
{
    let index = resolved_monitor(monitors, primary, saved)->0;
    let name = monitors[index].name@;
    let by_saved = match saved {
        Some(position) => first_named(monitors, position.monitor_name@),
        None => None,
    };
    if by_saved is Some {
        let position = saved->0;
        let chosen = choose|i: int| is_first_named(monitors, position.monitor_name@, i);
        assert(is_first_named(monitors, position.monitor_name@, chosen));
        assert(is_first_named(monitors, name, index));
    } else {
        let chosen = choose|i: int| is_first_named(monitors, primary, i);
        assert(is_first_named(monitors, primary, chosen));
        assert(is_first_named(monitors, name, index));
    }
    lemma_first_named_is_unique(monitors, name, index);
    let area = monitors[index].work_area;
    let start = restore_start(saved, area);
    lemma_clamp_is_idempotent(start, size, area, restored.point());
}

} // verus!
