//! The decisions behind the orb window's commands and events. The window
//! calls themselves live with the host application; these functions take what
//! those calls returned and decide what happens next.
use vstd::prelude::*;

use crate::error::AppError;

use super::positioning::{
    clamp, clamped_x, clamped_y, resolve_saved_position, resolved_position, owned, DockEdge,
    MonitorWorkArea, OrbPosition, PhysicalPoint, PhysicalSize, WorkArea,
};

verus! {

/// The label of the orb window.
pub const ORB_WINDOW_LABEL: &'static str = "orb";

/// The message of the error an orb command from another window gets.
pub const NON_ORB_WINDOW_MESSAGE: &'static str = "orb command invoked from a non-orb window";

/// Under which key the orb position is stored in the settings table.
pub const ORB_POSITION_SETTING_KEY: &'static str = "orb.position";

/// Orb commands are accepted only from the orb window; any other label is an
/// `InvalidState` error.
pub fn ensure_orb_label(label: &str) -> (checked: Result<(), AppError>)
    ensures
        checked is Ok <==> label@ == ORB_WINDOW_LABEL@,
        checked matches Err(error) ==> error matches AppError::InvalidState(message)
            && message@ == NON_ORB_WINDOW_MESSAGE@,
{
    if label.to_owned() == ORB_WINDOW_LABEL.to_owned() {
        Ok(())
    } else {
        Err(AppError::InvalidState(NON_ORB_WINDOW_MESSAGE.to_owned()))
    }
}

/// A failed window call: `Internal("<api>: <detail>")`.
pub fn window_error(api: &str, detail: &str) -> (error: AppError)
    ensures
        error matches AppError::Internal(message) && message@ == api@ + ": "@ + detail@,
{
    let mut message = api.to_owned();
    message.append(": ");
    message.append(detail);
    AppError::Internal(message)
}

/// A platform query that came back empty: `Platform { api, code: 0 }`.
pub fn platform_unavailable(api: &str) -> (error: AppError)
    ensures
        error matches AppError::Platform { api: name, code } && name@ == api@ && code == 0,
{
    AppError::Platform { api: api.to_owned(), code: 0 }
}

/// The value a platform query returned, or, when it returned nothing, the
/// `Platform { api, code: 0 }` error.
pub fn require_platform_value<T>(value: Option<T>, api: &str) -> (required: Result<T, AppError>)
    ensures
        value matches Some(found) ==> (required matches Ok(returned) && returned == found),
        value is None ==> (required matches Err(AppError::Platform { api: name, code }) && name@ == api@ && code == 0),
{
    match value {
        Some(found) => Ok(found),
        None => Err(platform_unavailable(api)),
    }
}

/// Whether `monitor` is what the fallback to the primary monitor gives when the
/// primary-monitor query returned `queried`: the monitor it found; when it found
/// none, `Platform { api: "WebviewWindow::current_monitor", code: 0 }`; a failed
/// query's error as it is.
pub open spec fn falls_back_to_primary<M>(queried: Result<Option<M>, AppError>, monitor: Result<M, AppError>) -> bool {
    match queried {
        Ok(Some(found)) => monitor == Ok::<M, AppError>(found),
        Ok(None) => monitor matches Err(AppError::Platform { api, code })
            && api@ == "WebviewWindow::current_monitor"@ && code == 0,
        Err(error) => monitor == Err::<M, AppError>(error),
    }
}

/// The monitor the window is on, as the platform reported it (`current`); when
/// it reported none, the primary monitor, which `primary` is called to query
/// then and only then.
pub fn current_or_primary<M, F: FnOnce() -> Result<Option<M>, AppError>>(current: Option<M>, primary: F) -> (monitor: Result<M, AppError>)
    requires
        current is None ==> primary.requires(()),
    ensures
        current matches Some(found) ==> monitor == Ok::<M, AppError>(found),
        current is None ==> exists|queried: Result<Option<M>, AppError>|
            #[trigger] primary.ensures((), queried) && falls_back_to_primary(queried, monitor),
{
    match current {
        Some(found) => Ok(found),
        None => match primary() {
            Ok(Some(found)) => Ok(found),
            Ok(None) => Err(platform_unavailable("WebviewWindow::current_monitor")),
            Err(error) => Err(error),
        },
    }
}

/// `text` begins with `prefix`.
pub open spec fn starts_with(text: Seq<char>, prefix: Seq<char>) -> bool {
    text.len() >= prefix.len() && text.subrange(0, prefix.len() as int) == prefix
}

/// `<i32 as TryFrom<u32>>::try_from`: the same number when it is at most
/// `i32::MAX`, an error otherwise.
pub assume_specification[ <i32 as core::convert::TryFrom<u32>>::try_from ](value: u32) -> (converted: Result<i32, <i32 as core::convert::TryFrom<u32>>::Error>)
    ensures
        converted is Ok <==> value <= i32::MAX,
        converted matches Ok(same) ==> same == value,
;

/// `Internal("<what>: <detail>")` for a number that did not fit.
fn conversion_error(what: &str, error: std::num::TryFromIntError) -> (converted: AppError)
    ensures
        converted matches AppError::Internal(message) && exists|detail: String|
            vstd::string::to_string_from_display_ensures::<std::num::TryFromIntError>(&error, detail)
            && message@ == what@ + ": "@ + detail@,
{
    let mut message = what.to_owned();
    message.append(": ");
    message.append(error.to_string().as_str());
    AppError::Internal(message)
}

proof fn lemma_prefix_of_message(converted: AppError, what: Seq<char>, prefix: Seq<char>)
    requires
        prefix =~= what + ": "@,
        converted matches AppError::Internal(message) && exists|detail: String| message@ == what + ": "@ + detail@,
    ensures
        converted matches AppError::Internal(message) && starts_with(message@, prefix),
{
    if let AppError::Internal(message) = converted {
        let detail = choose|detail: String| message@ == what + ": "@ + detail@;
        assert(message@.subrange(0, prefix.len() as int) =~= prefix);
    }
}

/// The work area a monitor reports, as a `MonitorWorkArea`: the origin
/// `(x, y)` and the size, with right and bottom computed from them. A monitor
/// without a name is a `Platform` error for `Monitor::name`; a width or height
/// beyond `i32::MAX` is an `Internal` error; a right or bottom edge beyond the
/// `i32` range is a `Platform` error for `Monitor::work_area`.
pub fn monitor_work_area(name: Option<String>, x: i32, y: i32, width: u32, height: u32) -> (monitor: Result<MonitorWorkArea, AppError>)
    ensures
        monitor is Ok <==> name is Some && width <= i32::MAX && height <= i32::MAX
            && x + width <= i32::MAX && y + height <= i32::MAX,
        monitor matches Ok(found) ==> found@ == (
            name->0@,
            WorkArea { left: x, top: y, right: (x + width) as i32, bottom: (y + height) as i32 },
        ),
        name is None ==> (monitor matches Err(AppError::Platform { api, code }) && api@ == "Monitor::name"@ && code == 0),
        name is Some && width > i32::MAX ==> (monitor matches Err(AppError::Internal(message))
            && starts_with(message@, "Monitor::work_area width: "@)),
        name is Some && width <= i32::MAX && height > i32::MAX ==> (monitor matches Err(AppError::Internal(message))
            && starts_with(message@, "Monitor::work_area height: "@)),
        name is Some && width <= i32::MAX && height <= i32::MAX && (x + width > i32::MAX || y + height > i32::MAX)
            ==> (monitor matches Err(AppError::Platform { api, code }) && api@ == "Monitor::work_area"@ && code == 0),
{
    let name = match name {
        Some(name) => name,
        None => return Err(platform_unavailable("Monitor::name")),
    };
    let width = match i32::try_from(width) {
        Ok(width) => width,
        Err(error) => {
            let converted = conversion_error("Monitor::work_area width", error);
            proof {
                reveal_strlit("Monitor::work_area width");
                reveal_strlit(": ");
                reveal_strlit("Monitor::work_area width: ");
                lemma_prefix_of_message(converted, "Monitor::work_area width"@, "Monitor::work_area width: "@);
            }
            return Err(converted);
        },
    };
    let height = match i32::try_from(height) {
        Ok(height) => height,
        Err(error) => {
            let converted = conversion_error("Monitor::work_area height", error);
            proof {
                reveal_strlit("Monitor::work_area height");
                reveal_strlit(": ");
                reveal_strlit("Monitor::work_area height: ");
                lemma_prefix_of_message(converted, "Monitor::work_area height"@, "Monitor::work_area height: "@);
            }
            return Err(converted);
        },
    };
    let right = match x.checked_add(width) {
        Some(right) => right,
        None => return Err(platform_unavailable("Monitor::work_area")),
    };
    let bottom = match y.checked_add(height) {
        Some(bottom) => bottom,
        None => return Err(platform_unavailable("Monitor::work_area")),
    };

    Ok(MonitorWorkArea::new(name.as_str(), WorkArea::new(x, y, right, bottom)))
}


/// Some monitor in `monitors` is called `name`.
pub open spec fn has_monitor_named(monitors: Seq<MonitorWorkArea>, name: Seq<char>) -> bool {
    exists|index: int| 0 <= index < monitors.len() && #[trigger] monitors[index].name@ == name
}

/// The monitors to restore onto, given the connected monitors and the primary
/// monitor: the primary monitor is appended when no connected monitor has its
/// name. Also returns the primary monitor's name.
pub fn include_primary_monitor(monitors: Vec<MonitorWorkArea>, primary: MonitorWorkArea) -> (included: (Vec<MonitorWorkArea>, String))
    ensures
        included.1@ == primary.name@,
        has_monitor_named(monitors@, primary.name@) ==> included.0@ == monitors@,
        !has_monitor_named(monitors@, primary.name@) ==> included.0@.len() == monitors@.len() + 1
            && included.0@.subrange(0, monitors@.len() as int) == monitors@
            && included.0@.last()@ == primary@,
{
    let mut monitors = monitors;
    let mut found = false;
    let mut index: usize = 0;
    while index < monitors.len()
        invariant
            index <= monitors@.len(),
            found <==> exists|j: int| 0 <= j < index && #[trigger] monitors@[j].name@ == primary.name@,
        decreases monitors@.len() - index,
    {
        if monitors[index].name == primary.name {
            found = true;
        }
        index = index + 1;
    }
    let primary_name = primary.name.clone();
    if !found {
        monitors.push(primary);
    }
    (monitors, primary_name)
}

/// Where the orb goes on start-up or after a display change (see
/// `resolve_saved_position`); with neither the saved nor the primary monitor
/// connected, a `Platform` error for `WebviewWindow::available_monitors`.
pub fn restore_position(
    monitors: &[MonitorWorkArea],
    primary_monitor_name: &str,
    saved_position: Option<&OrbPosition>,
    size: PhysicalSize,
) -> (restored: Result<OrbPosition, AppError>)
    ensures
        resolved_position(monitors@, primary_monitor_name@, owned(saved_position), size) matches Some(expected)
            ==> (restored matches Ok(position) && position@ == expected),
        resolved_position(monitors@, primary_monitor_name@, owned(saved_position), size) is None
            ==> (restored matches Err(AppError::Platform { api, code })
                && api@ == "WebviewWindow::available_monitors"@ && code == 0),
        restored matches Ok(position) ==> position.edge == (match saved_position {
            Some(saved) => saved.edge,
            None => None,
        }),
{
    match resolve_saved_position(monitors, primary_monitor_name, saved_position, size) {
        Some(position) => Ok(position),
        None => Err(platform_unavailable("WebviewWindow::available_monitors")),
    }
}

/// Where a moved orb is kept: the reported point clamped into the work area of
/// the monitor it is on, with the edge it was saved with. The flag says whether
/// the window has to be moved there, that is, whether clamping changed the point.
pub fn moved_position(
    monitor: &MonitorWorkArea,
    size: PhysicalSize,
    physical_x: i32,
    physical_y: i32,
    saved_edge: Option<DockEdge>,
) -> (kept: (OrbPosition, bool))
    ensures
        kept.0@ == (
            monitor.name@,
            clamped_x(PhysicalPoint { x: physical_x, y: physical_y }, size, monitor.work_area),
            clamped_y(PhysicalPoint { x: physical_x, y: physical_y }, size, monitor.work_area),
            saved_edge,
        ),
        kept.1 <==> kept.0.physical_x != physical_x || kept.0.physical_y != physical_y,
{
    let clamped = clamp(PhysicalPoint::new(physical_x, physical_y), size, monitor.work_area);
    let position = OrbPosition::new(monitor.name.as_str(), clamped.x, clamped.y, saved_edge);
    let needs_move = position.physical_x != physical_x || position.physical_y != physical_y;
    (position, needs_move)
}

} // verus!
