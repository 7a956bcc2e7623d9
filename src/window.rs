use vstd::prelude::*;

use crate::executor::{HideRun, HideRunView};
use crate::geometry::Rect;

verus! {

/// What `String::from_utf16_lossy` makes of a run of UTF-16 code units.
pub uninterp spec fn utf16_lossy_of(units: Seq<u16>) -> Seq<char>;

/// Relies on `String::from_utf16_lossy`: the result depends on the code
/// units alone, and every code unit, or surrogate pair, gives exactly one
/// character (a lone surrogate gives U+FFFD), so a non-empty input never
/// decodes to an empty string nor to more characters than code units.
#[verifier::external_body]
fn from_utf16_lossy(units: &[u16]) -> (r: String)
    ensures
        r@ == utf16_lossy_of(units@),
        units@.len() == 0 ==> r@.len() == 0,
        units@.len() > 0 ==> r@.len() > 0,
        r@.len() <= units@.len(),
{
    String::from_utf16_lossy(units)
}

/// The text a window-text query wrote into `buffer`, when it reported `len`
/// code units: nothing when the query reported none (the window has no text,
/// or the handle no longer resolves) or more than the buffer holds.
pub open spec fn spec_text_from_buffer(buffer: Seq<u16>, len: int) -> Option<Seq<char>> {
    if 0 < len <= buffer.len() {
        Some(utf16_lossy_of(buffer.take(len)))
    } else {
        None
    }
}

/// Decodes the first `len` code units of a text buffer filled by a window
/// title or class-name query.
pub fn text_from_buffer(buffer: &[u16], len: i32) -> (r: Option<String>)
    ensures
        r is Some <==> 0 < len <= buffer@.len(),
        r matches Some(s) ==> Some(s@) == spec_text_from_buffer(buffer@, len as int)
            && s@.len() > 0,
{
    if len <= 0 || len as usize > buffer.len() {
        return None;
    }
    let n = len as usize;
    let mut units: Vec<u16> = Vec::new();
    let mut i: usize = 0;
    while i < n
        invariant
            n <= buffer@.len(),
            i <= n,
            units@ == buffer@.take(i as int),
        decreases n - i,
    {
        units.push(buffer[i]);
        i = i + 1;
        assert(units@ =~= buffer@.take(i as int));
    }
    let s = from_utf16_lossy(units.as_slice());
    Some(s)
}

/// What the window-information query reports of a window: its style flags
/// and its bounding rectangle.
#[derive(Clone, Copy, Debug, PartialEq, Eq, Structural)]
pub struct WindowFrame {
    /// The window carries the visible style.
    pub visible: bool,
    /// The window carries the child style.
    pub child: bool,
    /// The window's bounding rectangle.
    pub rect: Rect,
}

/// Reads the compositor's cloaked attribute of a window, as the attribute
/// query returned it: `None` where the query failed, else whether the
/// value is non-zero.
pub fn is_window_cloaked(attribute: Option<u32>) -> (r: Option<bool>)
    ensures
        r == (match attribute {
            Some(v) => Some(v != 0),
            None => None::<bool>,
        }),
{
    match attribute {
        Some(v) => Some(v != 0),
        None => None,
    }
}

/// The attributes of one top-level window, read once for one decision.
/// An attribute whose query failed (the window was destroyed meanwhile) is
/// `None`.
#[derive(Debug)]
pub struct WindowSnapshot {
    /// The window's handle value.
    pub handle: usize,
    /// The handle value of the monitor the window is predominantly on.
    pub monitor: usize,
    /// The window's title.
    pub title: Option<String>,
    /// Style flags and rectangle.
    pub frame: Option<WindowFrame>,
    /// The window is minimized.
    pub iconic: bool,
    /// The window has an owner window.
    pub has_owner: bool,
    /// The window carries the app-window extended style.
    pub app_window: bool,
    /// The compositor has cloaked the window.
    pub cloaked: Option<bool>,
    /// The window's class name.
    pub class_name: Option<String>,
}

/// The monitor whose windows are to be hidden.
#[derive(Clone, Copy, Debug, PartialEq, Eq, Structural)]
pub struct MonitorView {
    /// The monitor's handle value.
    pub handle: usize,
    /// The monitor's work area: its rectangle without the taskbar and other
    /// reserved regions.
    pub work_area: Option<Rect>,
}

/// Shell windows that are never minimized: the desktop icon host, the
/// generic button container, the app-frame host and the modern core window.
pub open spec fn is_denied_class(name: Seq<char>) -> bool {
    name == "Progman"@ || name == "Button"@ || name == "ApplicationFrameWindow"@ || name
        == "Windows.UI.Core.CoreWindow"@
}

pub open spec fn on_monitor(w: WindowSnapshot, target: MonitorView) -> bool {
    w.monitor == target.handle
}

pub open spec fn has_title(w: WindowSnapshot) -> bool {
    w.title matches Some(t) && t@.len() > 0
}

pub open spec fn is_visible_top_level(w: WindowSnapshot) -> bool {
    w.frame matches Some(f) && f.visible && !f.child
}

pub open spec fn is_restored_and_independent(w: WindowSnapshot) -> bool {
    !w.iconic && (!w.has_owner || w.app_window)
}

pub open spec fn is_uncloaked(w: WindowSnapshot) -> bool {
    w.cloaked == Some(false)
}

pub open spec fn is_in_work_area(w: WindowSnapshot, target: MonitorView) -> bool {
    w.frame matches Some(f) && target.work_area matches Some(a) && a.spec_intersects(f.rect)
}

/// The class name could be read and is not on the deny-list.
pub open spec fn is_allowed_class(w: WindowSnapshot) -> bool {
    w.class_name matches Some(c) && !is_denied_class(c@)
}

/// A window is hidden with the others on `target` when it passes every check.
pub open spec fn should_hide(w: WindowSnapshot, target: MonitorView) -> bool {
    &&& on_monitor(w, target)
    &&& has_title(w)
    &&& is_visible_top_level(w)
    &&& is_restored_and_independent(w)
    &&& is_uncloaked(w)
    &&& is_in_work_area(w, target)
    &&& is_allowed_class(w)
}

fn is_denied_class_name(name: &String) -> (r: bool)
    ensures
        r == is_denied_class(name@),
{
    let progman: String = "Progman".to_owned();
    let button: String = "Button".to_owned();
    let frame_host: String = "ApplicationFrameWindow".to_owned();
    let core_window: String = "Windows.UI.Core.CoreWindow".to_owned();
    *name == progman || *name == button || *name == frame_host || *name == core_window
}

/// Whether a window on `window_monitor` can be hidden on `target` at all:
/// a window on another monitor is rejected whatever its other attributes,
/// so they need not be read.
pub fn is_on_target_monitor(window_monitor: usize, target: &MonitorView) -> (r: bool)
    ensures
        r == (window_monitor == target.handle),
        forall|w: WindowSnapshot| w.monitor == window_monitor && !r ==> !should_hide(w, *target),
{
    window_monitor == target.handle
}

/// Decides whether `window` is hidden with the other windows on `target`.
/// The checks run in a fixed order and stop at the first that rejects.
pub fn window_should_hide(window: &WindowSnapshot, target: &MonitorView) -> (r: bool)
    ensures
        r == should_hide(*window, *target),
        !has_title(*window) ==> !r,
        window.monitor != target.handle ==> !r,
        (window.class_name matches Some(c) && is_denied_class(c@)) ==> !r,
        (on_monitor(*window, *target) && has_title(*window) && is_visible_top_level(*window)
            && is_restored_and_independent(*window) && is_uncloaked(*window) && is_in_work_area(
            *window,
            *target,
        ) && is_allowed_class(*window)) ==> r,
{
    if window.monitor != target.handle {
        return false;
    }
    match &window.title {
        Some(t) => {
            if t.as_str().is_empty() {
                return false;
            }
        },
        None => {
            return false;
        },
    }
    let frame = match window.frame {
        Some(f) => f,
        None => {
            return false;
        },
    };
    if frame.child || !frame.visible {
        return false;
    }
    if window.iconic || (window.has_owner && !window.app_window) {
        return false;
    }
    match window.cloaked {
        Some(c) => {
            if c {
                return false;
            }
        },
        None => {
            return false;
        },
    }
    match target.work_area {
        Some(area) => {
            if !area.intersects(&frame.rect) {
                return false;
            }
        },
        None => {
            return false;
        },
    }
    match &window.class_name {
        Some(c) => {
            if is_denied_class_name(c) {
                return false;
            }
        },
        None => {
            return false;
        },
    }
    true
}

/// The handles of the windows in `windows` that are hidden on `target`, in
/// the order of `windows`.
pub open spec fn hide_targets(windows: Seq<WindowSnapshot>, target: MonitorView) -> Seq<usize>
    decreases windows.len(),
{
    if windows.len() == 0 {
        Seq::empty()
    } else {
        let rest = hide_targets(windows.drop_last(), target);
        if should_hide(windows.last(), target) {
            rest.push(windows.last().handle)
        } else {
            rest
        }
    }
}

/// The foreground window, or the monitor it is on, could not be resolved.
#[derive(Clone, Copy, Debug, PartialEq, Eq, Structural)]
pub struct NoActiveMonitor;

/// A window handle value resolves when it is not null.
pub open spec fn window_resolves(handle: usize) -> bool {
    handle != 0
}

/// A monitor handle value resolves when it is neither null nor all ones.
pub open spec fn monitor_resolves(handle: usize) -> bool {
    handle != 0 && handle != usize::MAX
}

/// The monitor to hide windows on: the one that holds the foreground window.
pub fn resolve_active_monitor(foreground: usize, monitor: usize) -> (r: Result<
    usize,
    NoActiveMonitor,
>)
    ensures
        r is Err <==> !window_resolves(foreground) || !monitor_resolves(monitor),
        r matches Ok(m) ==> m == monitor,
{
    if foreground == 0 || monitor == 0 || monitor == usize::MAX {
        Err(NoActiveMonitor)
    } else {
        Ok(monitor)
    }
}

/// Keeps, in enumeration order, the handles of the windows that are hidden
/// on `target`.
pub fn collect_windows_to_hide(target: &MonitorView, windows: &Vec<WindowSnapshot>) -> (r: Vec<
    usize,
>)
    ensures
        r@ == hide_targets(windows@, *target),
{
    let mut out: Vec<usize> = Vec::new();
    let mut i: usize = 0;
    while i < windows.len()
        invariant
            i <= windows@.len(),
            out@ == hide_targets(windows@.take(i as int), *target),
        decreases windows.len() - i,
    {
        let w = &windows[i];
        if window_should_hide(w, target) {
            out.push(w.handle);
        }
        assert(windows@.take(i + 1).drop_last() =~= windows@.take(i as int));
        i = i + 1;
    }
    assert(windows@.take(i as int) =~= windows@);
    out
}

/// One hide transaction: resolves the monitor of the foreground window and
/// sets up a run over the windows on it that are to be hidden. Where the
/// foreground window or its monitor does not resolve, no run is made, so no
/// window is touched.
pub fn hide_windows_on_active_monitor(
    foreground: usize,
    monitor: usize,
    work_area: Option<Rect>,
    windows: &Vec<WindowSnapshot>,
) -> (r: Result<HideRun, NoActiveMonitor>)
    ensures
        r is Err <==> !window_resolves(foreground) || !monitor_resolves(monitor),
        r matches Ok(run) ==> run@ == HideRunView::start(
            hide_targets(windows@, MonitorView { handle: monitor, work_area }),
        ) && run@.wf(),
{
    let handle = match resolve_active_monitor(foreground, monitor) {
        Ok(m) => m,
        Err(e) => {
            return Err(e);
        },
    };
    let target = MonitorView { handle, work_area };
    let targets = collect_windows_to_hide(&target, windows);
    Ok(HideRun::new(targets))
}

/// The window as it is after a minimize request.
pub open spec fn minimized(w: WindowSnapshot) -> WindowSnapshot {
    WindowSnapshot { iconic: true, ..w }
}

/// The windows after each one whose handle is in `handles` was minimized.
pub open spec fn minimize_all(windows: Seq<WindowSnapshot>, handles: Seq<usize>) -> Seq<
    WindowSnapshot,
> {
    windows.map_values(
        |w: WindowSnapshot|
            if handles.contains(w.handle) {
                minimized(w)
            } else {
                w
            },
    )
}

proof fn lemma_targets_in_windows(windows: Seq<WindowSnapshot>, target: MonitorView, k: int)
    requires
        0 <= k < windows.len(),
        should_hide(windows[k], target),
    ensures
        hide_targets(windows, target).contains(windows[k].handle),
    decreases windows.len(),
{
    let rest = hide_targets(windows.drop_last(), target);
    if k == windows.len() - 1 {
        assert(hide_targets(windows, target).last() == windows[k].handle);
    } else {
        lemma_targets_in_windows(windows.drop_last(), target, k);
        let i = choose|i: int| 0 <= i < rest.len() && rest[i] == windows[k].handle;
        if should_hide(windows.last(), target) {
            assert(hide_targets(windows, target)[i] == windows[k].handle);
        }
    }
}

proof fn lemma_nothing_left(windows: Seq<WindowSnapshot>, target: MonitorView, handles: Seq<usize>)
    requires
        forall|k: int|
            0 <= k < windows.len() && should_hide(windows[k], target) ==> handles.contains(
                windows[k].handle,
            ),
    ensures
        hide_targets(minimize_all(windows, handles), target) == Seq::<usize>::empty(),
    decreases windows.len(),
{
    if windows.len() > 0 {
        let after = minimize_all(windows, handles);
        assert(after.drop_last() =~= minimize_all(windows.drop_last(), handles));
        lemma_nothing_left(windows.drop_last(), target, handles);
        assert(!should_hide(after.last(), target));
    }
}

/// Hiding is idempotent: once every window a transaction selected has been
/// minimized, minimizing them again leaves every window as it is, and a
/// second transaction on the same windows selects none of them.
pub proof fn lemma_hide_twice(windows: Seq<WindowSnapshot>, target: MonitorView)
    ensures
        ({
            let handles = hide_targets(windows, target);
            let once = minimize_all(windows, handles);
            &&& minimize_all(once, handles) == once
            &&& hide_targets(once, target) == Seq::<usize>::empty()
        }),
{
    let handles = hide_targets(windows, target);
    let once = minimize_all(windows, handles);
    assert forall|k: int|
        0 <= k < windows.len() && should_hide(windows[k], target) implies handles.contains(
        windows[k].handle,
    ) by {
        lemma_targets_in_windows(windows, target, k);
    }
    lemma_nothing_left(windows, target, handles);
    assert(minimize_all(once, handles) =~= once);
}

} // verus!
