use hide_desktop::executor::{HideAction, HideOutcome};
use hide_desktop::geometry::Rect;
use hide_desktop::window::{
    collect_windows_to_hide, hide_windows_on_active_monitor, is_on_target_monitor, is_window_cloaked,
    resolve_active_monitor, text_from_buffer, window_should_hide, MonitorView, NoActiveMonitor,
    WindowFrame, WindowSnapshot,
};

const M1: usize = 0x1001;
const M2: usize = 0x1002;

fn work_area() -> Rect {
    Rect { left: 0, top: 0, right: 1920, bottom: 1040 }
}

fn target(handle: usize) -> MonitorView {
    MonitorView { handle, work_area: Some(work_area()) }
}

fn eligible(handle: usize, monitor: usize) -> WindowSnapshot {
    WindowSnapshot {
        handle,
        monitor,
        title: Some("Document - Editor".to_string()),
        frame: Some(WindowFrame {
            visible: true,
            child: false,
            rect: Rect { left: 100, top: 100, right: 900, bottom: 700 },
        }),
        iconic: false,
        has_owner: false,
        app_window: false,
        cloaked: Some(false),
        class_name: Some("Notepad".to_string()),
    }
}

#[test]
fn eligible_window_is_hidden() {
    assert!(window_should_hide(&eligible(1, M1), &target(M1)));
}

#[test]
fn owned_app_window_is_hidden() {
    let mut w = eligible(1, M1);
    w.has_owner = true;
    w.app_window = true;
    assert!(window_should_hide(&w, &target(M1)));
}

#[test]
fn owned_tool_window_is_kept() {
    let mut w = eligible(1, M1);
    w.has_owner = true;
    assert!(!window_should_hide(&w, &target(M1)));
}

#[test]
fn empty_title_is_kept() {
    let mut w = eligible(1, M1);
    w.title = Some(String::new());
    assert!(!window_should_hide(&w, &target(M1)));
    w.title = None;
    assert!(!window_should_hide(&w, &target(M1)));
    w.monitor = M2;
    assert!(!window_should_hide(&w, &target(M2)));
}

#[test]
fn other_monitor_is_kept() {
    let w = eligible(1, M2);
    assert!(!window_should_hide(&w, &target(M1)));
    assert!(window_should_hide(&w, &target(M2)));
}

#[test]
fn hidden_or_child_window_is_kept() {
    let mut w = eligible(1, M1);
    w.frame = Some(WindowFrame { visible: false, child: false, rect: work_area() });
    assert!(!window_should_hide(&w, &target(M1)));
    w.frame = Some(WindowFrame { visible: true, child: true, rect: work_area() });
    assert!(!window_should_hide(&w, &target(M1)));
    w.frame = None;
    assert!(!window_should_hide(&w, &target(M1)));
}

#[test]
fn minimized_window_is_kept() {
    let mut w = eligible(1, M1);
    w.iconic = true;
    assert!(!window_should_hide(&w, &target(M1)));
}

#[test]
fn cloaked_window_is_kept() {
    let mut w = eligible(1, M1);
    w.cloaked = Some(true);
    assert!(!window_should_hide(&w, &target(M1)));
    w.cloaked = None;
    assert!(!window_should_hide(&w, &target(M1)));
}

#[test]
fn window_outside_work_area_is_kept() {
    let mut w = eligible(1, M1);
    w.frame = Some(WindowFrame {
        visible: true,
        child: false,
        rect: Rect { left: 1920, top: 0, right: 2400, bottom: 600 },
    });
    assert!(!window_should_hide(&w, &target(M1)));
    let no_area = MonitorView { handle: M1, work_area: None };
    assert!(!window_should_hide(&eligible(1, M1), &no_area));
}

#[test]
fn denied_class_names_are_kept() {
    for name in ["Progman", "Button", "ApplicationFrameWindow", "Windows.UI.Core.CoreWindow"] {
        let mut w = eligible(1, M1);
        w.class_name = Some(name.to_string());
        assert!(!window_should_hide(&w, &target(M1)), "{}", name);
    }
    let mut w = eligible(1, M1);
    w.class_name = Some("progman".to_string());
    assert!(window_should_hide(&w, &target(M1)));
    w.class_name = Some("Button2".to_string());
    assert!(window_should_hide(&w, &target(M1)));
}

#[test]
fn unreadable_class_name_is_kept() {
    let mut w = eligible(1, M1);
    w.class_name = None;
    assert!(!window_should_hide(&w, &target(M1)));
}

#[test]
fn monitor_precheck() {
    assert!(is_on_target_monitor(M1, &target(M1)));
    assert!(!is_on_target_monitor(M2, &target(M1)));
}

#[test]
fn active_monitor_resolution() {
    assert_eq!(resolve_active_monitor(0x10, M1), Ok(M1));
    assert_eq!(resolve_active_monitor(0, M1), Err(NoActiveMonitor));
    assert_eq!(resolve_active_monitor(0x10, 0), Err(NoActiveMonitor));
    assert_eq!(resolve_active_monitor(0x10, usize::MAX), Err(NoActiveMonitor));
}

#[test]
fn hides_exactly_the_eligible_window_on_the_active_monitor() {
    let foreground = eligible(0xF, M1);
    let a = eligible(0xA, M1);
    let b = eligible(0xB, M2);
    let mut c = eligible(0xC, M1);
    c.cloaked = Some(true);
    let windows = vec![b, c, a];
    let run = hide_windows_on_active_monitor(foreground.handle, foreground.monitor, Some(work_area()), &windows);
    let mut run = run.expect("active monitor resolves");
    assert_eq!(run.targets(), &vec![0xA]);
    assert_eq!(run.next_action(), HideAction::Minimize(0xA));
    run.report(HideOutcome::Hidden);
    assert_eq!(run.next_action(), HideAction::Finished);
}

#[test]
fn collection_keeps_enumeration_order() {
    let windows = vec![eligible(3, M1), eligible(1, M2), eligible(2, M1), eligible(5, M1)];
    assert_eq!(collect_windows_to_hide(&target(M1), &windows), vec![3, 2, 5]);
    assert_eq!(collect_windows_to_hide(&target(M2), &windows), vec![1]);
    assert_eq!(collect_windows_to_hide(&target(M1), &Vec::new()), Vec::<usize>::new());
}

#[test]
fn no_foreground_window_gives_no_run() {
    let windows = vec![eligible(1, M1), eligible(2, M1)];
    let r = hide_windows_on_active_monitor(0, M1, Some(work_area()), &windows);
    assert_eq!(r.err(), Some(NoActiveMonitor));
    let r = hide_windows_on_active_monitor(0x10, 0, Some(work_area()), &windows);
    assert_eq!(r.err(), Some(NoActiveMonitor));
}

#[test]
fn second_transaction_after_minimize_selects_nothing() {
    let mut windows = vec![eligible(1, M1), eligible(2, M1), eligible(3, M2)];
    let first = collect_windows_to_hide(&target(M1), &windows);
    assert_eq!(first, vec![1, 2]);
    for w in windows.iter_mut() {
        if first.contains(&w.handle) {
            w.iconic = true;
        }
    }
    assert_eq!(collect_windows_to_hide(&target(M1), &windows), Vec::<usize>::new());
}

#[test]
fn same_windows_give_same_targets() {
    let windows = vec![eligible(1, M1), eligible(2, M1)];
    let first = collect_windows_to_hide(&target(M1), &windows);
    let second = collect_windows_to_hide(&target(M1), &windows);
    assert_eq!(first, second);
}

#[test]
fn cloaked_attribute() {
    assert_eq!(is_window_cloaked(Some(0)), Some(false));
    assert_eq!(is_window_cloaked(Some(2)), Some(true));
    assert_eq!(is_window_cloaked(None), None);
}

#[test]
fn text_decoding() {
    let mut buffer = [0u16; 16];
    for (i, u) in "Notepad".encode_utf16().enumerate() {
        buffer[i] = u;
    }
    assert_eq!(text_from_buffer(&buffer, 7), Some("Notepad".to_string()));
    assert_eq!(text_from_buffer(&buffer, 3), Some("Not".to_string()));
    assert_eq!(text_from_buffer(&buffer, 0), None);
    assert_eq!(text_from_buffer(&buffer, -1), None);
    assert_eq!(text_from_buffer(&buffer, 17), None);
    let pair = [0xD83Du16, 0xDE00];
    assert_eq!(text_from_buffer(&pair, 2), Some("\u{1F600}".to_string()));
    let lone_surrogate = [0xD800u16, 0x41];
    assert_eq!(text_from_buffer(&lone_surrogate, 2), Some("\u{FFFD}A".to_string()));
}
