use ui::windows::{Error, Toolkit, Window};

fn make(ui: &mut Toolkit, title: &[u8]) -> Window {
    Window::new(ui, title, 640, 480, false).expect("valid title")
}

#[test]
fn title_round_trip() {
    let mut ui = Toolkit::init();
    let w = make(&mut ui, b"first");
    assert_eq!(w.title(&ui), b"first".to_vec());
    w.set_title(&mut ui, b"grand title").unwrap();
    assert_eq!(w.title(&ui), b"grand title".to_vec());
    w.set_title(&mut ui, b"").unwrap();
    assert_eq!(w.title(&ui), Vec::<u8>::new());
}

#[test]
fn title_survives_other_setters() {
    let mut ui = Toolkit::init();
    let w = make(&mut ui, b"kept");
    w.set_position(&mut ui, 3, 4);
    w.set_content_size(&mut ui, 5, 6);
    w.set_fullscreen(&mut ui, true);
    w.set_borderless(&mut ui, true);
    w.set_margined(&mut ui, true);
    w.set_child(&mut ui, 42);
    assert_eq!(w.title(&ui), b"kept".to_vec());
}

#[test]
fn position_round_trip() {
    let mut ui = Toolkit::init();
    let w = make(&mut ui, b"pos");
    w.set_position(&mut ui, 10, -20);
    assert_eq!(w.position(&ui), (10, -20));
    w.set_position(&mut ui, i32::MIN, i32::MAX);
    assert_eq!(w.position(&ui), (i32::MIN, i32::MAX));
}

#[test]
fn content_size_round_trip() {
    let mut ui = Toolkit::init();
    let w = make(&mut ui, b"size");
    assert_eq!(w.content_size(&ui), (640, 480));
    w.set_content_size(&mut ui, 1, 2);
    assert_eq!(w.content_size(&ui), (1, 2));
    w.set_content_size(&mut ui, i32::MAX, 0);
    assert_eq!(w.content_size(&ui), (i32::MAX, 0));
}

#[test]
fn boolean_toggles_round_trip() {
    let mut ui = Toolkit::init();
    let w = make(&mut ui, b"flags");
    assert!(!w.fullscreen(&ui));
    assert!(!w.borderless(&ui));
    assert!(!w.margined(&ui));
    for b in [true, false, true] {
        w.set_fullscreen(&mut ui, b);
        assert_eq!(w.fullscreen(&ui), b);
        w.set_borderless(&mut ui, b);
        assert_eq!(w.borderless(&ui), b);
        w.set_margined(&mut ui, b);
        assert_eq!(w.margined(&ui), b);
    }
}

#[test]
fn toggles_are_independent() {
    let mut ui = Toolkit::init();
    let w = make(&mut ui, b"independent");
    w.set_fullscreen(&mut ui, true);
    assert!(!w.borderless(&ui));
    assert!(!w.margined(&ui));
    w.set_borderless(&mut ui, true);
    w.set_fullscreen(&mut ui, false);
    assert!(w.borderless(&ui));
}

#[test]
fn new_window_defaults() {
    let mut ui = Toolkit::init();
    let w = Window::new(&mut ui, b"fresh", 300, 200, true).unwrap();
    assert_eq!(w.position(&ui), (0, 0));
    assert_eq!(w.content_size(&ui), (300, 200));
    assert!(!w.fullscreen(&ui));
    assert!(!w.borderless(&ui));
    assert!(!w.margined(&ui));
    assert_eq!(w.child(&ui), None);
    assert!(ui.live(&w));
}

#[test]
fn registry_tracks_creation_order() {
    let mut ui = Toolkit::init();
    assert_eq!(ui.window_count(), 0);
    let a = make(&mut ui, b"a");
    let b = make(&mut ui, b"b");
    let c = make(&mut ui, b"c");
    assert_eq!(ui.window_count(), 3);
    assert_eq!(a.as_ui_window(), 0);
    assert_eq!(b.as_ui_window(), 1);
    assert_eq!(c.as_ui_window(), 2);
    assert_eq!(a.title(&ui), b"a".to_vec());
    assert_eq!(b.title(&ui), b"b".to_vec());
    assert_eq!(c.title(&ui), b"c".to_vec());
}

#[test]
fn destroy_all_windows_empties_registry() {
    let mut ui = Toolkit::init();
    let a = make(&mut ui, b"a");
    let b = make(&mut ui, b"b");
    assert!(ui.live(&a) && ui.live(&b));
    Window::destroy_all_windows(&mut ui);
    assert_eq!(ui.window_count(), 0);
    assert!(!ui.live(&a));
    assert!(!ui.live(&b));
}

#[test]
fn handle_is_copied_not_cloned() {
    let mut ui = Toolkit::init();
    let w = make(&mut ui, b"before");
    let alias = Window::from_ui_window(w.as_ui_window());
    alias.set_title(&mut ui, b"renamed").unwrap();
    assert_eq!(w.title(&ui), b"renamed".to_vec());
    assert_eq!(alias.as_ui_window(), w.as_ui_window());
}

#[test]
fn embedded_nul_in_create_is_refused() {
    let mut ui = Toolkit::init();
    let r = Window::new(&mut ui, b"bad\0title", 100, 100, false);
    assert_eq!(r, Err(Error::EncodingError));
    assert_eq!(ui.window_count(), 0);
    assert_eq!(Window::new(&mut ui, b"\0", 100, 100, false), Err(Error::EncodingError));
    assert_eq!(Window::new(&mut ui, b"trailing\0", 100, 100, false), Err(Error::EncodingError));
    assert_eq!(ui.window_count(), 0);
}

#[test]
fn embedded_nul_in_set_title_is_refused() {
    let mut ui = Toolkit::init();
    let w = make(&mut ui, b"good");
    let r = w.set_title(&mut ui, b"bad\0title");
    assert_eq!(r, Err(Error::EncodingError));
    assert_eq!(w.title(&ui), b"good".to_vec());
}

#[test]
fn center_changes_nothing_immediately() {
    let mut ui = Toolkit::init();
    let w = make(&mut ui, b"centered");
    w.set_position(&mut ui, 11, 22);
    w.center(&mut ui);
    assert_eq!(w.position(&ui), (11, 22));
    assert_eq!(w.title(&ui), b"centered".to_vec());
}

#[test]
fn set_child_replaces_previous() {
    let mut ui = Toolkit::init();
    let w = make(&mut ui, b"parent");
    w.set_child(&mut ui, 7);
    assert_eq!(w.child(&ui), Some(7));
    w.set_child(&mut ui, 8);
    assert_eq!(w.child(&ui), Some(8));
}

#[test]
fn position_changed_event_updates_and_dispatches() {
    let mut ui = Toolkit::init();
    let w = make(&mut ui, b"moved");
    // No callback registered yet: the state still updates.
    assert_eq!(ui.position_changed(&w, 5, 6), None);
    assert_eq!(w.position(&ui), (5, 6));
    w.on_position_changed(&mut ui, 3);
    assert_eq!(ui.position_changed(&w, 9, 9), Some(3));
    assert_eq!(w.position(&ui), (9, 9));
    // Re-registering replaces the prior callback.
    w.on_position_changed(&mut ui, 4);
    assert_eq!(ui.position_changed(&w, 1, 2), Some(4));
}

#[test]
fn content_size_changed_event_updates_and_dispatches() {
    let mut ui = Toolkit::init();
    let w = make(&mut ui, b"resized");
    assert_eq!(ui.content_size_changed(&w, 80, 60), None);
    assert_eq!(w.content_size(&ui), (80, 60));
    w.on_content_size_changed(&mut ui, 12);
    assert_eq!(ui.content_size_changed(&w, 81, 61), Some(12));
    assert_eq!(w.content_size(&ui), (81, 61));
}

// Drive one close request the way the native event loop would: look up the
// registered callback token, run the caller-owned closure behind it, and hand
// its verdict back to the toolkit.
fn deliver_close_request(
    ui: &mut Toolkit,
    w: &Window,
    closures: &mut [Box<dyn FnMut(&Window) -> bool>],
) {
    let verdict = match ui.closing_callback(w) {
        Some(token) => closures[token](w),
        None => true,
    };
    ui.resolve_close(w, verdict);
}

#[test]
fn closing_callback_verdict_false_suppresses_close() {
    let mut ui = Toolkit::init();
    let w = make(&mut ui, b"stubborn");
    let mut closures: Vec<Box<dyn FnMut(&Window) -> bool>> = vec![Box::new(|_w: &Window| false)];
    w.on_closing(&mut ui, 0);
    deliver_close_request(&mut ui, &w, &mut closures);
    assert!(ui.live(&w));
    assert_eq!(w.title(&ui), b"stubborn".to_vec());
}

#[test]
fn closing_callback_verdict_true_allows_close() {
    let mut ui = Toolkit::init();
    let w = make(&mut ui, b"obedient");
    let mut closures: Vec<Box<dyn FnMut(&Window) -> bool>> = vec![Box::new(|_w: &Window| true)];
    w.on_closing(&mut ui, 0);
    deliver_close_request(&mut ui, &w, &mut closures);
    assert!(!ui.live(&w));
    // The registry keeps the entry; only liveness changed.
    assert_eq!(ui.window_count(), 1);
}

#[test]
fn closing_callback_sees_the_window_and_is_replaced() {
    let mut ui = Toolkit::init();
    let w = make(&mut ui, b"seen");
    let expected_handle = w.as_ui_window();
    let mut closures: Vec<Box<dyn FnMut(&Window) -> bool>> = vec![
        Box::new(move |cb_w: &Window| {
            assert_eq!(cb_w.as_ui_window(), expected_handle);
            false
        }),
        Box::new(|_w: &Window| true),
    ];
    w.on_closing(&mut ui, 0);
    deliver_close_request(&mut ui, &w, &mut closures);
    assert!(ui.live(&w));
    // Re-registering replaces the prior callback; the new verdict wins.
    w.on_closing(&mut ui, 1);
    deliver_close_request(&mut ui, &w, &mut closures);
    assert!(!ui.live(&w));
}

#[test]
fn close_request_without_callback_closes_by_default() {
    let mut ui = Toolkit::init();
    let w = make(&mut ui, b"plain");
    let mut closures: Vec<Box<dyn FnMut(&Window) -> bool>> = Vec::new();
    deliver_close_request(&mut ui, &w, &mut closures);
    assert!(!ui.live(&w));
}

#[test]
fn operations_touch_only_their_window() {
    let mut ui = Toolkit::init();
    let a = make(&mut ui, b"left");
    let b = make(&mut ui, b"right");
    a.set_title(&mut ui, b"renamed").unwrap();
    a.set_position(&mut ui, 1, 2);
    a.set_fullscreen(&mut ui, true);
    ui.resolve_close(&a, true);
    assert!(!ui.live(&a));
    assert!(ui.live(&b));
    assert_eq!(b.title(&ui), b"right".to_vec());
    assert_eq!(b.position(&ui), (0, 0));
    assert!(!b.fullscreen(&ui));
}
