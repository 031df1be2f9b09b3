//! The mathematical model of one native window.
//!
//! A `WindowModel` is everything the adapter ever tells the native layer about
//! a window: its liveness, its displayed title as raw bytes, its screen-space
//! origin, its content-area size, its boolean toggles, its attached child
//! control, and the token of the callback registered for each event kind.
//! The spec functions below are the transitions that the executable
//! operations are specified against.

use vstd::prelude::*;

verus! {

/// The state of one window, as the native layer has been told it.
///
/// Control and callback identities are plain integers: a control is named by
/// its native handle, a callback by a caller-chosen token (the caller owns the
/// closure itself and runs it when asked to).
pub ghost struct WindowModel {
    /// Whether the native window object still exists.
    pub live: bool,
    /// The displayed title, as a byte-oriented string without interior `NUL`s.
    pub title: Seq<u8>,
    /// Whether the window was created with a menubar.
    pub has_menubar: bool,
    /// Screen-space origin, in platform-defined units.
    pub x: i32,
    pub y: i32,
    /// Interior drawable-area dimensions (frame excluded).
    pub width: i32,
    pub height: i32,
    pub fullscreen: bool,
    pub borderless: bool,
    pub margined: bool,
    /// The handle of the control attached as the window's body, if any.
    pub child: Option<usize>,
    /// Token of the registered position-changed callback, if any.
    pub position_cb: Option<usize>,
    /// Token of the registered content-size-changed callback, if any.
    pub content_size_cb: Option<usize>,
    /// Token of the registered closing callback, if any.
    pub closing_cb: Option<usize>,
}

/// A byte string the native layer can represent: no interior `NUL` byte.
pub open spec fn no_nul(t: Seq<u8>) -> bool {
    forall|i: int| 0 <= i < t.len() ==> t[i] != 0
}

/// The state of a window just after creation: live, with the given title,
/// content size and menubar flag, at the origin, every toggle off, no child
/// and no callback registered.
pub open spec fn fresh_window(title: Seq<u8>, width: i32, height: i32, has_menubar: bool) -> WindowModel {
    WindowModel {
        live: true,
        title: title,
        has_menubar: has_menubar,
        x: 0,
        y: 0,
        width: width,
        height: height,
        fullscreen: false,
        borderless: false,
        margined: false,
        child: None,
        position_cb: None,
        content_size_cb: None,
        closing_cb: None,
    }
}

/// The window after its title is replaced.
pub open spec fn with_title(m: WindowModel, title: Seq<u8>) -> WindowModel {
    WindowModel { title: title, ..m }
}

/// The window after it is moved to `(x, y)`.
pub open spec fn with_position(m: WindowModel, x: i32, y: i32) -> WindowModel {
    WindowModel { x: x, y: y, ..m }
}

/// The window after its content area is resized to `width` by `height`.
pub open spec fn with_content_size(m: WindowModel, width: i32, height: i32) -> WindowModel {
    WindowModel { width: width, height: height, ..m }
}

/// The window with its fullscreen toggle set to `b`.
pub open spec fn with_fullscreen(m: WindowModel, b: bool) -> WindowModel {
    WindowModel { fullscreen: b, ..m }
}

/// The window with its borderless toggle set to `b`.
pub open spec fn with_borderless(m: WindowModel, b: bool) -> WindowModel {
    WindowModel { borderless: b, ..m }
}

/// The window with its margined toggle set to `b`.
pub open spec fn with_margined(m: WindowModel, b: bool) -> WindowModel {
    WindowModel { margined: b, ..m }
}

/// The window after the control with handle `child` is attached as its body,
/// replacing any previous child.
pub open spec fn with_child(m: WindowModel, child: usize) -> WindowModel {
    WindowModel { child: Some(child), ..m }
}

/// The window after a position-changed callback is registered, replacing any
/// prior one.
pub open spec fn with_position_cb(m: WindowModel, cb: usize) -> WindowModel {
    WindowModel { position_cb: Some(cb), ..m }
}

/// The window after a content-size-changed callback is registered, replacing
/// any prior one.
pub open spec fn with_content_size_cb(m: WindowModel, cb: usize) -> WindowModel {
    WindowModel { content_size_cb: Some(cb), ..m }
}

/// The window after a closing callback is registered, replacing any prior one.
pub open spec fn with_closing_cb(m: WindowModel, cb: usize) -> WindowModel {
    WindowModel { closing_cb: Some(cb), ..m }
}

/// The window after its native object is destroyed.  Its last-known record is
/// kept; only liveness changes.
pub open spec fn closed_window(m: WindowModel) -> WindowModel {
    WindowModel { live: false, ..m }
}

} // verus!
