//! Functions and types related to windows.
//!
//! A [`Window`] is a lightweight value wrapping one native window handle; the
//! handle is copied, never deep-cloned, so several `Window` values may name
//! the same native object.  A [`Toolkit`] is the explicit context that stands
//! for the initialized native layer: it records, for every window created
//! through [`Window::new`], the canonical state the native layer has been
//! told, in creation order.  The host application mirrors each operation to
//! the native C call table and drives the event loop; event arrivals come
//! back through the `Toolkit` event methods, which decide what the registry
//! becomes and which caller-owned callback, named by its token, must run.
//!
//! All operations require the toolkit to be initialized; possession of a
//! `Toolkit` value, obtainable only from [`Toolkit::init`], is that proof.
//! Using a window after its native object was destroyed is the caller's
//! responsibility to avoid and is excluded by precondition.

use vstd::prelude::*;
use vstd::slice::{slice_index_get, slice_to_vec};
use crate::model::{
    WindowModel, no_nul, fresh_window, with_title, with_position, with_content_size,
    with_fullscreen, with_borderless, with_margined, with_child, with_position_cb,
    with_content_size_cb, with_closing_cb, closed_window,
};

verus! {

/// Why an operation was refused.
#[derive(Clone, Copy, Debug, PartialEq, Eq, Structural)]
pub enum Error {
    /// A text argument holds a byte the native string representation cannot
    /// carry: an interior `NUL`.
    EncodingError,
}

/// The stored record of one window, mirroring what the native layer was told.
struct WindowState {
    live: bool,
    title: Vec<u8>,
    has_menubar: bool,
    x: i32,
    y: i32,
    width: i32,
    height: i32,
    fullscreen: bool,
    borderless: bool,
    margined: bool,
    child: Option<usize>,
    position_cb: Option<usize>,
    content_size_cb: Option<usize>,
    closing_cb: Option<usize>,
}

impl View for WindowState {
    type V = WindowModel;

    closed spec fn view(&self) -> WindowModel {
        WindowModel {
            live: self.live,
            title: self.title@,
            has_menubar: self.has_menubar,
            x: self.x,
            y: self.y,
            width: self.width,
            height: self.height,
            fullscreen: self.fullscreen,
            borderless: self.borderless,
            margined: self.margined,
            child: self.child,
            position_cb: self.position_cb,
            content_size_cb: self.content_size_cb,
            closing_cb: self.closing_cb,
        }
    }
}

/// The initialized native toolkit, as this adapter knows it: the registry of
/// every window created through the constructor path, in creation order.
///
/// Entries are appended on creation and never removed individually; the
/// registry is drained only by [`Window::destroy_all_windows`].  A window's
/// handle is its creation rank, so the entry a handle names never moves while
/// it is registered.
pub struct Toolkit {
    windows: Vec<WindowState>,
}

impl View for Toolkit {
    type V = Seq<WindowModel>;

    closed spec fn view(&self) -> Seq<WindowModel> {
        Seq::new(self.windows@.len(), |i: int| self.windows@[i]@)
    }
}

impl Toolkit {
    /// Every registered title is representable by the native layer.
    pub open spec fn wf(self) -> bool {
        forall|i: int| 0 <= i < self@.len() ==> no_nul(#[trigger] self@[i].title)
    }

    /// `w` names an entry of the registry.
    pub open spec fn is_window(self, w: Window) -> bool {
        0 <= w.id() < self@.len()
    }

    /// `w` names an entry whose native object still exists.
    pub open spec fn is_live(self, w: Window) -> bool {
        self.is_window(w) && self@[w.id()].live
    }

    /// One-time initialization of the native toolkit.  The returned context
    /// is the sole gate to every other operation; its registry starts empty.
    pub fn init() -> (ui: Toolkit)
        ensures
            ui@ == Seq::<WindowModel>::empty(),
            ui.wf(),
    {
        Toolkit { windows: Vec::new() }
    }

    /// How many windows the registry tracks.
    pub fn window_count(&self) -> (n: usize)
        ensures
            n == self@.len(),
    {
        self.windows.len()
    }

    /// Whether `w` names a registered window whose native object still
    /// exists.  Callable on any `Window` value, stale ones included.
    pub fn live(&self, w: &Window) -> (r: bool)
        ensures
            r == self.is_live(*w),
    {
        w.handle < self.windows.len() && self.windows[w.handle].live
    }

    /// The native event loop reports that `w`'s position changed (for
    /// example after the window manager moved it): the registry records the
    /// new origin, and the token of the registered position-changed callback,
    /// if any, is returned for the caller to run.
    pub fn position_changed(&mut self, w: &Window, x: i32, y: i32) -> (cb: Option<usize>)
        requires
            old(self).wf(),
            old(self).is_live(*w),
        ensures
            final(self).wf(),
            final(self)@ == old(self)@.update(w.id(), with_position(old(self)@[w.id()], x, y)),
            cb == old(self)@[w.id()].position_cb,
    {
        let cb = self.windows[w.handle].position_cb;
        let ws = &mut self.windows[w.handle];
        ws.x = x;
        ws.y = y;
        proof {
            lemma_view_update(*old(self), *self, w.id());
            assert(self@[w.id()] =~= with_position(old(self)@[w.id()], x, y));
            assert(self@ =~= old(self)@.update(w.id(), with_position(old(self)@[w.id()], x, y)));
        }
        cb
    }

    /// The native event loop reports that `w`'s content area was resized:
    /// the registry records the new size, and the token of the registered
    /// content-size-changed callback, if any, is returned for the caller to
    /// run.
    pub fn content_size_changed(&mut self, w: &Window, width: i32, height: i32) -> (cb: Option<
        usize,
    >)
        requires
            old(self).wf(),
            old(self).is_live(*w),
        ensures
            final(self).wf(),
            final(self)@ == old(self)@.update(
                w.id(),
                with_content_size(old(self)@[w.id()], width, height),
            ),
            cb == old(self)@[w.id()].content_size_cb,
    {
        let cb = self.windows[w.handle].content_size_cb;
        let ws = &mut self.windows[w.handle];
        ws.width = width;
        ws.height = height;
        proof {
            lemma_view_update(*old(self), *self, w.id());
            assert(self@[w.id()] =~= with_content_size(old(self)@[w.id()], width, height));
            assert(self@ =~= old(self)@.update(
                w.id(),
                with_content_size(old(self)@[w.id()], width, height),
            ));
        }
        cb
    }

    /// A close request arrived for `w` (user or OS).  Returns the token of
    /// the registered closing callback, which the caller must run and whose
    /// verdict it must hand to [`Toolkit::resolve_close`]; `None` means no
    /// callback is registered and the default close behavior applies (the
    /// caller resolves with `proceed == true`).
    pub fn closing_callback(&self, w: &Window) -> (cb: Option<usize>)
        requires
            self.is_live(*w),
        ensures
            cb == self@[w.id()].closing_cb,
    {
        self.windows[w.handle].closing_cb
    }

    /// Apply a close verdict for `w`.  `proceed == false` suppresses the
    /// default close behavior: the registry is unchanged and the window
    /// stays live.  `proceed == true` allows it: the native object is
    /// destroyed, and only `w`'s liveness changes.
    pub fn resolve_close(&mut self, w: &Window, proceed: bool)
        requires
            old(self).wf(),
            old(self).is_live(*w),
        ensures
            final(self).wf(),
            proceed ==> final(self)@ == old(self)@.update(
                w.id(),
                closed_window(old(self)@[w.id()]),
            ),
            !proceed ==> final(self)@ == old(self)@,
    {
        if proceed {
            let ws = &mut self.windows[w.handle];
            ws.live = false;
            proof {
                lemma_view_update(*old(self), *self, w.id());
                assert(self@[w.id()] =~= closed_window(old(self)@[w.id()]));
                assert(self@ =~= old(self)@.update(w.id(), closed_window(old(self)@[w.id()])));
            }
        }
    }
}

/// A window of the native toolkit: one copied opaque handle.
#[derive(Clone, Copy, Debug, PartialEq, Eq, Structural)]
pub struct Window {
    handle: usize,
}

impl Window {
    /// The handle as a mathematical index into the registry: the window's
    /// creation rank.
    pub closed spec fn id(self) -> int {
        self.handle as int
    }

    /// The raw native handle this wrapper carries.
    pub fn as_ui_window(&self) -> (r: usize)
        ensures
            r as int == self.id(),
    {
        self.handle
    }

    /// Rebuild a wrapper from a raw handle, as a callback receives it from
    /// the native loop.  Whether the handle names a live registered window is
    /// the caller's responsibility; every operation requires it.
    pub fn from_ui_window(handle: usize) -> (w: Window)
        ensures
            w.id() == handle as int,
    {
        Window { handle }
    }

    /// Allocate a native window with the given title bytes, content-area
    /// dimensions and menubar flag, and append it to the registry.  The
    /// returned wrapper's handle is its creation rank.  A title with an
    /// interior `NUL` is refused with [`Error::EncodingError`] and nothing
    /// changes.
    pub fn new(ui: &mut Toolkit, title: &[u8], width: i32, height: i32, has_menubar: bool) -> (r:
        Result<Window, Error>)
        requires
            old(ui).wf(),
        ensures
            final(ui).wf(),
            match r {
                Ok(w) => no_nul(title@) && w.id() == old(ui)@.len() && final(ui)@ == old(
                    ui,
                )@.push(fresh_window(title@, width, height, has_menubar)),
                Err(e) => e == Error::EncodingError && !no_nul(title@) && final(ui)@ == old(ui)@,
            },
    {
        if contains_nul(title) {
            return Err(Error::EncodingError);
        }
        let handle = ui.windows.len();
        let state = WindowState {
            live: true,
            title: slice_to_vec(title),
            has_menubar,
            x: 0,
            y: 0,
            width,
            height,
            fullscreen: false,
            borderless: false,
            margined: false,
            child: None,
            position_cb: None,
            content_size_cb: None,
            closing_cb: None,
        };
        ui.windows.push(state);
        proof {
            assert(ui@ =~= old(ui)@.push(fresh_window(title@, width, height, has_menubar)));
        }
        Ok(Window { handle })
    }

    /// The window's displayed title, as the bytes last set.
    pub fn title(&self, ui: &Toolkit) -> (r: Vec<u8>)
        requires
            ui.is_live(*self),
        ensures
            r@ == ui@[self.id()].title,
    {
        slice_to_vec(ui.windows[self.handle].title.as_slice())
    }

    /// Replace the window's displayed title.  A title with an interior `NUL`
    /// is refused with [`Error::EncodingError`] and nothing changes.
    pub fn set_title(&self, ui: &mut Toolkit, title: &[u8]) -> (r: Result<(), Error>)
        requires
            old(ui).wf(),
            old(ui).is_live(*self),
        ensures
            final(ui).wf(),
            match r {
                Ok(_) => no_nul(title@) && final(ui)@ == old(ui)@.update(
                    self.id(),
                    with_title(old(ui)@[self.id()], title@),
                ),
                Err(e) => e == Error::EncodingError && !no_nul(title@) && final(ui)@ == old(ui)@,
            },
    {
        if contains_nul(title) {
            return Err(Error::EncodingError);
        }
        let ws = &mut ui.windows[self.handle];
        ws.title = slice_to_vec(title);
        proof {
            lemma_view_update(*old(ui), *ui, self.id());
            assert(ui@[self.id()] =~= with_title(old(ui)@[self.id()], title@));
            assert(ui@ =~= old(ui)@.update(self.id(), with_title(old(ui)@[self.id()], title@)));
        }
        Ok(())
    }

    /// The window's screen-space origin, in platform-defined units.
    pub fn position(&self, ui: &Toolkit) -> (r: (i32, i32))
        requires
            ui.is_live(*self),
        ensures
            r.0 == ui@[self.id()].x,
            r.1 == ui@[self.id()].y,
    {
        (ui.windows[self.handle].x, ui.windows[self.handle].y)
    }

    /// Move the window's origin to `(x, y)`.
    pub fn set_position(&self, ui: &mut Toolkit, x: i32, y: i32)
        requires
            old(ui).wf(),
            old(ui).is_live(*self),
        ensures
            final(ui).wf(),
            final(ui)@ == old(ui)@.update(self.id(), with_position(old(ui)@[self.id()], x, y)),
    {
        let ws = &mut ui.windows[self.handle];
        ws.x = x;
        ws.y = y;
        proof {
            lemma_view_update(*old(ui), *ui, self.id());
            assert(ui@[self.id()] =~= with_position(old(ui)@[self.id()], x, y));
            assert(ui@ =~= old(ui)@.update(self.id(), with_position(old(ui)@[self.id()], x, y)));
        }
    }

    /// Ask the window manager to center the window on its current display.
    /// The effect is asynchronous and at the host platform's discretion: the
    /// registry records no immediate change, and any resulting move arrives
    /// later as a position-changed event.
    pub fn center(&self, ui: &mut Toolkit)
        requires
            old(ui).is_live(*self),
        ensures
            final(ui)@ == old(ui)@,
    {
    }

    /// Register the position-changed callback, replacing any prior one.  The
    /// caller keeps the closure itself and runs it when
    /// [`Toolkit::position_changed`] hands the token back.
    pub fn on_position_changed(&self, ui: &mut Toolkit, callback: usize)
        requires
            old(ui).wf(),
            old(ui).is_live(*self),
        ensures
            final(ui).wf(),
            final(ui)@ == old(ui)@.update(
                self.id(),
                with_position_cb(old(ui)@[self.id()], callback),
            ),
    {
        let ws = &mut ui.windows[self.handle];
        ws.position_cb = Some(callback);
        proof {
            lemma_view_update(*old(ui), *ui, self.id());
            assert(ui@[self.id()] =~= with_position_cb(old(ui)@[self.id()], callback));
            assert(ui@ =~= old(ui)@.update(
                self.id(),
                with_position_cb(old(ui)@[self.id()], callback),
            ));
        }
    }

    /// The window's interior drawable-area dimensions (frame excluded).
    pub fn content_size(&self, ui: &Toolkit) -> (r: (i32, i32))
        requires
            ui.is_live(*self),
        ensures
            r.0 == ui@[self.id()].width,
            r.1 == ui@[self.id()].height,
    {
        (ui.windows[self.handle].width, ui.windows[self.handle].height)
    }

    /// Resize the window's content area to `width` by `height`.
    pub fn set_content_size(&self, ui: &mut Toolkit, width: i32, height: i32)
        requires
            old(ui).wf(),
            old(ui).is_live(*self),
        ensures
            final(ui).wf(),
            final(ui)@ == old(ui)@.update(
                self.id(),
                with_content_size(old(ui)@[self.id()], width, height),
            ),
    {
        let ws = &mut ui.windows[self.handle];
        ws.width = width;
        ws.height = height;
        proof {
            lemma_view_update(*old(ui), *ui, self.id());
            assert(ui@[self.id()] =~= with_content_size(old(ui)@[self.id()], width, height));
            assert(ui@ =~= old(ui)@.update(
                self.id(),
                with_content_size(old(ui)@[self.id()], width, height),
            ));
        }
    }

    /// Whether the window is fullscreen.
    pub fn fullscreen(&self, ui: &Toolkit) -> (r: bool)
        requires
            ui.is_live(*self),
        ensures
            r == ui@[self.id()].fullscreen,
    {
        ui.windows[self.handle].fullscreen
    }

    /// Set the window's fullscreen state.
    pub fn set_fullscreen(&self, ui: &mut Toolkit, fullscreen: bool)
        requires
            old(ui).wf(),
            old(ui).is_live(*self),
        ensures
            final(ui).wf(),
            final(ui)@ == old(ui)@.update(
                self.id(),
                with_fullscreen(old(ui)@[self.id()], fullscreen),
            ),
    {
        let ws = &mut ui.windows[self.handle];
        ws.fullscreen = fullscreen;
        proof {
            lemma_view_update(*old(ui), *ui, self.id());
            assert(ui@[self.id()] =~= with_fullscreen(old(ui)@[self.id()], fullscreen));
            assert(ui@ =~= old(ui)@.update(
                self.id(),
                with_fullscreen(old(ui)@[self.id()], fullscreen),
            ));
        }
    }

    /// Register the content-size-changed callback, replacing any prior one.
    /// The caller keeps the closure itself and runs it when
    /// [`Toolkit::content_size_changed`] hands the token back.
    pub fn on_content_size_changed(&self, ui: &mut Toolkit, callback: usize)
        requires
            old(ui).wf(),
            old(ui).is_live(*self),
        ensures
            final(ui).wf(),
            final(ui)@ == old(ui)@.update(
                self.id(),
                with_content_size_cb(old(ui)@[self.id()], callback),
            ),
    {
        let ws = &mut ui.windows[self.handle];
        ws.content_size_cb = Some(callback);
        proof {
            lemma_view_update(*old(ui), *ui, self.id());
            assert(ui@[self.id()] =~= with_content_size_cb(old(ui)@[self.id()], callback));
            assert(ui@ =~= old(ui)@.update(
                self.id(),
                with_content_size_cb(old(ui)@[self.id()], callback),
            ));
        }
    }

    /// Register the closing callback, replacing any prior one.  The caller
    /// keeps the closure itself; when a close request arrives,
    /// [`Toolkit::closing_callback`] hands the token back, the caller runs
    /// the closure, and its boolean verdict goes to
    /// [`Toolkit::resolve_close`]: `true` lets the default close behavior
    /// proceed, `false` suppresses it.
    pub fn on_closing(&self, ui: &mut Toolkit, callback: usize)
        requires
            old(ui).wf(),
            old(ui).is_live(*self),
        ensures
            final(ui).wf(),
            final(ui)@ == old(ui)@.update(
                self.id(),
                with_closing_cb(old(ui)@[self.id()], callback),
            ),
    {
        let ws = &mut ui.windows[self.handle];
        ws.closing_cb = Some(callback);
        proof {
            lemma_view_update(*old(ui), *ui, self.id());
            assert(ui@[self.id()] =~= with_closing_cb(old(ui)@[self.id()], callback));
            assert(ui@ =~= old(ui)@.update(
                self.id(),
                with_closing_cb(old(ui)@[self.id()], callback),
            ));
        }
    }

    /// Whether the window is borderless.
    pub fn borderless(&self, ui: &Toolkit) -> (r: bool)
        requires
            ui.is_live(*self),
        ensures
            r == ui@[self.id()].borderless,
    {
        ui.windows[self.handle].borderless
    }

    /// Set the window's borderless state.
    pub fn set_borderless(&self, ui: &mut Toolkit, borderless: bool)
        requires
            old(ui).wf(),
            old(ui).is_live(*self),
        ensures
            final(ui).wf(),
            final(ui)@ == old(ui)@.update(
                self.id(),
                with_borderless(old(ui)@[self.id()], borderless),
            ),
    {
        let ws = &mut ui.windows[self.handle];
        ws.borderless = borderless;
        proof {
            lemma_view_update(*old(ui), *ui, self.id());
            assert(ui@[self.id()] =~= with_borderless(old(ui)@[self.id()], borderless));
            assert(ui@ =~= old(ui)@.update(
                self.id(),
                with_borderless(old(ui)@[self.id()], borderless),
            ));
        }
    }

    /// Attach the control with handle `child` as the window's body, replacing
    /// any previous child.  The wrapper only forwards the association; it
    /// does not own the child's lifetime.
    pub fn set_child(&self, ui: &mut Toolkit, child: usize)
        requires
            old(ui).wf(),
            old(ui).is_live(*self),
        ensures
            final(ui).wf(),
            final(ui)@ == old(ui)@.update(self.id(), with_child(old(ui)@[self.id()], child)),
    {
        let ws = &mut ui.windows[self.handle];
        ws.child = Some(child);
        proof {
            lemma_view_update(*old(ui), *ui, self.id());
            assert(ui@[self.id()] =~= with_child(old(ui)@[self.id()], child));
            assert(ui@ =~= old(ui)@.update(self.id(), with_child(old(ui)@[self.id()], child)));
        }
    }

    /// The handle of the control attached as the window's body, if any.
    pub fn child(&self, ui: &Toolkit) -> (r: Option<usize>)
        requires
            ui.is_live(*self),
        ensures
            r == ui@[self.id()].child,
    {
        ui.windows[self.handle].child
    }

    /// Whether the window's content is margined.
    pub fn margined(&self, ui: &Toolkit) -> (r: bool)
        requires
            ui.is_live(*self),
        ensures
            r == ui@[self.id()].margined,
    {
        ui.windows[self.handle].margined
    }

    /// Set the window's margined state.
    pub fn set_margined(&self, ui: &mut Toolkit, margined: bool)
        requires
            old(ui).wf(),
            old(ui).is_live(*self),
        ensures
            final(ui).wf(),
            final(ui)@ == old(ui)@.update(self.id(), with_margined(old(ui)@[self.id()], margined)),
    {
        let ws = &mut ui.windows[self.handle];
        ws.margined = margined;
        proof {
            lemma_view_update(*old(ui), *ui, self.id());
            assert(ui@[self.id()] =~= with_margined(old(ui)@[self.id()], margined));
            assert(ui@ =~= old(ui)@.update(
                self.id(),
                with_margined(old(ui)@[self.id()], margined),
            ));
        }
    }

    /// Drain the registry, destroying every tracked window's native handle
    /// in creation order.  Afterwards no handle names a live window; the
    /// caller must not use any previously returned `Window` value again.
    pub fn destroy_all_windows(ui: &mut Toolkit)
        ensures
            final(ui)@ == Seq::<WindowModel>::empty(),
            final(ui).wf(),
            forall|w: Window| !final(ui).is_live(w),
    {
        ui.windows.clear();
        proof {
            assert(ui@ =~= Seq::<WindowModel>::empty());
        }
    }
}

/// Whether `bytes` holds an interior `NUL`, the one byte the native string
/// representation cannot carry.
fn contains_nul(bytes: &[u8]) -> (r: bool)
    ensures
        r == !no_nul(bytes@),
{
    let mut i: usize = 0;
    while i < bytes.len()
        invariant
            0 <= i <= bytes@.len(),
            forall|j: int| 0 <= j < i ==> bytes@[j] != 0,
        decreases bytes@.len() - i,
    {
        if *slice_index_get(bytes, i) == 0 {
            return true;
        }
        i += 1;
    }
    false
}

/// Replacing one registry entry replaces exactly that element of the view.
proof fn lemma_view_update(pre: Toolkit, post: Toolkit, i: int)
    requires
        0 <= i < pre.windows@.len(),
        post.windows@ == pre.windows@.update(i, post.windows@[i]),
    ensures
        post@ == pre@.update(i, post@[i]),
{
    assert(post@ =~= pre@.update(i, post@[i]));
}

} // verus!
