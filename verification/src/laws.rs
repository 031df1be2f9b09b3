//! The laws of the window registry, stated over the same spec-level
//! transitions that the executable operations are specified against: what a
//! setter leaves for the matching getter to read, what creation appends, and
//! what a close verdict may and may not touch.

use vstd::prelude::*;
use crate::model::{
    WindowModel, fresh_window, with_title, with_position, with_content_size, with_fullscreen,
    with_borderless, with_margined, closed_window,
};

verus! {

/// Setting a window's title and then reading it yields exactly the bytes
/// that were set, and no other window is affected.
pub proof fn lemma_title_round_trip(m: Seq<WindowModel>, i: int, t: Seq<u8>)
    requires
        0 <= i < m.len(),
    ensures
        m.update(i, with_title(m[i], t))[i].title == t,
        forall|j: int|
            0 <= j < m.len() && j != i ==> m.update(i, with_title(m[i], t))[j] == m[j],
{
}

/// Setting a window's position and then reading it yields exactly the pair
/// that was set, and no other window is affected.
pub proof fn lemma_position_round_trip(m: Seq<WindowModel>, i: int, x: i32, y: i32)
    requires
        0 <= i < m.len(),
    ensures
        m.update(i, with_position(m[i], x, y))[i].x == x,
        m.update(i, with_position(m[i], x, y))[i].y == y,
        forall|j: int|
            0 <= j < m.len() && j != i ==> m.update(i, with_position(m[i], x, y))[j] == m[j],
{
}

/// Setting a window's content size and then reading it yields exactly the
/// pair that was set, and no other window is affected.
pub proof fn lemma_content_size_round_trip(m: Seq<WindowModel>, i: int, width: i32, height: i32)
    requires
        0 <= i < m.len(),
    ensures
        m.update(i, with_content_size(m[i], width, height))[i].width == width,
        m.update(i, with_content_size(m[i], width, height))[i].height == height,
        forall|j: int|
            0 <= j < m.len() && j != i ==> m.update(i, with_content_size(m[i], width, height))[j]
                == m[j],
{
}

/// Setting the fullscreen toggle and then reading it yields exactly the
/// boolean that was set, and no other window is affected.
pub proof fn lemma_fullscreen_round_trip(m: Seq<WindowModel>, i: int, b: bool)
    requires
        0 <= i < m.len(),
    ensures
        m.update(i, with_fullscreen(m[i], b))[i].fullscreen == b,
        forall|j: int|
            0 <= j < m.len() && j != i ==> m.update(i, with_fullscreen(m[i], b))[j] == m[j],
{
}

/// Setting the borderless toggle and then reading it yields exactly the
/// boolean that was set, and no other window is affected.
pub proof fn lemma_borderless_round_trip(m: Seq<WindowModel>, i: int, b: bool)
    requires
        0 <= i < m.len(),
    ensures
        m.update(i, with_borderless(m[i], b))[i].borderless == b,
        forall|j: int|
            0 <= j < m.len() && j != i ==> m.update(i, with_borderless(m[i], b))[j] == m[j],
{
}

/// Setting the margined toggle and then reading it yields exactly the
/// boolean that was set, and no other window is affected.
pub proof fn lemma_margined_round_trip(m: Seq<WindowModel>, i: int, b: bool)
    requires
        0 <= i < m.len(),
    ensures
        m.update(i, with_margined(m[i], b))[i].margined == b,
        forall|j: int|
            0 <= j < m.len() && j != i ==> m.update(i, with_margined(m[i], b))[j] == m[j],
{
}

/// Creation appends one entry at the registry's end: the count grows by one,
/// the new entry is the freshly created live window, its handle is the old
/// count (so handles run in creation order), and every prior entry is kept
/// as it was.
pub proof fn lemma_create_appends(
    m: Seq<WindowModel>,
    title: Seq<u8>,
    width: i32,
    height: i32,
    has_menubar: bool,
)
    ensures
        m.push(fresh_window(title, width, height, has_menubar)).len() == m.len() + 1,
        m.push(fresh_window(title, width, height, has_menubar))[m.len() as int] == fresh_window(
            title,
            width,
            height,
            has_menubar,
        ),
        fresh_window(title, width, height, has_menubar).live,
        forall|j: int|
            0 <= j < m.len() ==> m.push(fresh_window(title, width, height, has_menubar))[j]
                == m[j],
{
}

/// A closing callback's verdict decides the default close behavior.  The
/// suppressing half (`false`: the registry is unchanged and the window stays
/// live) is stated by `Toolkit::resolve_close` itself.  This is the allowing
/// half (`true`): exactly the window whose close was allowed stops being
/// live, its last-known record is otherwise kept, and no other window is
/// affected.
pub proof fn lemma_close_allowed(m: Seq<WindowModel>, i: int)
    requires
        0 <= i < m.len(),
    ensures
        !m.update(i, closed_window(m[i]))[i].live,
        m.update(i, closed_window(m[i]))[i] == (WindowModel { live: false, ..m[i] }),
        forall|j: int|
            0 <= j < m.len() && j != i ==> m.update(i, closed_window(m[i]))[j] == m[j],
{
}

} // verus!
