//! Which cursor the compositor shows: the directional cursor of an interactive
//! resize, and whether a client may change the cursor during a compositor grab.
use vstd::prelude::*;

verus! {

/// The edge or corner of a window that an interactive resize drags
/// (the `resize_edge` enum of xdg-shell).
#[derive(Clone, Copy, Debug, PartialEq, Eq, Structural)]
pub enum ResizeEdge {
    NoEdge,
    Top,
    Bottom,
    Left,
    TopLeft,
    BottomLeft,
    Right,
    TopRight,
    BottomRight,
}

/// The cursor shapes that the compositor picks itself.
#[derive(Clone, Copy, Debug, PartialEq, Eq, Structural)]
pub enum CursorIcon {
    Default,
    NResize,
    SResize,
    WResize,
    EResize,
    NwResize,
    NeResize,
    SwResize,
    SeResize,
}

/// The directional cursor for a resize from `edges`: north, south, west, east and
/// the four corners, and the default cursor when no edge is dragged.
pub fn resize_cursor(edges: ResizeEdge) -> (icon: CursorIcon)
    ensures
        icon == cursor_of(edges),
        edges == ResizeEdge::Top ==> icon == CursorIcon::NResize,
        edges == ResizeEdge::Bottom ==> icon == CursorIcon::SResize,
        edges == ResizeEdge::Left ==> icon == CursorIcon::WResize,
        edges == ResizeEdge::Right ==> icon == CursorIcon::EResize,
        edges == ResizeEdge::TopLeft ==> icon == CursorIcon::NwResize,
        edges == ResizeEdge::TopRight ==> icon == CursorIcon::NeResize,
        edges == ResizeEdge::BottomLeft ==> icon == CursorIcon::SwResize,
        edges == ResizeEdge::BottomRight ==> icon == CursorIcon::SeResize,
        edges == ResizeEdge::NoEdge ==> icon == CursorIcon::Default,
{
    match edges {
        ResizeEdge::Top => CursorIcon::NResize,
        ResizeEdge::Bottom => CursorIcon::SResize,
        ResizeEdge::Left => CursorIcon::WResize,
        ResizeEdge::Right => CursorIcon::EResize,
        ResizeEdge::TopLeft => CursorIcon::NwResize,
        ResizeEdge::TopRight => CursorIcon::NeResize,
        ResizeEdge::BottomLeft => CursorIcon::SwResize,
        ResizeEdge::BottomRight => CursorIcon::SeResize,
        ResizeEdge::NoEdge => CursorIcon::Default,
    }
}

/// Law: every edge and corner gets its own cursor, and only a resize from no edge
/// shows the default one.
pub proof fn lemma_resize_cursor_distinct(a: ResizeEdge, b: ResizeEdge)
    ensures
        cursor_of(a) == cursor_of(b) ==> a == b,
        (cursor_of(a) == CursorIcon::Default) <==> (a == ResizeEdge::NoEdge),
{
}

/// The cursor that `resize_cursor` shows for `edges`.
pub open spec fn cursor_of(edges: ResizeEdge) -> CursorIcon {
    match edges {
        ResizeEdge::Top => CursorIcon::NResize,
        ResizeEdge::Bottom => CursorIcon::SResize,
        ResizeEdge::Left => CursorIcon::WResize,
        ResizeEdge::Right => CursorIcon::EResize,
        ResizeEdge::TopLeft => CursorIcon::NwResize,
        ResizeEdge::TopRight => CursorIcon::NeResize,
        ResizeEdge::BottomLeft => CursorIcon::SwResize,
        ResizeEdge::BottomRight => CursorIcon::SeResize,
        ResizeEdge::NoEdge => CursorIcon::Default,
    }
}

/// The cursor after a client asks for `requested` while `current` is shown. During a
/// compositor grab (a pan or a resize) the compositor owns the cursor and the
/// request is ignored; otherwise the client's cursor is taken.
pub fn cursor_after_request<C>(grab_cursor: bool, current: C, requested: C) -> (shown: C)
    ensures
        shown == if grab_cursor { current } else { requested },
{
    if grab_cursor {
        current
    } else {
        requested
    }
}

} // verus!
