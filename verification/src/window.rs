//! Per-window decisions that differ between Wayland toplevels and X11 windows:
//! whether the compositor draws decorations, and what a fullscreen or fit
//! (maximize) request sends to the client.
use vstd::prelude::*;
use crate::state_set::{StateSet, WindowState, with_state, without_state, other_than,
    lemma_filter_all, lemma_filter_contains_iff, lemma_with_state_membership,
    lemma_without_state_membership};
use crate::cursor::{CursorIcon, ResizeEdge, cursor_of, resize_cursor};

verus! {

/// What kind of client surface backs a window.
#[derive(Clone, Copy, Debug, PartialEq, Eq, Structural)]
pub enum WindowKind {
    /// An xdg toplevel of a Wayland client; `server_side` is whether the decoration
    /// mode negotiated over xdg-decoration is server-side.
    Wayland { server_side: bool },
    /// An X11 window; `client_decorated` is whether its MOTIF hints say that the
    /// client draws its own decorations.
    X11 { client_decorated: bool },
    /// Neither (a window whose surface is gone).
    Detached,
}

/// Whether the window wants compositor-drawn (server-side) decorations: for a Wayland
/// window, whether its negotiated xdg-decoration mode is server-side; for an X11
/// window, whether its MOTIF hints leave the decorations to the window manager.
pub fn wants_ssd(kind: WindowKind) -> (r: bool)
    ensures
        r == match kind {
            WindowKind::Wayland { server_side } => server_side,
            WindowKind::X11 { client_decorated } => !client_decorated,
            WindowKind::Detached => false,
        },
{
    match kind {
        WindowKind::Wayland { server_side } => server_side,
        WindowKind::X11 { client_decorated } => !client_decorated,
        WindowKind::Detached => false,
    }
}

/// A change of a window between its normal size and fullscreen or fit.
#[derive(Clone, Copy, Debug, PartialEq, Eq, Structural)]
pub enum ConfigureRequest {
    EnterFullscreen,
    ExitFullscreen,
    EnterFit,
    ExitFit,
}

/// The toplevel state that a request turns on or off.
pub open spec fn request_state(req: ConfigureRequest) -> WindowState {
    match req {
        ConfigureRequest::EnterFullscreen | ConfigureRequest::ExitFullscreen => WindowState::Fullscreen,
        ConfigureRequest::EnterFit | ConfigureRequest::ExitFit => WindowState::Maximized,
    }
}

/// Whether a request enters (rather than leaves) its mode.
pub open spec fn request_enters(req: ConfigureRequest) -> bool {
    req == ConfigureRequest::EnterFullscreen || req == ConfigureRequest::EnterFit
}

/// The pending states after a request: its state set on entering, unset on leaving.
/// The tiled states are left as they are.
pub open spec fn states_after(states: Seq<WindowState>, req: ConfigureRequest) -> Seq<WindowState> {
    if request_enters(req) {
        with_state(states, request_state(req))
    } else {
        without_state(states, request_state(req))
    }
}

/// Applies a request to a toplevel's pending states.
pub fn apply_request_states(states: &mut StateSet, req: ConfigureRequest)
    ensures
        final(states)@ == states_after(old(states)@, req),
        req == ConfigureRequest::EnterFullscreen ==> (forall|y: WindowState|
            final(states)@.contains(y) <==> (old(states)@.contains(y) || y == WindowState::Fullscreen)),
        req == ConfigureRequest::EnterFullscreen && old(states)@.contains(WindowState::Fullscreen) ==> final(states)@ == old(states)@,
        req == ConfigureRequest::EnterFullscreen && !old(states)@.contains(WindowState::Fullscreen)
            ==> final(states)@ == old(states)@.push(WindowState::Fullscreen),
        req == ConfigureRequest::ExitFullscreen ==> (forall|y: WindowState|
            final(states)@.contains(y) <==> (old(states)@.contains(y) && y != WindowState::Fullscreen)),
        req == ConfigureRequest::ExitFullscreen && !old(states)@.contains(WindowState::Fullscreen) ==> final(states)@ == old(states)@,
        req == ConfigureRequest::EnterFit ==> (forall|y: WindowState|
            final(states)@.contains(y) <==> (old(states)@.contains(y) || y == WindowState::Maximized)),
        req == ConfigureRequest::EnterFit && old(states)@.contains(WindowState::Maximized) ==> final(states)@ == old(states)@,
        req == ConfigureRequest::EnterFit && !old(states)@.contains(WindowState::Maximized)
            ==> final(states)@ == old(states)@.push(WindowState::Maximized),
        req == ConfigureRequest::ExitFit ==> (forall|y: WindowState|
            final(states)@.contains(y) <==> (old(states)@.contains(y) && y != WindowState::Maximized)),
        req == ConfigureRequest::ExitFit && !old(states)@.contains(WindowState::Maximized) ==> final(states)@ == old(states)@,
{
    match req {
        ConfigureRequest::EnterFullscreen => {
            states.set(WindowState::Fullscreen);
        },
        ConfigureRequest::ExitFullscreen => {
            states.unset(WindowState::Fullscreen);
        },
        ConfigureRequest::EnterFit => {
            states.set(WindowState::Maximized);
        },
        ConfigureRequest::ExitFit => {
            states.unset(WindowState::Maximized);
        },
    }
}

/// The mode flag of an X11 window that a request changes.
#[derive(Clone, Copy, Debug, PartialEq, Eq, Structural)]
pub enum X11Mode {
    Fullscreen,
    Maximized,
}

/// What a fullscreen or fit request sends to a window.
#[derive(Clone, Copy, Debug, PartialEq, Eq, Structural)]
pub enum ConfigurePlan {
    /// Apply `req` to the pending states (`apply_request_states`), make
    /// `width` x `height` the pending size, and send a configure.
    Toplevel { req: ConfigureRequest, width: i32, height: i32 },
    /// Turn `mode` on or off, then configure the window to the rectangle at
    /// (`x`, `y`) of `width` x `height`.
    X11 { mode: X11Mode, on: bool, x: i32, y: i32, width: i32, height: i32 },
    /// Send nothing.
    Nothing,
}

/// The plan for a request on a window of `kind`. `width` x `height` is the size to
/// take (the output's size on entering, the saved size on leaving), and
/// (`x11_x`, `x11_y`) is where an X11 window stands now. An X11 window that enters
/// fullscreen is moved to the origin; in every other case it keeps its place.
pub fn configure_plan(
    kind: WindowKind,
    req: ConfigureRequest,
    width: i32,
    height: i32,
    x11_x: i32,
    x11_y: i32,
) -> (plan: ConfigurePlan)
    ensures
        plan == match kind {
            WindowKind::Wayland { .. } => ConfigurePlan::Toplevel { req, width, height },
            WindowKind::X11 { .. } => ConfigurePlan::X11 {
                mode: if request_state(req) == WindowState::Fullscreen {
                    X11Mode::Fullscreen
                } else {
                    X11Mode::Maximized
                },
                on: request_enters(req),
                x: if req == ConfigureRequest::EnterFullscreen { 0 } else { x11_x },
                y: if req == ConfigureRequest::EnterFullscreen { 0 } else { x11_y },
                width,
                height,
            },
            WindowKind::Detached => ConfigurePlan::Nothing,
        },
{
    match kind {
        WindowKind::Wayland { .. } => ConfigurePlan::Toplevel { req, width, height },
        WindowKind::X11 { .. } => match req {
            ConfigureRequest::EnterFullscreen => ConfigurePlan::X11 {
                mode: X11Mode::Fullscreen,
                on: true,
                x: 0,
                y: 0,
                width,
                height,
            },
            ConfigureRequest::ExitFullscreen => ConfigurePlan::X11 {
                mode: X11Mode::Fullscreen,
                on: false,
                x: x11_x,
                y: x11_y,
                width,
                height,
            },
            ConfigureRequest::EnterFit => ConfigurePlan::X11 {
                mode: X11Mode::Maximized,
                on: true,
                x: x11_x,
                y: x11_y,
                width,
                height,
            },
            ConfigureRequest::ExitFit => ConfigurePlan::X11 {
                mode: X11Mode::Maximized,
                on: false,
                x: x11_x,
                y: x11_y,
                width,
                height,
            },
        },
        WindowKind::Detached => ConfigurePlan::Nothing,
    }
}

/// What starting an interactive resize from `edges` does to the window and the
/// cursor: the window's pending states get `Resizing`, and the compositor, which owns
/// the cursor during the grab, shows the directional cursor for the edges.
pub fn begin_resize(states: &mut StateSet, edges: ResizeEdge) -> (icon: CursorIcon)
    ensures
        final(states)@ == with_state(old(states)@, WindowState::Resizing),
        icon == cursor_of(edges),
{
    states.set(WindowState::Resizing);
    resize_cursor(edges)
}

/// Half of `n`, rounded toward zero as integer division does.
pub open spec fn half(n: int) -> int {
    if n >= 0 {
        n / 2
    } else {
        -((-n) / 2)
    }
}

/// Law: `half` is integer halving toward zero: twice it falls short of `n` by at most
/// one, on the side of zero.
pub proof fn lemma_half_rounds_toward_zero(n: int)
    ensures
        n >= 0 ==> 0 <= n - 2 * half(n) <= 1,
        n < 0 ==> -1 <= n - 2 * half(n) <= 0,
{
}

/// Whether a new window can be centred on an output of `output_size` seen from the
/// camera at (`camera_x`, `camera_y`) without leaving the `i32` range.
pub open spec fn placement_fits(camera_x: i32, camera_y: i32, output_size: Option<(i32, i32)>) -> bool {
    match output_size {
        Some((w, h)) => i32::MIN <= camera_x + half(w as int) <= i32::MAX
            && i32::MIN <= camera_y + half(h as int) <= i32::MAX,
        None => true,
    }
}

/// Where a new toplevel is mapped before its size is known: at the centre of the
/// first output's view, which is the camera position plus half the output size; at
/// the origin when there is no output. Once the window's size is known it is
/// centred properly.
pub fn initial_position(camera_x: i32, camera_y: i32, output_size: Option<(i32, i32)>) -> (pos: (i32, i32))
    requires
        placement_fits(camera_x, camera_y, output_size),
    ensures
        pos == match output_size {
            Some((w, h)) => ((camera_x + half(w as int)) as i32, (camera_y + half(h as int)) as i32),
            None => (0i32, 0i32),
        },
        output_size is None ==> pos == (0i32, 0i32),
        output_size matches Some((w, h)) ==> {
            &&& (w >= 0 ==> 0 <= w - 2 * (pos.0 - camera_x) <= 1)
            &&& (w < 0 ==> -1 <= w - 2 * (pos.0 - camera_x) <= 0)
            &&& (h >= 0 ==> 0 <= h - 2 * (pos.1 - camera_y) <= 1)
            &&& (h < 0 ==> -1 <= h - 2 * (pos.1 - camera_y) <= 0)
        },
{
    match output_size {
        Some((w, h)) => (camera_x + w / 2, camera_y + h / 2),
        None => (0, 0),
    }
}

/// Law: entering fullscreen or fit puts the mode's state on the window and keeps every
/// state it had; leaving takes the mode's state off and keeps every other state.
pub proof fn lemma_request_membership(states: Seq<WindowState>, y: WindowState)
    ensures
        states_after(states, ConfigureRequest::EnterFullscreen).contains(y)
            <==> (states.contains(y) || y == WindowState::Fullscreen),
        states_after(states, ConfigureRequest::EnterFit).contains(y)
            <==> (states.contains(y) || y == WindowState::Maximized),
        states_after(states, ConfigureRequest::ExitFullscreen).contains(y)
            <==> (states.contains(y) && y != WindowState::Fullscreen),
        states_after(states, ConfigureRequest::ExitFit).contains(y)
            <==> (states.contains(y) && y != WindowState::Maximized),
{
    lemma_with_state_membership(states, WindowState::Fullscreen);
    lemma_with_state_membership(states, WindowState::Maximized);
    lemma_without_state_membership(states, WindowState::Fullscreen);
    lemma_without_state_membership(states, WindowState::Maximized);
}

/// Law: leaving a mode undoes entering it. A window that was not in the mode has,
/// after entering and leaving it, the states it had before.
pub proof fn lemma_exit_undoes_enter(states: Seq<WindowState>, mode: WindowState)
    requires
        mode == WindowState::Fullscreen || mode == WindowState::Maximized,
        !states.contains(mode),
    ensures
        without_state(with_state(states, mode), mode) == states,
{
    states.lemma_filter_push(mode, other_than(mode));
    assert forall|i: int| 0 <= i < states.len() implies other_than(mode)(#[trigger] states[i]) by {
        assert(states.contains(states[i]));
    }
    lemma_filter_all(states, other_than(mode));
}

/// Law: entering or leaving fullscreen or fit leaves every state but the request's
/// own as it was; in particular the tiled states stay set.
pub proof fn lemma_request_keeps_other_states(
    states: Seq<WindowState>,
    req: ConfigureRequest,
    y: WindowState,
)
    requires
        y != request_state(req),
    ensures
        states_after(states, req).contains(y) <==> states.contains(y),
{
    let x = request_state(req);
    if request_enters(req) {
        if !states.contains(x) {
            if states.push(x).contains(y) {
                let k = choose|k: int| 0 <= k < states.len() + 1 && states.push(x)[k] == y;
                assert(states[k] == y);
            }
            if states.contains(y) {
                let k = choose|k: int| 0 <= k < states.len() && states[k] == y;
                assert(states.push(x)[k] == y);
            }
        }
    } else {
        lemma_filter_contains_iff(states, other_than(x), y);
    }
}

} // verus!
