use driftwm::grab::check_grab;
use driftwm::state_set::{StateSet, WindowState};
use driftwm::window::begin_resize;
use driftwm::cursor::{cursor_after_request, resize_cursor, CursorIcon, ResizeEdge};
use driftwm::momentum::{tick_action, TickAction};
use driftwm::window::{configure_plan, initial_position, wants_ssd, ConfigurePlan, ConfigureRequest, WindowKind, X11Mode};

#[test]
fn ssd_only_for_undecorated_x11() {
    assert!(wants_ssd(WindowKind::Wayland { server_side: true }));
    assert!(!wants_ssd(WindowKind::Wayland { server_side: false }));
    assert!(wants_ssd(WindowKind::X11 { client_decorated: false }));
    assert!(!wants_ssd(WindowKind::X11 { client_decorated: true }));
    assert!(!wants_ssd(WindowKind::Detached));
}

#[test]
fn wayland_plan_carries_request_and_size() {
    let plan = configure_plan(WindowKind::Wayland { server_side: true }, ConfigureRequest::EnterFit, 1920, 1080, 5, 6);
    assert_eq!(plan, ConfigurePlan::Toplevel { req: ConfigureRequest::EnterFit, width: 1920, height: 1080 });
}

#[test]
fn x11_fullscreen_moves_to_origin() {
    let kind = WindowKind::X11 { client_decorated: true };
    let plan = configure_plan(kind, ConfigureRequest::EnterFullscreen, 1920, 1080, 40, 50);
    assert_eq!(
        plan,
        ConfigurePlan::X11 { mode: X11Mode::Fullscreen, on: true, x: 0, y: 0, width: 1920, height: 1080 }
    );
    let plan = configure_plan(kind, ConfigureRequest::ExitFullscreen, 800, 600, 40, 50);
    assert_eq!(
        plan,
        ConfigurePlan::X11 { mode: X11Mode::Fullscreen, on: false, x: 40, y: 50, width: 800, height: 600 }
    );
}

#[test]
fn x11_fit_keeps_location() {
    let kind = WindowKind::X11 { client_decorated: false };
    assert_eq!(
        configure_plan(kind, ConfigureRequest::EnterFit, 1000, 700, -30, 20),
        ConfigurePlan::X11 { mode: X11Mode::Maximized, on: true, x: -30, y: 20, width: 1000, height: 700 }
    );
    assert_eq!(
        configure_plan(kind, ConfigureRequest::ExitFit, 640, 480, -30, 20),
        ConfigurePlan::X11 { mode: X11Mode::Maximized, on: false, x: -30, y: 20, width: 640, height: 480 }
    );
}

#[test]
fn detached_window_gets_nothing() {
    assert_eq!(
        configure_plan(WindowKind::Detached, ConfigureRequest::EnterFullscreen, 1, 1, 0, 0),
        ConfigurePlan::Nothing
    );
}

#[test]
fn new_window_goes_to_view_centre() {
    assert_eq!(initial_position(100, -200, Some((1920, 1080))), (1060, 340));
    assert_eq!(initial_position(0, 0, Some((5, 7))), (2, 3));
    assert_eq!(initial_position(10, 10, Some((-3, -5))), (9, 8));
    assert_eq!(initial_position(100, 100, None), (0, 0));
}

#[test]
fn resize_cursor_per_edge() {
    assert_eq!(resize_cursor(ResizeEdge::Top), CursorIcon::NResize);
    assert_eq!(resize_cursor(ResizeEdge::Bottom), CursorIcon::SResize);
    assert_eq!(resize_cursor(ResizeEdge::Left), CursorIcon::WResize);
    assert_eq!(resize_cursor(ResizeEdge::Right), CursorIcon::EResize);
    assert_eq!(resize_cursor(ResizeEdge::TopLeft), CursorIcon::NwResize);
    assert_eq!(resize_cursor(ResizeEdge::TopRight), CursorIcon::NeResize);
    assert_eq!(resize_cursor(ResizeEdge::BottomLeft), CursorIcon::SwResize);
    assert_eq!(resize_cursor(ResizeEdge::BottomRight), CursorIcon::SeResize);
    assert_eq!(resize_cursor(ResizeEdge::NoEdge), CursorIcon::Default);
}

#[test]
fn grab_keeps_compositor_cursor() {
    assert_eq!(cursor_after_request(true, "grab", "text"), "grab");
    assert_eq!(cursor_after_request(false, "grab", "text"), "text");
}

#[test]
fn momentum_skips_scroll_frame() {
    assert_eq!(tick_action(7, 7, false), TickAction::Skip);
    assert_eq!(tick_action(7, 7, true), TickAction::Skip);
    assert_eq!(tick_action(7, 8, true), TickAction::Stop);
    assert_eq!(tick_action(7, 8, false), TickAction::Coast);
}

#[test]
fn grab_is_only_handed_to_the_pressed_surface() {
    assert_eq!(check_grab(Some(7u32), |_| Some(true)), Some(7));
    assert_eq!(check_grab(Some(7u32), |_| Some(false)), None);
    assert_eq!(check_grab(Some(7u32), |_| None), None);
    assert_eq!(check_grab(None::<u32>, |_| Some(true)), None);
}

#[test]
fn begin_resize_sets_resizing_and_picks_cursor() {
    let mut set = StateSet::new();
    set.set(WindowState::Activated);
    assert_eq!(begin_resize(&mut set, ResizeEdge::BottomRight), CursorIcon::SeResize);
    assert_eq!(set.to_vec(), vec![WindowState::Activated, WindowState::Resizing]);
    assert_eq!(begin_resize(&mut set, ResizeEdge::Left), CursorIcon::WResize);
    assert_eq!(set.to_vec(), vec![WindowState::Activated, WindowState::Resizing]);
}

#[test]
fn resize_cursors_are_distinct() {
    let edges = [
        ResizeEdge::NoEdge,
        ResizeEdge::Top,
        ResizeEdge::Bottom,
        ResizeEdge::Left,
        ResizeEdge::TopLeft,
        ResizeEdge::BottomLeft,
        ResizeEdge::Right,
        ResizeEdge::TopRight,
        ResizeEdge::BottomRight,
    ];
    for a in edges {
        for b in edges {
            assert_eq!(resize_cursor(a) == resize_cursor(b), a == b);
        }
    }
}
