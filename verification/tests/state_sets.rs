use driftwm::state_set::{StateSet, WindowState};
use driftwm::tiling::{set_tiled_states, unset_tiled_states};
use driftwm::window::{apply_request_states, ConfigureRequest};

fn set_of(states: &[WindowState]) -> StateSet {
    let mut set = StateSet::new();
    for s in states {
        set.set(*s);
    }
    set
}

#[test]
fn new_set_is_empty() {
    let set = StateSet::new();
    assert!(set.to_vec().is_empty());
    assert!(!set.contains(WindowState::Activated));
}

#[test]
fn set_adds_once_and_keeps_order() {
    let mut set = StateSet::new();
    assert!(set.set(WindowState::Activated));
    assert!(set.set(WindowState::Fullscreen));
    assert!(!set.set(WindowState::Activated));
    assert_eq!(set.to_vec(), vec![WindowState::Activated, WindowState::Fullscreen]);
    assert!(set.contains(WindowState::Fullscreen));
}

#[test]
fn unset_removes_and_reports() {
    let mut set = set_of(&[WindowState::Activated, WindowState::Resizing, WindowState::Maximized]);
    assert!(set.unset(WindowState::Resizing));
    assert!(!set.unset(WindowState::Resizing));
    assert_eq!(set.to_vec(), vec![WindowState::Activated, WindowState::Maximized]);
}

#[test]
fn wire_codes_round_trip() {
    assert_eq!(WindowState::Maximized.wire_code(), 1);
    assert_eq!(WindowState::TiledLeft.wire_code(), 5);
    assert_eq!(WindowState::ConstrainedBottom.wire_code(), 13);
    for code in 1..=13u32 {
        let s = WindowState::from_wire_code(code).unwrap();
        assert_eq!(s.wire_code(), code);
    }
    assert_eq!(WindowState::from_wire_code(0), None);
    assert_eq!(WindowState::from_wire_code(14), None);
}

#[test]
fn set_tiled_on_empty_set_adds_four_in_order() {
    let mut set = StateSet::new();
    set_tiled_states(&mut set);
    assert_eq!(
        set.to_vec(),
        vec![WindowState::TiledLeft, WindowState::TiledRight, WindowState::TiledTop, WindowState::TiledBottom]
    );
}

#[test]
fn set_tiled_appends_only_missing_ones() {
    let mut set = set_of(&[WindowState::Fullscreen, WindowState::TiledTop]);
    set_tiled_states(&mut set);
    assert_eq!(
        set.to_vec(),
        vec![
            WindowState::Fullscreen,
            WindowState::TiledTop,
            WindowState::TiledLeft,
            WindowState::TiledRight,
            WindowState::TiledBottom
        ]
    );
}

#[test]
fn unset_tiled_undoes_set_tiled() {
    let mut set = set_of(&[WindowState::Activated, WindowState::Maximized]);
    set_tiled_states(&mut set);
    unset_tiled_states(&mut set);
    assert_eq!(set.to_vec(), vec![WindowState::Activated, WindowState::Maximized]);
}

#[test]
fn tiled_edits_are_idempotent() {
    let mut once = set_of(&[WindowState::Activated]);
    set_tiled_states(&mut once);
    let mut twice = set_of(&[WindowState::Activated]);
    set_tiled_states(&mut twice);
    set_tiled_states(&mut twice);
    assert_eq!(once.to_vec(), twice.to_vec());
    unset_tiled_states(&mut twice);
    unset_tiled_states(&mut twice);
    assert_eq!(twice.to_vec(), vec![WindowState::Activated]);
}

#[test]
fn unset_tiled_keeps_other_states_in_order() {
    let mut set = set_of(&[
        WindowState::TiledRight,
        WindowState::Activated,
        WindowState::TiledLeft,
        WindowState::Suspended,
    ]);
    unset_tiled_states(&mut set);
    assert_eq!(set.to_vec(), vec![WindowState::Activated, WindowState::Suspended]);
}

#[test]
fn fullscreen_round_trip_keeps_tiled_states() {
    let mut set = StateSet::new();
    set_tiled_states(&mut set);
    let before = set.to_vec();
    apply_request_states(&mut set, ConfigureRequest::EnterFullscreen);
    assert!(set.contains(WindowState::Fullscreen));
    assert!(set.contains(WindowState::TiledLeft));
    apply_request_states(&mut set, ConfigureRequest::ExitFullscreen);
    assert_eq!(set.to_vec(), before);
}

#[test]
fn fit_round_trip_restores_states() {
    let mut set = set_of(&[WindowState::Activated]);
    apply_request_states(&mut set, ConfigureRequest::EnterFit);
    assert_eq!(set.to_vec(), vec![WindowState::Activated, WindowState::Maximized]);
    apply_request_states(&mut set, ConfigureRequest::ExitFit);
    assert_eq!(set.to_vec(), vec![WindowState::Activated]);
}

#[test]
fn exit_without_enter_changes_nothing() {
    let mut set = set_of(&[WindowState::Activated, WindowState::TiledTop]);
    apply_request_states(&mut set, ConfigureRequest::ExitFullscreen);
    apply_request_states(&mut set, ConfigureRequest::ExitFit);
    assert_eq!(set.to_vec(), vec![WindowState::Activated, WindowState::TiledTop]);
}
