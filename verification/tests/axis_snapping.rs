use driftwm::snap::{update_axis, AxisSnap};
use std::cell::Cell;

#[test]
fn free_axis_snaps_to_candidate() {
    let mut snap: Option<AxisSnap<i64>> = None;
    let mut cooldown: Option<i64> = None;
    let pos = update_axis(&mut snap, &mut cooldown, 103, |_| false, |_| false, || Some(100));
    assert_eq!(pos, 100);
    assert_eq!(snap, Some(AxisSnap { snapped_pos: 100, natural_at_engage: 103 }));
    assert_eq!(cooldown, None);
}

#[test]
fn free_axis_without_candidate_stays_natural() {
    let mut snap: Option<AxisSnap<i64>> = None;
    let mut cooldown: Option<i64> = None;
    let pos = update_axis(&mut snap, &mut cooldown, 55, |_| false, |_| false, || None);
    assert_eq!(pos, 55);
    assert_eq!(snap, None);
    assert_eq!(cooldown, None);
}

#[test]
fn held_snap_keeps_position_and_skips_search() {
    let searched = Cell::new(false);
    let mut snap = Some(AxisSnap { snapped_pos: 100i64, natural_at_engage: 103 });
    let mut cooldown: Option<i64> = None;
    let pos = update_axis(&mut snap, &mut cooldown, 110, |_| false, |_| false, || {
        searched.set(true);
        Some(0)
    });
    assert_eq!(pos, 100);
    assert_eq!(snap, Some(AxisSnap { snapped_pos: 100, natural_at_engage: 103 }));
    assert!(!searched.get());
}

#[test]
fn broken_snap_goes_on_cooldown() {
    let mut snap = Some(AxisSnap { snapped_pos: 100i64, natural_at_engage: 103 });
    let mut cooldown: Option<i64> = None;
    let pos = update_axis(&mut snap, &mut cooldown, 140, |s| s.snapped_pos == 100, |_| false, || Some(100));
    assert_eq!(pos, 140);
    assert_eq!(snap, None);
    assert_eq!(cooldown, Some(100));
}

#[test]
fn cooldown_blocks_snapping_until_it_expires() {
    let mut snap: Option<AxisSnap<i64>> = None;
    let mut cooldown = Some(100i64);
    let searched = Cell::new(false);
    let pos = update_axis(&mut snap, &mut cooldown, 104, |_| false, |cd| (104 - cd).abs() > 8, || {
        searched.set(true);
        Some(100)
    });
    assert_eq!(pos, 104);
    assert_eq!(snap, None);
    assert_eq!(cooldown, Some(100));
    assert!(!searched.get());

    let pos = update_axis(&mut snap, &mut cooldown, 120, |_| false, |cd| (120 - cd).abs() > 8, || None);
    assert_eq!(pos, 120);
    assert_eq!(cooldown, None);
    assert_eq!(snap, None);
}

#[test]
fn expired_cooldown_allows_new_snap_at_once() {
    let mut snap: Option<AxisSnap<i64>> = None;
    let mut cooldown = Some(100i64);
    let pos = update_axis(&mut snap, &mut cooldown, 200, |_| false, |_| true, || Some(205));
    assert_eq!(pos, 205);
    assert_eq!(snap, Some(AxisSnap { snapped_pos: 205, natural_at_engage: 200 }));
    assert_eq!(cooldown, None);
}

#[test]
fn breaking_then_dragging_near_does_not_resnap() {
    let mut snap = Some(AxisSnap { snapped_pos: 100.0f64, natural_at_engage: 103.0 });
    let mut cooldown: Option<f64> = None;
    let pos = update_axis(&mut snap, &mut cooldown, 130.0, |_| true, |_| false, || Some(100.0));
    assert_eq!(pos, 130.0);
    let pos = update_axis(&mut snap, &mut cooldown, 101.0, |_| false, |cd| (101.0f64 - cd).abs() > 8.0, || Some(100.0));
    assert_eq!(pos, 101.0);
    assert_eq!(snap, None);
    assert_eq!(cooldown, Some(100.0));
}
