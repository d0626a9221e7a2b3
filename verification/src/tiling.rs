//! The pending-state edits the compositor makes on a toplevel: the four tiled states
//! that every window carries, and the fullscreen and maximized ("fit") states.
use vstd::prelude::*;
use crate::state_set::{
    StateSet, WindowState, with_state, other_than,
    lemma_filter_all, lemma_filter_filter, lemma_filter_contains_iff,
};

verus! {

/// Whether `s` is one of the four tiled states.
pub open spec fn is_tiled(s: WindowState) -> bool {
    s == WindowState::TiledLeft || s == WindowState::TiledRight
        || s == WindowState::TiledTop || s == WindowState::TiledBottom
}

/// The test that keeps every state that is not tiled.
pub open spec fn untiled() -> spec_fn(WindowState) -> bool {
    |x: WindowState| !is_tiled(x)
}

/// `states` with each tiled state that it lacks appended, in the order
/// left, right, top, bottom.
pub open spec fn with_tiled(states: Seq<WindowState>) -> Seq<WindowState> {
    with_state(
        with_state(
            with_state(with_state(states, WindowState::TiledLeft), WindowState::TiledRight),
            WindowState::TiledTop,
        ),
        WindowState::TiledBottom,
    )
}

/// `states` without its tiled states, the others kept in order.
pub open spec fn without_tiled(states: Seq<WindowState>) -> Seq<WindowState> {
    states.filter(untiled())
}

/// Sets all four tiled states. Toolkits read them as "drop your shadow and rounded
/// corners", which the compositor draws itself.
pub fn set_tiled_states(states: &mut StateSet)
    ensures
        final(states)@ == with_tiled(old(states)@),
        forall|y: WindowState| final(states)@.contains(y) <==> (old(states)@.contains(y) || (y == WindowState::TiledLeft || y == WindowState::TiledRight || y == WindowState::TiledTop || y == WindowState::TiledBottom)),
        final(states)@.take(old(states)@.len() as int) == old(states)@,
{
    states.set(WindowState::TiledLeft);
    states.set(WindowState::TiledRight);
    states.set(WindowState::TiledTop);
    states.set(WindowState::TiledBottom);
}

/// Unsets all four tiled states: the inverse of `set_tiled_states`.
pub fn unset_tiled_states(states: &mut StateSet)
    ensures
        final(states)@ == without_tiled(old(states)@),
        forall|y: WindowState| final(states)@.contains(y) <==> (old(states)@.contains(y) && !(y == WindowState::TiledLeft || y == WindowState::TiledRight || y == WindowState::TiledTop || y == WindowState::TiledBottom)),
{
    let ghost s0 = states@;
    states.unset(WindowState::TiledLeft);
    states.unset(WindowState::TiledRight);
    states.unset(WindowState::TiledTop);
    states.unset(WindowState::TiledBottom);
    proof {
        let l = other_than(WindowState::TiledLeft);
        let r = other_than(WindowState::TiledRight);
        let t = other_than(WindowState::TiledTop);
        let b = other_than(WindowState::TiledBottom);
        lemma_filter_filter(s0, l, r);
        let lr = |x: WindowState| l(x) && r(x);
        lemma_filter_filter(s0, lr, t);
        let lrt = |x: WindowState| lr(x) && t(x);
        lemma_filter_filter(s0, lrt, b);
        let lrtb = |x: WindowState| lrt(x) && b(x);
        assert(lrtb =~= untiled());
    }
}

/// Adding a tiled state does not change what remains once the tiled states are taken out.
proof fn lemma_untiled_ignores_tiled_add(t: Seq<WindowState>, x: WindowState)
    requires
        is_tiled(x),
    ensures
        without_tiled(with_state(t, x)) == without_tiled(t),
{
    if !t.contains(x) {
        t.lemma_filter_push(x, untiled());
    }
}

/// Law: unsetting the tiled states undoes setting them. Whatever a set held besides
/// the tiled states comes back unchanged and in order; a set that held no tiled state
/// comes back as it was.
pub proof fn lemma_unset_undoes_set(states: Seq<WindowState>)
    ensures
        without_tiled(with_tiled(states)) == without_tiled(states),
        (forall|i: int| 0 <= i < states.len() ==> !is_tiled(#[trigger] states[i]))
            ==> without_tiled(with_tiled(states)) == states,
{
    let s1 = with_state(states, WindowState::TiledLeft);
    let s2 = with_state(s1, WindowState::TiledRight);
    let s3 = with_state(s2, WindowState::TiledTop);
    lemma_untiled_ignores_tiled_add(states, WindowState::TiledLeft);
    lemma_untiled_ignores_tiled_add(s1, WindowState::TiledRight);
    lemma_untiled_ignores_tiled_add(s2, WindowState::TiledTop);
    lemma_untiled_ignores_tiled_add(s3, WindowState::TiledBottom);
    if forall|i: int| 0 <= i < states.len() ==> !is_tiled(#[trigger] states[i]) {
        lemma_filter_all(states, untiled());
    }
}

/// Adding a state keeps every state that was there and adds exactly that one.
proof fn lemma_with_state_contains(t: Seq<WindowState>, x: WindowState, y: WindowState)
    ensures
        with_state(t, x).contains(y) <==> (t.contains(y) || y == x),
{
    if !t.contains(x) {
        assert(t.push(x)[t.len() as int] == x);
        if t.contains(y) {
            let k = choose|k: int| 0 <= k < t.len() && t[k] == y;
            assert(t.push(x)[k] == y);
        }
        if t.push(x).contains(y) && y != x {
            let k = choose|k: int| 0 <= k < t.len() + 1 && t.push(x)[k] == y;
            assert(t[k] == y);
        }
    }
}

/// Law: after `set_tiled_states` a set holds every tiled state, and a state that is
/// not tiled is in it exactly when it was before.
pub proof fn lemma_set_tiled_holds(states: Seq<WindowState>, y: WindowState)
    ensures
        with_tiled(states).contains(y) <==> (states.contains(y) || is_tiled(y)),
{
    let s1 = with_state(states, WindowState::TiledLeft);
    let s2 = with_state(s1, WindowState::TiledRight);
    let s3 = with_state(s2, WindowState::TiledTop);
    lemma_with_state_contains(states, WindowState::TiledLeft, y);
    lemma_with_state_contains(s1, WindowState::TiledRight, y);
    lemma_with_state_contains(s2, WindowState::TiledTop, y);
    lemma_with_state_contains(s3, WindowState::TiledBottom, y);
}

/// Law: after `unset_tiled_states` a set holds no tiled state, and a state that is
/// not tiled is in it exactly when it was before.
pub proof fn lemma_unset_tiled_holds(states: Seq<WindowState>, y: WindowState)
    ensures
        without_tiled(states).contains(y) <==> (states.contains(y) && !is_tiled(y)),
{
    lemma_filter_contains_iff(states, untiled(), y);
}

/// Law: setting the tiled states twice is the same as setting them once.
pub proof fn lemma_set_tiled_idempotent(states: Seq<WindowState>)
    ensures
        with_tiled(with_tiled(states)) == with_tiled(states),
{
    lemma_set_tiled_holds(states, WindowState::TiledLeft);
    lemma_set_tiled_holds(states, WindowState::TiledRight);
    lemma_set_tiled_holds(states, WindowState::TiledTop);
    lemma_set_tiled_holds(states, WindowState::TiledBottom);
}

/// Law: unsetting the tiled states twice is the same as unsetting them once.
pub proof fn lemma_unset_tiled_idempotent(states: Seq<WindowState>)
    ensures
        without_tiled(without_tiled(states)) == without_tiled(states),
{
    let t = without_tiled(states);
    assert forall|i: int| 0 <= i < t.len() implies untiled()(#[trigger] t[i]) by {
        lemma_filter_contains_iff(states, untiled(), t[i]);
        assert(t.contains(t[i]));
    }
    lemma_filter_all(t, untiled());
}

} // verus!
