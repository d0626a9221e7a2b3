//! Edge snapping along one axis of a dragged window.
//!
//! An axis is either snapped to a neighbour's edge, or free; a free axis may be on
//! cooldown at the coordinate of a snap it just broke away from, so that it does not
//! snap straight back. The geometry (which edges are near, when a pull breaks a
//! snap) is computed by the caller and handed in as functions, so this module holds
//! the state machine for any coordinate type.
use vstd::prelude::*;

verus! {

/// A snap engaged on one axis: the coordinate the window is held at, and the
/// natural (unsnapped) coordinate at the moment the snap engaged, which tells in
/// which direction a pull breaks it.
#[derive(Clone, Copy, Debug, PartialEq, Eq)]
pub struct AxisSnap<P> {
    pub snapped_pos: P,
    pub natural_at_engage: P,
}

/// The cooldown once its expiry test has been made: an expired cooldown is cleared.
pub open spec fn settled_cooldown<P>(cooldown: Option<P>, expired: bool) -> Option<P> {
    if expired {
        None
    } else {
        cooldown
    }
}

/// The snap, the cooldown and the position after one update, given what the three
/// tests found: whether the engaged snap `breaks`, whether the cooldown has
/// `expired`, and the closest snap `candidate`.
pub open spec fn axis_outcome<P>(
    snap: Option<AxisSnap<P>>,
    cooldown: Option<P>,
    natural_pos: P,
    breaks: bool,
    expired: bool,
    candidate: Option<P>,
) -> (Option<AxisSnap<P>>, Option<P>, P) {
    match snap {
        Some(s) => if breaks {
            (None, Some(s.snapped_pos), natural_pos)
        } else {
            (Some(s), cooldown, s.snapped_pos)
        },
        None => {
            let cd = settled_cooldown(cooldown, expired);
            match (cd, candidate) {
                (None, Some(c)) => (
                    Some(AxisSnap { snapped_pos: c, natural_at_engage: natural_pos }),
                    None,
                    c,
                ),
                _ => (None, cd, natural_pos),
            }
        },
    }
}

/// Whether `breaks`, `expired` and `candidate` are what the three test functions
/// returned in an update from `snap` and `cooldown`, for each test that the update
/// makes: the break test only while snapped, the expiry test only while free and on
/// cooldown, the candidate search only while free and off cooldown.
pub open spec fn tests_found<P, B: Fn(AxisSnap<P>) -> bool, E: Fn(P) -> bool, C: Fn() -> Option<P>>(
    snap: Option<AxisSnap<P>>,
    cooldown: Option<P>,
    snap_breaks: B,
    cooldown_expired: E,
    find_candidate: C,
    breaks: bool,
    expired: bool,
    candidate: Option<P>,
) -> bool {
    &&& (snap matches Some(s) ==> call_ensures(snap_breaks, (s,), breaks))
    &&& (snap is None ==> (cooldown matches Some(cd) ==> call_ensures(cooldown_expired, (cd,), expired)))
    &&& (snap is None && cooldown is None ==> !expired)
    &&& (snap is None && settled_cooldown(cooldown, expired) is None ==> call_ensures(
        find_candidate,
        (),
        candidate,
    ))
}

/// Updates the snap state of one axis for the window's natural coordinate
/// `natural_pos` and returns the coordinate the window takes on that axis.
///
/// While snapped, the snap holds until `snap_breaks` says the pull has gone past the
/// break force; then it is released, its coordinate goes on cooldown, and the window
/// takes its natural coordinate. While free, a cooldown is cleared once
/// `cooldown_expired` says the natural coordinate has left it; off cooldown,
/// `find_candidate` gives the closest edge to snap to, if any, and the axis snaps
/// there.
pub fn update_axis<P: Copy, B: Fn(AxisSnap<P>) -> bool, E: Fn(P) -> bool, C: Fn() -> Option<P>>(
    snap: &mut Option<AxisSnap<P>>,
    cooldown: &mut Option<P>,
    natural_pos: P,
    snap_breaks: B,
    cooldown_expired: E,
    find_candidate: C,
) -> (pos: P)
    requires
        forall|s: AxisSnap<P>| call_requires(snap_breaks, (s,)),
        forall|cd: P| call_requires(cooldown_expired, (cd,)),
        call_requires(find_candidate, ()),
    ensures
        exists|breaks: bool, expired: bool, candidate: Option<P>|
            {
                &&& #[trigger] tests_found(
                    *old(snap),
                    *old(cooldown),
                    snap_breaks,
                    cooldown_expired,
                    find_candidate,
                    breaks,
                    expired,
                    candidate,
                )
                &&& (*final(snap), *final(cooldown), pos) == axis_outcome(
                    *old(snap),
                    *old(cooldown),
                    natural_pos,
                    breaks,
                    expired,
                    candidate,
                )
            },
{
    match *snap {
        Some(s) => {
            let breaks = snap_breaks(s);
            if breaks {
                *cooldown = Some(s.snapped_pos);
                *snap = None;
                proof {
                    assert(tests_found(Some(s), *old(cooldown), snap_breaks, cooldown_expired,
                        find_candidate, breaks, false, None));
                }
                natural_pos
            } else {
                proof {
                    assert(tests_found(Some(s), *old(cooldown), snap_breaks, cooldown_expired,
                        find_candidate, breaks, false, None));
                }
                s.snapped_pos
            }
        },
        None => {
            let mut expired = false;
            if let Some(cd) = *cooldown {
                expired = cooldown_expired(cd);
                if expired {
                    *cooldown = None;
                }
            }
            if cooldown.is_none() {
                let candidate = find_candidate();
                proof {
                    assert(tests_found(None, *old(cooldown), snap_breaks, cooldown_expired,
                        find_candidate, false, expired, candidate));
                }
                if let Some(c) = candidate {
                    *snap = Some(AxisSnap { snapped_pos: c, natural_at_engage: natural_pos });
                    return c;
                }
                natural_pos
            } else {
                proof {
                    assert(tests_found(None, *old(cooldown), snap_breaks, cooldown_expired,
                        find_candidate, false, expired, None));
                }
                natural_pos
            }
        },
    }
}

/// Law: after every update the window stands at the snapped coordinate if the axis
/// is snapped, and at its natural coordinate if it is free.
pub proof fn lemma_position_follows_snap<P>(
    snap: Option<AxisSnap<P>>,
    cooldown: Option<P>,
    natural_pos: P,
    breaks: bool,
    expired: bool,
    candidate: Option<P>,
)
    ensures
        ({
            let (s, _, pos) = axis_outcome(snap, cooldown, natural_pos, breaks, expired, candidate);
            pos == match s {
                Some(a) => a.snapped_pos,
                None => natural_pos,
            }
        }),
{
}

/// Law: an axis is never snapped and on cooldown at once. Starting from a state where
/// it is not (as the default, unsnapped state), no update makes it so.
pub proof fn lemma_never_snapped_on_cooldown<P>(
    snap: Option<AxisSnap<P>>,
    cooldown: Option<P>,
    natural_pos: P,
    breaks: bool,
    expired: bool,
    candidate: Option<P>,
)
    requires
        !(snap is Some && cooldown is Some),
    ensures
        ({
            let (s, cd, _) = axis_outcome(snap, cooldown, natural_pos, breaks, expired, candidate);
            !(s is Some && cd is Some)
        }),
{
}

/// Law: breaking a snap releases it and puts the coordinate it held on cooldown, and
/// a snap that does not break holds, with nothing else changed.
pub proof fn lemma_break_releases<P>(
    s: AxisSnap<P>,
    cooldown: Option<P>,
    natural_pos: P,
    breaks: bool,
    expired: bool,
    candidate: Option<P>,
)
    ensures
        breaks ==> axis_outcome(Some(s), cooldown, natural_pos, breaks, expired, candidate)
            == (None::<AxisSnap<P>>, Some(s.snapped_pos), natural_pos),
        !breaks ==> axis_outcome(Some(s), cooldown, natural_pos, breaks, expired, candidate)
            == (Some(s), cooldown, s.snapped_pos),
{
}

/// Law: a free axis on a cooldown that has not expired does not snap, whatever edge
/// is near, and keeps its cooldown.
pub proof fn lemma_cooldown_blocks_snap<P>(
    cd: P,
    natural_pos: P,
    breaks: bool,
    candidate: Option<P>,
)
    ensures
        axis_outcome(None, Some(cd), natural_pos, breaks, false, candidate)
            == (None::<AxisSnap<P>>, Some(cd), natural_pos),
{
}

/// Law: an axis that broke away from a snap does not snap again, to any edge, until
/// its cooldown has expired: the update after the break leaves it free and on
/// cooldown at the coordinate it broke from, with the window at its natural coordinate.
pub proof fn lemma_no_resnap_during_cooldown<P>(
    s: AxisSnap<P>,
    cooldown: Option<P>,
    first_pos: P,
    second_pos: P,
    expired_first: bool,
    candidate_first: Option<P>,
    breaks_second: bool,
    candidate_second: Option<P>,
)
    ensures
        ({
            let (s1, cd1, _) = axis_outcome(Some(s), cooldown, first_pos, true, expired_first, candidate_first);
            axis_outcome(s1, cd1, second_pos, breaks_second, false, candidate_second)
                == (None::<AxisSnap<P>>, Some(s.snapped_pos), second_pos)
        }),
{
}

/// Law: a free axis off cooldown snaps to the candidate edge when there is one,
/// remembering the natural coordinate it engaged at, and stays free otherwise.
pub proof fn lemma_free_axis_snaps<P>(
    cooldown: Option<P>,
    natural_pos: P,
    breaks: bool,
    expired: bool,
    candidate: Option<P>,
)
    requires
        settled_cooldown(cooldown, expired) is None,
    ensures
        axis_outcome(None, cooldown, natural_pos, breaks, expired, candidate) == match candidate {
            Some(c) => (Some(AxisSnap { snapped_pos: c, natural_at_engage: natural_pos }), None::<P>, c),
            None => (None::<AxisSnap<P>>, None::<P>, natural_pos),
        },
{
}

} // verus!
