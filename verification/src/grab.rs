//! Whether a client's move or resize request may take over the pointer grab.
use vstd::prelude::*;

verus! {

/// The grab that a move or resize request on a surface may take over: the pointer's
/// active grab, and only when the button press that started it was on that surface.
/// `start` is the grab's start data, if the pointer has an active grab;
/// `pressed_on_surface` tells of a start whether it has a focus (`None` if not) and,
/// if so, whether that focus is on the requesting surface. This keeps a client from
/// stealing a grab that another surface started.
pub fn check_grab<G, F: Fn(&G) -> Option<bool>>(start: Option<G>, pressed_on_surface: F) -> (r: Option<G>)
    requires
        forall|g: &G| call_requires(pressed_on_surface, (g,)),
    ensures
        match start {
            None => r is None,
            Some(g) => exists|on: Option<bool>|
                #[trigger] call_ensures(pressed_on_surface, (&g,), on)
                    && r == (if on == Some(true) { Some(g) } else { None::<G> }),
        },
{
    match start {
        None => None,
        Some(g) => {
            let on = pressed_on_surface(&g);
            match on {
                Some(true) => Some(g),
                _ => None,
            }
        },
    }
}

} // verus!
