# driftwm window-management core

`src/` is a Verus-verified library with the decision logic of the driftwm
canvas compositor:

- `state_set`: the set of xdg-toplevel states on a window's pending state
  (never holds a state twice, keeps insertion order);
- `tiling`: setting and unsetting the four tiled states, with the laws that
  unsetting undoes setting and that both are idempotent;
- `window`: server-side decoration choice (xdg-decoration mode or MOTIF hints), fullscreen/fit configure plans for
  Wayland and X11 windows, the start of an interactive resize, and where a new
  window is first placed;
- `snap`: the per-axis edge-snap state machine (snapped, free, cooldown),
  generic over the coordinate type;
- `cursor`: the resize cursor per edge, and cursor requests during grabs;
- `grab`: which pointer grab a move or resize request may take over;
- `momentum`: which frames of scroll momentum move the camera.

`app/` holds the floating-point geometry (canvas coordinates, momentum
physics, snap candidate search) and the smithay calls that apply the
library's decisions to live surfaces and pointers. The compositor's state
type and its handler impls are not part of this tree.
