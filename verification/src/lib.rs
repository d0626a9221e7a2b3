//! Verified window-management logic for a canvas compositor: the toplevel states it
//! puts on windows, edge snapping of dragged windows, the cursor it shows, scroll
//! momentum, and the per-window configure decisions.
pub mod state_set;
pub mod tiling;
pub mod window;
pub mod snap;
pub mod cursor;
pub mod momentum;
pub mod grab;
