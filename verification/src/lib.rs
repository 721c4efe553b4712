//! Exact-arithmetic compositor for a fixed grid of coloured glyph cells.
//!
//! The crate turns a character grid and a physical viewport size into a
//! triangle mesh with screen positions and texture coordinates, maps pointer
//! positions back onto grid cells, and tracks the replacement of a displayed
//! mesh by a rebuilt one.  Every quantity is an integer or an exact fraction
//! of integers, so that each result is stated and proved without rounding
//! error; callers convert to the number format of their renderer.

pub mod atlas;
pub mod glyph;
pub mod keycode;
pub mod mesh;
pub mod ratio;
pub mod scaler;
pub mod swap;

pub use atlas::FontScaler;
pub use glyph::{Rgba, TerminalGlyph};
pub use keycode::VirtualKeyCode;
pub use mesh::{Mesh, MeshNormal, MeshPosition, SimpleBackendWithBackground};
pub use ratio::Ratio;
pub use scaler::{default_gutter_size, Platform, ScreenScaler, TerminalScalingMode};
pub use swap::{MeshSwapCoordinator, PendingSwap, SwapState};
