//! A facade that bundles an event source, a window and a 2D graphics back-end.
//!
//! The library holds what the facade itself decides: which OpenGL version a
//! window and its graphics back-end are created for, in which order the three
//! resources come to be and what a failure to build the window or the
//! graphics back-end turns into, and the bracket of a drawing frame. Opening a
//! window and talking to OpenGL are left to the caller, who hands both in as
//! functions.

pub mod context;
pub mod frame;
pub mod piston;
pub mod version;

pub use context::{ConstructionError, Context};
pub use frame::draw;
pub use version::{version_numbers, OPENGL_VERSION};
