//! The OpenGL version that the facade asks for.

use crate::piston::{get_major_minor, major_minor};
use opengl_graphics::OpenGL;
use vstd::prelude::*;

verus! {

/// The OpenGL version that every window and every graphics back-end of a
/// facade is created for.
pub const OPENGL_VERSION: OpenGL = OpenGL::V2_0;

/// Major and minor number of `version`, as a window's settings hold them.
pub open spec fn numbers_of(version: OpenGL) -> (u32, u32) {
    (major_minor(version).0 as u32, major_minor(version).1 as u32)
}

/// Major and minor number of `version`, as a window's settings hold them.
pub fn version_numbers(version: OpenGL) -> (numbers: (u32, u32))
    ensures
        numbers == numbers_of(version),
        major_minor(version) == (numbers.0 as isize, numbers.1 as isize),
{
    let pair: (isize, isize) = get_major_minor(version);
    (pair.0 as u32, pair.1 as u32)
}

/// The fixed version is OpenGL 2.0.
pub proof fn lemma_fixed_version_is_2_0()
    ensures
        numbers_of(OPENGL_VERSION) == (2u32, 0u32),
{
}

} // verus!
