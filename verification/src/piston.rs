//! The items of the Piston crates that the facade is built on, with what is
//! taken on trust about each of them.
//!
//! Nothing in this module is proved. Every contract here restates what the
//! crate's source shows, and the rest of the library is verified against these
//! contracts.

use event_loop::{EventSettings, Events};
use opengl_graphics::OpenGL;
use vstd::prelude::*;
use window::{Api, WindowSettings};

verus! {

/// `window::WindowSettings`: the configuration a window is built from. Its
/// fields are private, so a value of it is opaque here.
#[verifier::external_type_specification]
#[verifier::external_body]
pub struct ExWindowSettings(WindowSettings);

/// `event_loop::EventSettings`: six public fields, three `u64` rates and three
/// `bool` switches, which Verus reads from the crate itself.
#[verifier::external_type_specification]
pub struct ExEventSettings(EventSettings);

/// `event_loop::Events`: the event source. It holds clock readings, so a value
/// of it is opaque here.
#[verifier::external_type_specification]
#[verifier::external_body]
pub struct ExEvents(Events);

/// `opengl_graphics::OpenGL`: the enum of OpenGL versions, twelve variants
/// without fields, which Verus reads from the crate itself.
#[verifier::external_type_specification]
pub struct ExOpenGL(OpenGL);

/// The graphics API that `WindowSettings::get_maybe_graphics_api` reports for
/// `settings`: `None` while none was chosen, else the API's name with its
/// major and minor number.
pub uninterp spec fn settings_api(settings: WindowSettings) -> Option<(Seq<char>, u32, u32)>;

/// The settings that `WindowSettings::graphics_api` returns when it is given
/// `settings` and `Api::opengl(major, minor)`.
pub uninterp spec fn settings_with_opengl(
    settings: WindowSettings,
    major: u32,
    minor: u32,
) -> WindowSettings;

/// The settings that `EventLoop::get_event_settings` reports for `events`.
pub uninterp spec fn events_settings(events: Events) -> EventSettings;

/// The pair that `OpenGL::get_major_minor` returns, variant by variant.
pub open spec fn major_minor(version: OpenGL) -> (isize, isize) {
    match version {
        OpenGL::V2_0 => (2, 0),
        OpenGL::V2_1 => (2, 1),
        OpenGL::V3_0 => (3, 0),
        OpenGL::V3_1 => (3, 1),
        OpenGL::V3_2 => (3, 2),
        OpenGL::V3_3 => (3, 3),
        OpenGL::V4_0 => (4, 0),
        OpenGL::V4_1 => (4, 1),
        OpenGL::V4_2 => (4, 2),
        OpenGL::V4_3 => (4, 3),
        OpenGL::V4_4 => (4, 4),
        OpenGL::V4_5 => (4, 5),
    }
}

/// Calls `OpenGL::get_major_minor`, a `match` over the twelve variants that
/// gives each its two numbers. The contract repeats that table.
#[verifier::external_body]
pub(crate) fn get_major_minor(version: OpenGL) -> (numbers: (isize, isize))
    ensures
        numbers == major_minor(version),
{
    version.get_major_minor()
}

/// Calls `Api::opengl` and hands its result to `WindowSettings::graphics_api`.
///
/// `Api::opengl` fills a version with the name `"OpenGL"` and the two numbers.
/// `graphics_api` stores that version in the settings' `graphics_api` field
/// and returns the settings, every other field as it was. Trusted: the result
/// is the one named by [`settings_with_opengl`], and its graphics API reads
/// back as OpenGL with these two numbers.
#[verifier::external_body]
pub(crate) fn with_opengl(settings: WindowSettings, major: u32, minor: u32) -> (prepared:
    WindowSettings)
    ensures
        prepared == settings_with_opengl(settings, major, minor),
        settings_api(prepared) == Some(("OpenGL"@, major, minor)),
{
    settings.graphics_api(Api::opengl(major, minor))
}

/// Calls `Events::new`.
///
/// `Events::new` divides a billion by `max_fps`, and panics when that is
/// zero: the `requires` leaves that input out. The event source it returns
/// starts at the current clock reading, so only what holds whenever it is
/// called is trusted: it keeps the settings it was given.
#[verifier::external_body]
pub(crate) fn events_new(settings: EventSettings) -> (events: Events)
    requires
        settings.max_fps != 0,
    ensures
        events_settings(events) == settings,
{
    Events::new(settings)
}

} // verus!
