//! The facade's three resources and how they come to be.

use crate::piston::{
    events_new, events_settings, settings_api, settings_with_opengl, with_opengl,
};
use crate::version::{numbers_of, version_numbers, OPENGL_VERSION};
use event_loop::{EventSettings, Events};
use opengl_graphics::OpenGL;
use vstd::prelude::*;
use window::WindowSettings;

verus! {

/// Why a facade could not be constructed: the window or the graphics
/// back-end could not be built. `cause` is the failing builder's own error,
/// untouched.
#[derive(Debug)]
pub struct ConstructionError<E> {
    pub cause: E,
}

/// The facade: an event source, a window of type `W` and a graphics back-end
/// of type `G`, all three owned by it alone.
#[derive(Debug)]
pub struct Context<W, G> {
    pub events: Events,
    pub window: W,
    pub graphics: G,
}

/// The settings a facade's window is built from: `settings` with the
/// graphics API set to OpenGL in the fixed version.
pub open spec fn prepared(settings: WindowSettings) -> WindowSettings {
    settings_with_opengl(
        settings,
        numbers_of(OPENGL_VERSION).0,
        numbers_of(OPENGL_VERSION).1,
    )
}

impl<W, G> Context<W, G> {
    /// Constructs a facade.
    ///
    /// The event source is made from `event_settings`. The window is built
    /// by `build_window` from `window_settings` with the graphics API set to
    /// OpenGL 2.0, and the graphics back-end after it by `build_graphics`,
    /// for the same version.
    ///
    /// Where the window cannot be built, its builder's error comes back in a
    /// [`ConstructionError`], and no graphics back-end is asked for. Where
    /// the window is built and the graphics back-end cannot be, the window is
    /// dropped and the graphics builder's error comes back in the same way.
    ///
    /// An event source cannot be made for a frame rate of zero.
    pub fn new<E, BuildWindow, BuildGraphics>(
        event_settings: EventSettings,
        window_settings: WindowSettings,
        build_window: BuildWindow,
        build_graphics: BuildGraphics,
    ) -> (result: Result<Context<W, G>, ConstructionError<E>>) where
        BuildWindow: FnOnce(WindowSettings) -> Result<W, E>,
        BuildGraphics: FnOnce(OpenGL) -> Result<G, E>,

        requires
            event_settings.max_fps != 0,
            settings_api(prepared(window_settings)) == Some(("OpenGL"@, 2u32, 0u32))
                ==> call_requires(build_window, (prepared(window_settings),)),
            forall|window: W| #[trigger]
                call_ensures(build_window, (prepared(window_settings),), Ok(window))
                    ==> call_requires(build_graphics, (OPENGL_VERSION,)),
        ensures
            settings_api(prepared(window_settings)) == Some(("OpenGL"@, 2u32, 0u32)),
            match result {
                Ok(facade) => {
                    &&& call_ensures(
                        build_window,
                        (prepared(window_settings),),
                        Ok(facade.window),
                    )
                    &&& call_ensures(build_graphics, (OPENGL_VERSION,), Ok(facade.graphics))
                    &&& events_settings(facade.events) == event_settings
                },
                Err(error) => {
                    ||| call_ensures(
                        build_window,
                        (prepared(window_settings),),
                        Err(error.cause),
                    )
                    ||| exists|window: W| #[trigger]
                        call_ensures(build_window, (prepared(window_settings),), Ok(window))
                            && call_ensures(
                            build_graphics,
                            (OPENGL_VERSION,),
                            Err(error.cause),
                        )
                },
            },
    {
        let numbers: (u32, u32) = version_numbers(OPENGL_VERSION);
        let events = events_new(event_settings);
        let settings = with_opengl(window_settings, numbers.0, numbers.1);
        let window = match build_window(settings) {
            Ok(window) => window,
            Err(cause) => {
                return Err(ConstructionError { cause });
            },
        };
        match build_graphics(OPENGL_VERSION) {
            Ok(graphics) => Ok(Context { events, window, graphics }),
            Err(cause) => Err(ConstructionError { cause }),
        }
    }
}

} // verus!
