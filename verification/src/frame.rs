//! The bracket of a drawing frame: begin, render, end.

use vstd::prelude::*;

verus! {

/// Draws one frame on `facade`: begins it for `viewport`, hands the drawing
/// context and the facade to `render`, ends the frame, and returns what
/// `render` returned.
///
/// The frame is ended whatever value `render` returns, an error value
/// included. `render` gets the facade itself, so it can draw through it, and
/// can bracket a frame of its own. A `render` that panics unwinds through
/// `draw`, which ends no frame then: report a failure by the returned value.
///
/// The contract follows the facade through the three calls: `begin` takes it
/// from its state at entry and gives the drawing context, `render` takes it
/// from where `begin` left it and gives the returned value, `end` takes it
/// from where `render` left it to its state at exit.
pub fn draw<B, V, C, R, Begin, Render, End>(
    facade: &mut B,
    viewport: V,
    begin: Begin,
    render: Render,
    end: End,
) -> (retval: R) where
    Begin: FnOnce(&mut B, V) -> C,
    Render: FnOnce(C, &mut B) -> R,
    End: FnOnce(&mut B),

    requires
        forall|b1: &mut B| *b1 == *old(facade) ==> call_requires(begin, (b1, viewport)),
        forall|b1: &mut B, context: C, b2: &mut B|
            *b1 == *old(facade) && #[trigger] call_ensures(begin, (b1, viewport), context) && *b2
                == *final(b1) ==> #[trigger] call_requires(render, (context, b2)),
        forall|b1: &mut B, context: C, b2: &mut B, value: R, b3: &mut B|
            *b1 == *old(facade) && #[trigger] call_ensures(begin, (b1, viewport), context) && *b2
                == *final(b1) && #[trigger] call_ensures(render, (context, b2), value) && *b3
                == *final(b2) ==> #[trigger] call_requires(end, (b3,)),
    ensures
        exists|context: C, b1: &mut B, b2: &mut B, b3: &mut B|
            *b1 == *old(facade) && #[trigger] call_ensures(begin, (b1, viewport), context) && *b2
                == *final(b1) && #[trigger] call_ensures(render, (context, b2), retval) && *b3
                == *final(b2) && #[trigger] call_ensures(end, (b3,), ()) && *final(b3)
                == *final(facade),
{
    let context = begin(facade, viewport);
    let retval = render(context, facade);
    end(facade);
    retval
}

/// A frame that was begun is ended: after `draw`, as many frames are open as
/// before it.
///
/// `open_frames` counts the frames that are begun and not yet ended in a
/// state of the facade. Where `begin` opens one frame, `end` closes one and
/// `render` returns with as many open as it found, a facade that went from
/// `before` to `after` as `draw` takes it has the count where it was, for
/// every value that `render` may return.
pub proof fn lemma_draw_ends_the_frame<B, V, C, R, Begin, Render, End>(
    begin: Begin,
    render: Render,
    end: End,
    before: B,
    viewport: V,
    retval: R,
    after: B,
    open_frames: spec_fn(B) -> int,
) where Begin: FnOnce(&mut B, V) -> C, Render: FnOnce(C, &mut B) -> R, End: FnOnce(&mut B)
    requires
        exists|context: C, b1: &mut B, b2: &mut B, b3: &mut B|
            *b1 == before && #[trigger] call_ensures(begin, (b1, viewport), context) && *b2
                == *final(b1) && #[trigger] call_ensures(render, (context, b2), retval) && *b3
                == *final(b2) && #[trigger] call_ensures(end, (b3,), ()) && *final(b3) == after,
        forall|b: &mut B, v: V, context: C| #[trigger]
            call_ensures(begin, (b, v), context) ==> open_frames(*final(b)) == open_frames(*b)
                + 1,
        forall|context: C, b: &mut B, value: R| #[trigger]
            call_ensures(render, (context, b), value) ==> open_frames(*final(b))
                == open_frames(*b),
        forall|b: &mut B| #[trigger]
            call_ensures(end, (b,), ()) ==> open_frames(*final(b)) == open_frames(*b) - 1,
    ensures
        open_frames(after) == open_frames(before),
{
}

/// `draw` returns the value that `render` produced, unchanged: where
/// `render` can only return `expected`, a `draw` that returned `retval`
/// returned `expected`.
pub proof fn lemma_draw_returns_rendered_value<B, V, C, R, Begin, Render, End>(
    begin: Begin,
    render: Render,
    end: End,
    before: B,
    viewport: V,
    retval: R,
    after: B,
    expected: R,
) where Begin: FnOnce(&mut B, V) -> C, Render: FnOnce(C, &mut B) -> R, End: FnOnce(&mut B)
    requires
        exists|context: C, b1: &mut B, b2: &mut B, b3: &mut B|
            *b1 == before && #[trigger] call_ensures(begin, (b1, viewport), context) && *b2
                == *final(b1) && #[trigger] call_ensures(render, (context, b2), retval) && *b3
                == *final(b2) && #[trigger] call_ensures(end, (b3,), ()) && *final(b3) == after,
        forall|context: C, b: &mut B, value: R| #[trigger]
            call_ensures(render, (context, b), value) ==> value == expected,
    ensures
        retval == expected,
{
}

} // verus!
