//! Where the interface sees the pointer.

use vstd::prelude::*;

verus! {

/// The pointer as the interface sees it: at a position, or nowhere.
#[derive(Clone, Debug, PartialEq)]
pub enum Cursor<P> {
    Available(P),
    Unavailable,
}

/// The cursor that the interface reads, kept between frames.
#[derive(Clone, Debug, PartialEq)]
pub struct IcedCursor<P>(pub Cursor<P>);

/// The cursor for a frame: the window's cursor where the window has one;
/// else the position of the touch input, where there is one; else none.
pub open spec fn resolved_cursor<P>(window_position: Option<P>, touch_position: Option<P>) -> Cursor<P> {
    match window_position {
        Some(position) => Cursor::Available(position),
        None => match touch_position {
            Some(position) => Cursor::Available(position),
            None => Cursor::Unavailable,
        },
    }
}

/// Picks the cursor for a frame; see `resolved_cursor`.
pub fn resolve_cursor<P>(window_position: Option<P>, touch_position: Option<P>) -> (cursor: Cursor<P>)
    ensures
        cursor == resolved_cursor(window_position, touch_position),
        window_position is Some ==> cursor == Cursor::Available(window_position->0),
        window_position is None && touch_position is Some ==> cursor == Cursor::Available(touch_position->0),
        window_position is None && touch_position is None ==> cursor == Cursor::<P>::Unavailable,
{
    match window_position {
        Some(position) => Cursor::Available(position),
        None => match touch_position {
            Some(position) => Cursor::Available(position),
            None => Cursor::Unavailable,
        },
    }
}

/// Sets the interface's cursor for the frame, before the interfaces update.
/// `window_position` is the window's cursor in the interface's coordinates,
/// where the window has one; `touch_position` is where the frame's touch input
/// points, where it points anywhere.
pub fn iced_update<P>(cursor: &mut IcedCursor<P>, window_position: Option<P>, touch_position: Option<P>)
    ensures
        final(cursor).0 == resolved_cursor(window_position, touch_position),
        window_position is Some ==> final(cursor).0 == Cursor::Available(window_position->0),
        window_position is None && touch_position is Some ==> final(cursor).0 == Cursor::Available(touch_position->0),
        window_position is None && touch_position is None ==> final(cursor).0 == Cursor::<P>::Unavailable,
{
    cursor.0 = resolve_cursor(window_position, touch_position);
}

/// The window's cursor, where there is one, is the frame's cursor, whatever
/// the touch input says; without it, the touch position is; without either,
/// there is no cursor.
pub proof fn lemma_cursor_choice<P>(window_position: Option<P>, touch_position: Option<P>)
    ensures
        window_position matches Some(p) ==> resolved_cursor(window_position, touch_position) == Cursor::Available(p),
        window_position is None && touch_position is Some
            ==> resolved_cursor(window_position, touch_position) == Cursor::Available(touch_position->0),
        window_position is None && touch_position is None
            ==> resolved_cursor(window_position, touch_position) == Cursor::<P>::Unavailable,
{
}

} // verus!
