//! What displaying an interface's element does, according to why the
//! interface was run.
//!
//! The application builds the interface, runs its update and draws it; the
//! decisions between those steps, and the state they leave behind, are here.

use vstd::prelude::*;
use core::marker::PhantomData;
use crate::cursor::{resolve_cursor, resolved_cursor, Cursor, IcedCursor};
use crate::input::{frame_events, FrameInput, IcedEventQueue, InputEvent};
use crate::modifiers::{modifiers_of, ModifierKey};

verus! {

/// Why an interface's view is run.
pub enum IcedRunCause<Msg> {
    /// Draw the interface.
    Draw(PhantomData<Msg>),
    /// Update the interface with the queued input.
    Update,
}

/// The shared state that displaying an element reads and changes.
#[derive(Clone, Debug, PartialEq)]
pub struct DisplayState<E, P> {
    pub events: IcedEventQueue<E>,
    pub cursor: IcedCursor<P>,
    /// Whether an interface was drawn since the flag was last lowered.
    pub did_draw: bool,
}

/// The contents of a `DisplayState`.
pub struct DisplayStateView<E, P> {
    pub events: Seq<E>,
    pub cursor: Cursor<P>,
    pub did_draw: bool,
}

impl<E, P> View for DisplayState<E, P> {
    type V = DisplayStateView<E, P>;

    open spec fn view(&self) -> DisplayStateView<E, P> {
        DisplayStateView { events: self.events@, cursor: self.cursor.0, did_draw: self.did_draw }
    }
}

/// The events that the interface's update is given.
#[derive(Clone, Copy, Debug, PartialEq, Eq, Structural)]
pub enum UpdateFeed {
    /// A single request to redraw, stamped with the time of the update.
    RedrawRequested,
    /// The events in the shared queue, which stay queued for the other
    /// interfaces updated in the same frame.
    Queued,
}

/// What the application does with the interface once it is built: update it
/// with `feed`, then pass on its redraw request if `finish_redraw`, then draw
/// it if `draw`. The interface's messages are sent and its cache kept in every
/// case.
#[derive(Clone, Copy, Debug, PartialEq, Eq, Structural)]
pub struct DisplayAction {
    pub feed: UpdateFeed,
    pub finish_redraw: bool,
    pub draw: bool,
}

/// The events an interface's update is given.
pub enum FeedView<E> {
    RedrawRequested,
    Queued(Seq<E>),
}

/// The events that `action` has the application give the interface, when the
/// shared state is `state`.
pub open spec fn fed_events<E, P>(state: DisplayStateView<E, P>, action: DisplayAction) -> FeedView<E> {
    match action.feed {
        UpdateFeed::RedrawRequested => FeedView::RedrawRequested,
        UpdateFeed::Queued => FeedView::Queued(state.events),
    }
}

/// The state after displaying: a draw marks that something was drawn; an
/// update sets the cursor for the frame. Neither changes the queued events,
/// which input processing replaces at the start of the next frame.
pub open spec fn display_next<Msg, E, P>(
    state: DisplayStateView<E, P>,
    cause: IcedRunCause<Msg>,
    window_position: Option<P>,
    touch_position: Option<P>,
) -> DisplayStateView<E, P> {
    match cause {
        IcedRunCause::Draw(_) => DisplayStateView { did_draw: true, ..state },
        IcedRunCause::Update => DisplayStateView {
            cursor: resolved_cursor(window_position, touch_position),
            ..state
        },
    }
}

/// What displaying asks of the application: a draw updates the interface
/// with a single redraw request, passes its redraw request on and draws it;
/// an update feeds it the queued events and draws nothing.
pub open spec fn display_action<Msg>(cause: IcedRunCause<Msg>) -> DisplayAction {
    match cause {
        IcedRunCause::Draw(_) => DisplayAction { feed: UpdateFeed::RedrawRequested, finish_redraw: true, draw: true },
        IcedRunCause::Update => DisplayAction { feed: UpdateFeed::Queued, finish_redraw: false, draw: false },
    }
}

/// Displays an element: decides what the application does with the built
/// interface and updates the shared state; the application then gives the
/// interface `fed_events` of the state.
/// `window_position` and `touch_position` are as for `iced_update`; a draw
/// does not read them.
pub fn display_step<Msg, E, P>(
    state: &mut DisplayState<E, P>,
    cause: &IcedRunCause<Msg>,
    window_position: Option<P>,
    touch_position: Option<P>,
) -> (action: DisplayAction)
    ensures
        final(state)@ == display_next(old(state)@, *cause, window_position, touch_position),
        action == display_action(*cause),
        final(state).events@ == old(state).events@,
        *cause is Update && window_position is Some
            ==> final(state).cursor.0 == Cursor::Available(window_position->0),
        *cause is Update && window_position is None && touch_position is Some
            ==> final(state).cursor.0 == Cursor::Available(touch_position->0),
        *cause is Update && window_position is None && touch_position is None
            ==> final(state).cursor.0 == Cursor::<P>::Unavailable,
        *cause is Update ==> final(state).did_draw == old(state).did_draw && action.feed == UpdateFeed::Queued
            && !action.draw && !action.finish_redraw,
        *cause is Draw ==> final(state).did_draw && final(state).cursor == old(state).cursor
            && action.feed == UpdateFeed::RedrawRequested && action.draw && action.finish_redraw,
{
    match cause {
        IcedRunCause::Draw(_) => {
            state.did_draw = true;
            DisplayAction { feed: UpdateFeed::RedrawRequested, finish_redraw: true, draw: true }
        },
        IcedRunCause::Update => {
            state.cursor.0 = resolve_cursor(window_position, touch_position);
            DisplayAction { feed: UpdateFeed::Queued, finish_redraw: false, draw: false }
        },
    }
}

/// Displaying, for any interface and either cause, leaves the queued events
/// as they were.
pub proof fn lemma_display_keeps_queue<Msg, E, P>(
    state: DisplayStateView<E, P>,
    cause: IcedRunCause<Msg>,
    window_position: Option<P>,
    touch_position: Option<P>,
)
    ensures
        display_next(state, cause, window_position, touch_position).events == state.events,
{
}

/// An update feeds the interface exactly the queued events, and so does the
/// update of any other interface that runs after it in the same frame.
pub proof fn lemma_update_feeds_queue<Msg, Other, E, P>(
    state: DisplayStateView<E, P>,
    window_position: Option<P>,
    touch_position: Option<P>,
    later_window_position: Option<P>,
    later_touch_position: Option<P>,
)
    ensures
        fed_events(
            display_next(state, IcedRunCause::<Msg>::Update, window_position, touch_position),
            display_action(IcedRunCause::<Msg>::Update),
        ) == FeedView::Queued(state.events),
        ({
            let first = display_next(state, IcedRunCause::<Msg>::Update, window_position, touch_position);
            let second = display_next(first, IcedRunCause::<Other>::Update, later_window_position, later_touch_position);
            fed_events(second, display_action(IcedRunCause::<Other>::Update)) == FeedView::Queued(state.events)
        }),
{
}

/// A draw feeds the interface one redraw request and draws it; it keeps the
/// queued events and the cursor, and marks that something was drawn.
pub proof fn lemma_draw_keeps_input<Msg, E, P>(
    state: DisplayStateView<E, P>,
    window_position: Option<P>,
    touch_position: Option<P>,
)
    ensures
        display_action(IcedRunCause::Draw(PhantomData::<Msg>))
            == (DisplayAction { feed: UpdateFeed::RedrawRequested, finish_redraw: true, draw: true }),
        display_next(state, IcedRunCause::Draw(PhantomData::<Msg>), window_position, touch_position)
            == (DisplayStateView { did_draw: true, ..state }),
{
}

/// The events that input processing queues for a frame are what every
/// interface's update is fed in that frame, whatever other interfaces were
/// drawn or updated before it.
pub proof fn lemma_frame_input_reaches_every_update<Msg, Other, P, B, W, K, T, Q>(
    input: FrameInput<P, B, W, K, T>,
    held: Set<ModifierKey>,
    state: DisplayStateView<InputEvent<P, B, W, K, T>, Q>,
    earlier: IcedRunCause<Other>,
    earlier_window_position: Option<Q>,
    earlier_touch_position: Option<Q>,
    window_position: Option<Q>,
    touch_position: Option<Q>,
)
    requires
        state.events == frame_events(input, modifiers_of(held)),
    ensures
        fed_events(
            display_next(state, IcedRunCause::<Msg>::Update, window_position, touch_position),
            display_action(IcedRunCause::<Msg>::Update),
        ) == FeedView::Queued(frame_events(input, modifiers_of(held))),
        ({
            let after_earlier = display_next(state, earlier, earlier_window_position, earlier_touch_position);
            let after = display_next(after_earlier, IcedRunCause::<Msg>::Update, window_position, touch_position);
            fed_events(after, display_action(IcedRunCause::<Msg>::Update))
                == FeedView::Queued(frame_events(input, modifiers_of(held)))
        }),
{
}

/// An update sets the cursor the interfaces see to the window's cursor where
/// there is one, else to the touch position, else to no cursor, whatever the
/// cursor was before.
pub proof fn lemma_update_sets_cursor<Msg, E, P>(
    state: DisplayStateView<E, P>,
    window_position: Option<P>,
    touch_position: Option<P>,
)
    ensures
        window_position matches Some(p)
            ==> display_next(state, IcedRunCause::<Msg>::Update, window_position, touch_position).cursor
                == Cursor::Available(p),
        window_position is None && touch_position is Some
            ==> display_next(state, IcedRunCause::<Msg>::Update, window_position, touch_position).cursor
                == Cursor::Available(touch_position->0),
        window_position is None && touch_position is None
            ==> display_next(state, IcedRunCause::<Msg>::Update, window_position, touch_position).cursor
                == Cursor::<P>::Unavailable,
{
}

} // verus!
