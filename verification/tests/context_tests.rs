use std::marker::PhantomData;

use bevy_iced::context::{display_step, DisplayState, IcedRunCause, UpdateFeed};
use bevy_iced::cursor::{iced_update, resolve_cursor, Cursor, IcedCursor};
use bevy_iced::input::IcedEventQueue;

fn state(events: Vec<u32>) -> DisplayState<u32, (i32, i32)> {
    DisplayState {
        events: IcedEventQueue(events),
        cursor: IcedCursor(Cursor::Available((5, 5))),
        did_draw: false,
    }
}

#[test]
fn window_cursor_comes_first() {
    assert_eq!(resolve_cursor(Some((1, 2)), Some((3, 4))), Cursor::Available((1, 2)));
    assert_eq!(resolve_cursor(None, Some((3, 4))), Cursor::Available((3, 4)));
    assert_eq!(resolve_cursor::<(i32, i32)>(None, None), Cursor::Unavailable);
}

#[test]
fn update_system_sets_cursor() {
    let mut cursor = IcedCursor(Cursor::Available((9, 9)));
    iced_update(&mut cursor, None, None);
    assert_eq!(cursor, IcedCursor(Cursor::Unavailable));
    iced_update(&mut cursor, None, Some((2, 3)));
    assert_eq!(cursor, IcedCursor(Cursor::Available((2, 3))));
}

#[test]
fn draw_feeds_a_redraw_request_and_keeps_input() {
    let mut s = state(vec![1, 2, 3]);
    let cause: IcedRunCause<()> = IcedRunCause::Draw(PhantomData);
    let action = display_step(&mut s, &cause, None, None);
    assert_eq!(action.feed, UpdateFeed::RedrawRequested);
    assert!(action.finish_redraw);
    assert!(action.draw);
    assert_eq!(s.events.0, vec![1, 2, 3]);
    assert_eq!(s.cursor, IcedCursor(Cursor::Available((5, 5))));
    assert!(s.did_draw);
}

#[test]
fn update_feeds_the_queue_and_keeps_it() {
    let mut s = state(vec![1, 2, 3]);
    let cause: IcedRunCause<()> = IcedRunCause::Update;
    let action = display_step(&mut s, &cause, Some((0, 1)), None);
    assert_eq!(action.feed, UpdateFeed::Queued);
    assert!(!action.finish_redraw);
    assert!(!action.draw);
    assert_eq!(s.events.0, vec![1, 2, 3]);
    assert_eq!(s.cursor, IcedCursor(Cursor::Available((0, 1))));
    assert!(!s.did_draw);
}

#[test]
fn second_interface_gets_the_same_input() {
    let mut s = state(vec![4, 5]);
    let first: IcedRunCause<u8> = IcedRunCause::Update;
    let second: IcedRunCause<u16> = IcedRunCause::Update;
    display_step(&mut s, &first, None, None);
    let action = display_step(&mut s, &second, None, Some((7, 8)));
    assert_eq!(action.feed, UpdateFeed::Queued);
    assert_eq!(s.events.0, vec![4, 5]);
    assert_eq!(s.cursor, IcedCursor(Cursor::Available((7, 8))));
}

#[test]
fn draw_between_loses_no_input() {
    let mut s = state(vec![4, 5]);
    let draw: IcedRunCause<()> = IcedRunCause::Draw(PhantomData);
    let update: IcedRunCause<()> = IcedRunCause::Update;
    display_step(&mut s, &draw, None, None);
    let action = display_step(&mut s, &update, None, Some((7, 8)));
    assert_eq!(action.feed, UpdateFeed::Queued);
    assert_eq!(s.events.0, vec![4, 5]);
    assert!(s.did_draw);
}
