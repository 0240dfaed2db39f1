//! What the keyboard, the pointer and the window have told so far.

use crate::cursor::Cursor;
use std::collections::HashMap;
use vstd::prelude::*;

verus! {

/// One thing that the window reports.
#[derive(Debug, Clone, Copy, PartialEq, Eq, Structural)]
pub enum Event {
    /// The window was closed.
    Closed,
    /// A key went down (`true`) or up; the key's code, where it has one.
    KeyboardInput(bool, Option<u32>),
    /// The pointer moved to this point of the window.
    MouseMoved(i32, i32),
    /// The window now has this width and height.
    Resized(i32, i32),
    /// Anything else.
    Other,
}

/// Half of a window's width or height.
pub open spec fn half(size: i32) -> int {
    if size >= 0 {
        size / 2
    } else {
        -((-size) / 2)
    }
}

/// Half of a window's width or height.
fn halve(size: i32) -> (middle: i32)
    ensures
        middle == half(size),
{
    size / 2
}

/// All that an `Input` holds.
pub struct Told {
    /// The last state that each key was reported in: down (`true`) or up.
    pub keys: Map<u32, bool>,
    /// The pointer's last move, and the point it is put back to.
    pub cursor: Cursor,
    /// The window's width and height.
    pub winsize: (i32, i32),
    /// Whether the user has asked for the end.
    pub should_close: bool,
    /// The code of the key that asks for the end.
    pub quit: u32,
}

/// Whether an event asks for the end: the window was closed, or the key
/// with the code `quit` went down.
pub open spec fn asks_to_close(event: Event, quit: u32) -> bool {
    event == Event::Closed || event == Event::KeyboardInput(true, Some(quit))
}

/// Whether an event asks for the end.
fn is_event_should_close(event: &Event, quit: u32) -> (closes: bool)
    ensures
        closes == asks_to_close(*event, quit),
{
    match *event {
        Event::Closed => true,
        Event::KeyboardInput(true, Some(key)) => key == quit,
        _ => false,
    }
}

/// Gathers what the window reports.
pub struct Input {
    keys: HashMap<u32, bool>,
    cursor: Cursor,
    winsize: (i32, i32),
    should_close: bool,
    quit: u32,
}

impl View for Input {
    type V = Told;

    closed spec fn view(&self) -> Told {
        Told {
            keys: self.keys@,
            cursor: self.cursor,
            winsize: self.winsize,
            should_close: self.should_close,
            quit: self.quit,
        }
    }
}

impl Input {
    /// The input of a window of the given width and height, before
    /// anything was reported: no key is down, and the pointer rests in the
    /// middle. The key with the code `quit` will ask for the end.
    pub fn new(width: i32, height: i32, quit: u32) -> (input: Input)
        ensures
            input@.keys == Map::<u32, bool>::empty(),
            input@.cursor.center() == (half(width) as i32, half(height) as i32),
            input@.cursor.delta() == (0i32, 0i32),
            input@.winsize == (width, height),
            !input@.should_close,
            input@.quit == quit,
    {
        Input {
            keys: HashMap::new(),
            cursor: Cursor::new(halve(width), halve(height)),
            winsize: (width, height),
            should_close: false,
            quit,
        }
    }

    /// Tells whether `update` can take this event: any event but a move of
    /// the pointer too far from the middle to be measured.
    pub fn can_update(&self, event: &Event) -> (fits: bool)
        ensures
            fits == (*event matches Event::MouseMoved(xpos, ypos) ==> self@.cursor.measures(
                xpos,
                ypos,
            )),
    {
        match *event {
            Event::MouseMoved(xpos, ypos) => self.cursor.can_update(xpos, ypos),
            _ => true,
        }
    }

    /// Takes in one event. Where the pointer has moved, the point to put it
    /// back to is handed back; the caller does that.
    ///
    /// An event that asks for the end is remembered for good. A key with a
    /// code is noted as down or up. A move of the pointer is measured from
    /// the middle of the window. A new size moves that middle.
    pub fn update(&mut self, event: &Event) -> (back: Option<(i32, i32)>)
        requires
            *event matches Event::MouseMoved(xpos, ypos) ==> old(self)@.cursor.measures(xpos, ypos),
        ensures
            final(self)@.quit == old(self)@.quit,
            final(self)@.should_close == (old(self)@.should_close || asks_to_close(
                *event,
                old(self)@.quit,
            )),
            final(self)@.keys == match *event {
                Event::KeyboardInput(state, Some(key)) => old(self)@.keys.insert(key, state),
                _ => old(self)@.keys,
            },
            match *event {
                Event::MouseMoved(xpos, ypos) => {
                    &&& back == Some(old(self)@.cursor.center())
                    &&& final(self)@.cursor.center() == old(self)@.cursor.center()
                    &&& final(self)@.cursor.delta().0 == xpos - old(self)@.cursor.center().0
                    &&& final(self)@.cursor.delta().1 == old(self)@.cursor.center().1 - ypos
                    &&& final(self)@.winsize == old(self)@.winsize
                },
                Event::Resized(width, height) => {
                    &&& back is None
                    &&& final(self)@.cursor.center() == (half(width) as i32, half(height) as i32)
                    &&& final(self)@.cursor.delta() == old(self)@.cursor.delta()
                    &&& final(self)@.winsize == (width, height)
                },
                _ => {
                    &&& back is None
                    &&& final(self)@.cursor == old(self)@.cursor
                    &&& final(self)@.winsize == old(self)@.winsize
                },
            },
    {
        if is_event_should_close(event, self.quit) {
            self.should_close = true;
        }
        match *event {
            Event::KeyboardInput(state, Some(key)) => {
                self.keys.insert(key, state);
                None
            },
            Event::MouseMoved(xpos, ypos) => Some(self.cursor.update(xpos, ypos)),
            Event::Resized(width, height) => {
                self.cursor.update_center(halve(width), halve(height));
                self.winsize = (width, height);
                None
            },
            _ => None,
        }
    }

    /// Whether the user has asked for the end.
    pub fn should_close(&self) -> (closing: bool)
        ensures
            closing == self@.should_close,
    {
        self.should_close
    }

    /// Whether the key with this code was last reported down.
    pub fn is_pressed(&self, key: u32) -> (pressed: bool)
        ensures
            pressed == (self@.keys.contains_key(key) && self@.keys[key]),
    {
        match self.keys.get(&key) {
            Some(state) => *state,
            None => false,
        }
    }

    /// The pointer's last move.
    pub fn cursor(&self) -> (cursor: &Cursor)
        ensures
            *cursor == self@.cursor,
    {
        &self.cursor
    }
}

} // verus!
