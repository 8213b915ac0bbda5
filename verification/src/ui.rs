//! Plain models of the scroll and navigation state the components
//! decide on, and the shared key-to-navigation mapping.

use vstd::prelude::*;

use crate::input::{KeyConfig, KeyInput};

verus! {

/// A rectangular screen area, as the render surface hands it out.
#[derive(Clone, Copy, Debug, PartialEq, Eq, Structural)]
pub struct Rect {
    pub x: u16,
    pub y: u16,
    pub width: u16,
    pub height: u16,
}

impl Default for Rect {
    /// The empty area at the origin.
    fn default() -> (r: Rect)
        ensures
            r == (Rect { x: 0, y: 0, width: 0, height: 0 }),
    {
        Rect { x: 0, y: 0, width: 0, height: 0 }
    }
}

/// A scroll offset inside a paragraph, in character cells.
#[derive(Clone, Copy, Debug, PartialEq, Eq, Structural)]
pub struct ScrollPos {
    pub x: u16,
    pub y: u16,
}

/// What a stateful paragraph remembers between draws: its scroll
/// offset, how many lines its content has, and the height it was given.
#[derive(Clone, Copy, Debug, PartialEq, Eq, Structural)]
pub struct ParagraphState {
    pub scroll: ScrollPos,
    pub lines: u16,
    pub height: u16,
}

impl ParagraphState {
    /// The largest useful scroll offset: content lines minus the
    /// visible text height (the area minus its two border rows).
    pub open spec fn max_scroll(self) -> u16 {
        self.lines.saturating_sub(self.height.saturating_sub(2))
    }

    pub fn new() -> (r: ParagraphState)
        ensures
            r == (ParagraphState { scroll: ScrollPos { x: 0, y: 0 }, lines: 0, height: 0 }),
    {
        ParagraphState { scroll: ScrollPos { x: 0, y: 0 }, lines: 0, height: 0 }
    }
}

impl Default for ParagraphState {
    /// The state before the first draw: unscrolled, no known size.
    fn default() -> (r: ParagraphState)
        ensures
            r == (ParagraphState { scroll: ScrollPos { x: 0, y: 0 }, lines: 0, height: 0 }),
    {
        ParagraphState::new()
    }
}

/// A navigation request, as the movement keys produce it.
#[derive(Clone, Copy, Debug, PartialEq, Eq, Structural)]
pub enum MoveSelection {
    Up,
    Down,
    Left,
    Right,
    Top,
    End,
    PageUp,
    PageDown,
}

/// Whether a component consumed an input event.
#[derive(Clone, Copy, Debug, PartialEq, Eq, Structural)]
pub enum EventState {
    Consumed,
    NotConsumed,
}

impl EventState {
    pub fn is_consumed(&self) -> (r: bool)
        ensures
            r == (*self is Consumed),
    {
        matches!(self, EventState::Consumed)
    }
}

/// The navigation request the given key stands for under the given
/// bindings, trying the bindings in a fixed order.
pub open spec fn common_nav_spec(key: KeyInput, key_config: KeyConfig) -> Option<MoveSelection> {
    if key == key_config.move_down {
        Some(MoveSelection::Down)
    } else if key == key_config.move_up {
        Some(MoveSelection::Up)
    } else if key == key_config.page_up {
        Some(MoveSelection::PageUp)
    } else if key == key_config.page_down {
        Some(MoveSelection::PageDown)
    } else if key == key_config.home {
        Some(MoveSelection::Top)
    } else if key == key_config.end {
        Some(MoveSelection::End)
    } else {
        None
    }
}

/// Map a key press to the navigation request it stands for under the
/// given bindings, if any.
pub fn common_nav(key: KeyInput, key_config: &KeyConfig) -> (r: Option<MoveSelection>)
    ensures
        r == common_nav_spec(key, *key_config),
{
    if key == key_config.move_down {
        Some(MoveSelection::Down)
    } else if key == key_config.move_up {
        Some(MoveSelection::Up)
    } else if key == key_config.page_up {
        Some(MoveSelection::PageUp)
    } else if key == key_config.page_down {
        Some(MoveSelection::PageDown)
    } else if key == key_config.home {
        Some(MoveSelection::Top)
    } else if key == key_config.end {
        Some(MoveSelection::End)
    } else {
        None
    }
}

} // verus!
