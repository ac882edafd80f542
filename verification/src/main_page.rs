//! The home page: a static welcome screen that only routes keys.

use vstd::prelude::*;
use crate::app::{NikaAction, Page};
use crate::event_handler::{KeyCode, KeyEvent};

verus! {

/// The home page holds no state of its own.
#[derive(Debug)]
pub struct HomePage;

/// What the home page answers to a key: quit on `q`, the search page on
/// `s`, nothing else.
pub open spec fn home_key_action(key: KeyEvent) -> Option<NikaAction> {
    if key.code == KeyCode::Char('q') {
        Some(NikaAction::Quit)
    } else if key.code == KeyCode::Char('s') {
        Some(NikaAction::ChangePage(Page::Search))
    } else {
        None
    }
}

impl HomePage {
    pub fn handle_key_events(&mut self, key: KeyEvent) -> (r: Option<NikaAction>)
        ensures
            r == home_key_action(key),
    {
        match key.code {
            KeyCode::Char(c) => {
                if c == 'q' {
                    Some(NikaAction::Quit)
                } else if c == 's' {
                    Some(NikaAction::ChangePage(Page::Search))
                } else {
                    None
                }
            },
            _ => None,
        }
    }

    /// The home page reacts to no action.
    pub fn update(&mut self, action: &NikaAction)
        ensures
            *final(self) == *old(self),
    {
        let _ = action;
    }
}

impl Default for HomePage {
    fn default() -> (r: Self)
        ensures
            r == HomePage,
    {
        HomePage
    }
}

} // verus!
