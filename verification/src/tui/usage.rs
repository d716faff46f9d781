//! The paged user manual.

use vstd::prelude::*;
use crate::input::Key;

verus! {

/// The number of pages of the manual.
pub const TOTAL_PAGES: usize = 3;

/// The page the manual shows.
pub struct UsageState {
    pub current_page: usize,
}

/// The page after `key` on page `p`.
pub open spec fn page_after(p: int, key: Key) -> int {
    match key {
        Key::Left | Key::Up => if p == 0 {
            TOTAL_PAGES - 1
        } else {
            p - 1
        },
        Key::Right | Key::Down | Key::Tab => (p + 1) % (TOTAL_PAGES as int),
        _ => p,
    }
}

/// Whether `key` closes the manual.
pub open spec fn closes_manual(key: Key) -> bool {
    key is Esc || key == Key::Char('q') || key == Key::Char('Q')
}

impl UsageState {
    /// The manual as it opens, on its first page.
    pub fn new() -> (s: Self)
        ensures
            s.current_page == 0,
    {
        UsageState { current_page: 0 }
    }

    /// Reacts to a key press; `true` when the manual closes.
    pub fn handle_key(&mut self, key: Key) -> (closed: bool)
        requires
            old(self).current_page < TOTAL_PAGES,
        ensures
            closed == closes_manual(key),
            closed ==> final(self).current_page == old(self).current_page,
            !closed ==> final(self).current_page == page_after(old(self).current_page as int, key),
            final(self).current_page < TOTAL_PAGES,
    {
        match key {
            Key::Esc | Key::Char('q') | Key::Char('Q') => true,
            Key::Left | Key::Up => {
                self.current_page = if self.current_page == 0 {
                    TOTAL_PAGES - 1
                } else {
                    self.current_page - 1
                };
                false
            },
            Key::Right | Key::Down | Key::Tab => {
                self.current_page = (self.current_page + 1) % TOTAL_PAGES;
                false
            },
            _ => false,
        }
    }

    /// Whether `key` closes the manual while the terminal is too small to
    /// draw it.
    pub fn closes_when_too_small(key: Key) -> (r: bool)
        ensures
            r == (key is Esc || key == Key::Char('q')),
    {
        match key {
            Key::Esc | Key::Char('q') => true,
            _ => false,
        }
    }
}

/// Turning a page forward and then back comes back to the same page, and so
/// does turning back and then forward.
pub proof fn law_page_turns_undo(p: int)
    requires
        0 <= p < TOTAL_PAGES,
    ensures
        page_after(page_after(p, Key::Right), Key::Left) == p,
        page_after(page_after(p, Key::Left), Key::Right) == p,
{
}

} // verus!
