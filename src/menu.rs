//! The entries of the application's menu bar.
use vstd::prelude::*;

verus! {

/// A menu entry that selects a page.
#[derive(Debug, Clone, Copy, PartialEq, Eq, Structural)]
pub enum MenuItem {
    Home,
    Todo,
}

impl MenuItem {
    /// The entry's position among the menu tabs.
    pub fn index(self) -> (r: usize)
        ensures
            r == (match self {
                MenuItem::Home => 0usize,
                MenuItem::Todo => 1usize,
            }),
    {
        match self {
            MenuItem::Home => 0,
            MenuItem::Todo => 1,
        }
    }
}

} // verus!
