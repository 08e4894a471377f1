//! The main menu.

use vstd::prelude::*;

verus! {

/// What the main menu offers.
#[derive(Debug, Clone, Copy, PartialEq, Eq, Structural)]
pub enum MenuChoice {
    Sprint,
    Endless,
    Versus,
    HighScores,
    Quit,
}

/// One entry of the main menu.
#[derive(Debug, Clone, Copy)]
pub struct MenuItem {
    pub label: &'static str,
    pub description: &'static str,
    pub id: MenuChoice,
}

/// The entries of the main menu, from the top.
pub open spec fn menu_items() -> Seq<MenuItem> {
    seq![
        MenuItem {
            label: "40 Lines Sprint",
            description: "Clear 40 lines as fast as possible",
            id: MenuChoice::Sprint,
        },
        MenuItem {
            label: "Endless Marathon",
            description: "Play forever, maximize your score",
            id: MenuChoice::Endless,
        },
        MenuItem {
            label: "Versus AI",
            description: "Battle against a computer opponent",
            id: MenuChoice::Versus,
        },
        MenuItem {
            label: "High Scores",
            description: "View your best performances",
            id: MenuChoice::HighScores,
        },
        MenuItem { label: "Quit", description: "Exit the game", id: MenuChoice::Quit },
    ]
}

/// The main menu with its cursor.
#[derive(Debug, Clone)]
pub struct MenuScreen {
    /// The position of the cursor.
    pub selected: usize,
    pub items: Vec<MenuItem>,
    /// The frame being drawn, for the animation of the title.
    pub frame: u64,
}

impl MenuScreen {
    /// The cursor stands on an entry.
    pub open spec fn wf(&self) -> bool {
        self.selected < self.items@.len()
    }

    /// The main menu with the cursor on its first entry.
    pub fn new() -> (menu: MenuScreen)
        ensures
            menu.selected == 0,
            menu.items@ == menu_items(),
            menu.frame == 0,
            menu.wf(),
    {
        let mut items: Vec<MenuItem> = Vec::new();
        items.push(
            MenuItem {
                label: "40 Lines Sprint",
                description: "Clear 40 lines as fast as possible",
                id: MenuChoice::Sprint,
            },
        );
        items.push(
            MenuItem {
                label: "Endless Marathon",
                description: "Play forever, maximize your score",
                id: MenuChoice::Endless,
            },
        );
        items.push(
            MenuItem {
                label: "Versus AI",
                description: "Battle against a computer opponent",
                id: MenuChoice::Versus,
            },
        );
        items.push(
            MenuItem {
                label: "High Scores",
                description: "View your best performances",
                id: MenuChoice::HighScores,
            },
        );
        items.push(MenuItem { label: "Quit", description: "Exit the game", id: MenuChoice::Quit });
        assert(items@ =~= menu_items());
        MenuScreen { selected: 0, items, frame: 0 }
    }

    /// Moves the cursor up by one entry, from the first entry to the last.
    pub fn move_up(&mut self)
        requires
            old(self).selected > 0 || old(self).items@.len() > 0,
        ensures
            final(self).selected == if old(self).selected > 0 {
                old(self).selected - 1
            } else {
                old(self).items@.len() - 1
            },
            final(self).items == old(self).items,
            final(self).frame == old(self).frame,
            old(self).wf() ==> final(self).wf(),
    {
        if self.selected > 0 {
            self.selected -= 1;
        } else {
            self.selected = self.items.len() - 1;
        }
    }

    /// Moves the cursor down by one entry, from the last entry to the first.
    pub fn move_down(&mut self)
        requires
            old(self).items@.len() > 0,
            old(self).selected < usize::MAX,
        ensures
            final(self).selected == (old(self).selected + 1) % (old(self).items@.len() as int),
            final(self).items == old(self).items,
            final(self).frame == old(self).frame,
            final(self).wf(),
    {
        self.selected = (self.selected + 1) % self.items.len();
    }

    /// What the entry under the cursor offers.
    pub fn selected_choice(&self) -> (choice: MenuChoice)
        requires
            self.wf(),
        ensures
            choice == self.items@[self.selected as int].id,
    {
        self.items[self.selected].id
    }
}

} // verus!
