//! The menu from which the difficulty is picked.
//!
//! The menu holds nothing of the game. The text on its button and what a
//! pick asks for are both read from the store, so neither can be older than
//! the snapshot.

use crate::board::current_difficulty;
use crate::orchestrator::change_difficulty;
use crate::orchestrator::reset_plan;
use crate::orchestrator::InvalidLocalAction;
use crate::orchestrator::ResetPlan;
use crate::store::StateStore;
use crate::store::StoreView;
use crate::types::Difficulty;
use vstd::prelude::*;

verus! {

/// How a difficulty is called in the menu.
pub open spec fn difficulty_name(difficulty: Difficulty) -> Seq<char> {
    match difficulty {
        Difficulty::Easy => "Easy"@,
        Difficulty::Hard => "Hard"@,
    }
}

/// How a difficulty is called in the menu.
pub fn difficulty_label(difficulty: Difficulty) -> (label: String)
    ensures
        label@ == difficulty_name(difficulty),
{
    match difficulty {
        Difficulty::Easy => String::from_str("Easy"),
        Difficulty::Hard => String::from_str("Hard"),
    }
}

impl StoreView {
    /// What picking `choice` in the menu asks for: nothing if the game has
    /// that difficulty already, else a reset of the current session under
    /// it.
    pub open spec fn picked(self, choice: Difficulty) -> Result<
        Option<ResetPlan>,
        InvalidLocalAction,
    > {
        if choice == self.difficulty() {
            Ok(None)
        } else {
            match reset_plan(self.snapshot, choice) {
                Ok(plan) => Ok(Some(plan)),
                Err(e) => Err(e),
            }
        }
    }
}

/// The menu: whether its list is open.
#[derive(Debug, Clone, Copy, PartialEq)]
pub struct DifficultyMenu {
    visible: bool,
}

impl View for DifficultyMenu {
    type V = bool;

    /// Whether the list is open.
    closed spec fn view(&self) -> bool {
        self.visible
    }
}

impl DifficultyMenu {
    /// A menu whose list is closed.
    pub fn new() -> (menu: DifficultyMenu)
        ensures
            !menu@,
    {
        DifficultyMenu { visible: false }
    }

    /// Whether the list is open.
    pub fn is_visible(&self) -> (visible: bool)
        ensures
            visible == self@,
    {
        self.visible
    }

    /// The text on the button: the name of the difficulty that the store
    /// shows.
    pub fn label(&self, store: &StateStore) -> (label: String)
        ensures
            label@ == difficulty_name(store@.difficulty()),
    {
        difficulty_label(current_difficulty(store))
    }

    /// The style of the list: shown when open, hidden when closed.
    pub fn display_style(&self) -> (style: &'static str)
        ensures
            style@ == if self@ {
                "display: block;"@
            } else {
                "display: none;"@
            },
    {
        if self.visible {
            "display: block;"
        } else {
            "display: none;"
        }
    }

    /// A click on the button opens a closed list and closes an open one.
    pub fn toggle(&mut self)
        ensures
            final(self)@ == !old(self)@,
    {
        self.visible = !self.visible;
    }

    /// A click anywhere on the page: one outside the menu closes the list.
    pub fn page_clicked(&mut self, inside: bool)
        ensures
            final(self)@ == (inside && old(self)@),
    {
        if !inside {
            self.visible = false;
        }
    }

    /// A click on the entry for `choice`. The list closes. If the game that
    /// the store shows has that difficulty already, nothing is asked for;
    /// else a reset of the current session under `choice` is planned.
    pub fn pick(&mut self, store: &StateStore, choice: Difficulty) -> (plan: Result<
        Option<ResetPlan>,
        InvalidLocalAction,
    >)
        ensures
            !final(self)@,
            plan == store@.picked(choice),
    {
        self.visible = false;
        if choice == current_difficulty(store) {
            return Ok(None);
        }
        match change_difficulty(store, choice) {
            Ok(plan) => Ok(Some(plan)),
            Err(e) => Err(e),
        }
    }
}

impl Default for DifficultyMenu {
    fn default() -> (menu: DifficultyMenu)
        ensures
            !menu@,
    {
        DifficultyMenu::new()
    }
}

} // verus!
