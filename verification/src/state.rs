//! The application's state and the actions that change it.
//!
//! The state has one owner. A control of the user interface does not hold a
//! handle to the state: it carries an [`Action`], and the owner applies the
//! action when the control is activated. Two changes can therefore never
//! overlap.

use crate::theme::Theme;
use vstd::prelude::*;

verus! {

/// The page that the content region shows.
#[derive(Clone, Copy, Debug, PartialEq, Eq, Structural)]
pub enum Page {
    Counter,
    Bands,
}

/// What a control asks for when it is activated.
#[derive(Clone, Copy, Debug, PartialEq, Eq, Structural)]
pub enum Action {
    /// Add one to the counter.
    Increase,
    /// Take one from the counter.
    Decrease,
    /// Show a page.
    Show(Page),
}

/// What the user interface is built from: the counter, the page on show and
/// the theme.
#[derive(Clone, Copy, Debug, PartialEq, Eq, Structural)]
pub struct State {
    pub counter: i32,
    pub page: Page,
    pub theme: Theme,
}

/// The counter one step up. It has no upper limit of its own: from the
/// largest value that it can hold it goes round to the smallest.
pub open spec fn counter_up(counter: i32) -> i32 {
    if counter == i32::MAX {
        i32::MIN
    } else {
        (counter + 1) as i32
    }
}

/// The counter one step down. It does not stop at zero: from the smallest
/// value that it can hold it goes round to the largest.
pub open spec fn counter_down(counter: i32) -> i32 {
    if counter == i32::MIN {
        i32::MAX
    } else {
        (counter - 1) as i32
    }
}

impl State {
    /// The state at the start: the counter at zero, on the counter page.
    pub open spec fn initial(theme: Theme) -> State {
        State { counter: 0, page: Page::Counter, theme }
    }

    /// The state that an action leads to.
    pub open spec fn after(self, action: Action) -> State {
        match action {
            Action::Increase => State { counter: counter_up(self.counter), ..self },
            Action::Decrease => State { counter: counter_down(self.counter), ..self },
            Action::Show(page) => State { page, ..self },
        }
    }

    /// Makes the state at the start.
    pub fn new(theme: Theme) -> (state: State)
        ensures
            state == State::initial(theme),
    {
        State { counter: 0, page: Page::Counter, theme }
    }

    /// Applies one action.
    pub fn apply(&mut self, action: Action)
        ensures
            *final(self) == old(self).after(action),
    {
        match action {
            Action::Increase => {
                self.counter = if self.counter == i32::MAX {
                    i32::MIN
                } else {
                    self.counter + 1
                };
            },
            Action::Decrease => {
                self.counter = if self.counter == i32::MIN {
                    i32::MAX
                } else {
                    self.counter - 1
                };
            },
            Action::Show(page) => {
                self.page = page;
            },
        }
    }
}

/// Below its largest value, `Increase` adds exactly one to the counter, and
/// changes neither the page nor the theme.
pub proof fn lemma_increase_adds_one(state: State)
    requires
        state.counter < i32::MAX,
    ensures
        state.after(Action::Increase).counter == state.counter + 1,
        state.after(Action::Increase).page == state.page,
        state.after(Action::Increase).theme == state.theme,
{
}

/// Above its smallest value, `Decrease` takes exactly one from the counter,
/// also at zero and below, and changes neither the page nor the theme.
pub proof fn lemma_decrease_takes_one(state: State)
    requires
        state.counter > i32::MIN,
    ensures
        state.after(Action::Decrease).counter == state.counter - 1,
        state.after(Action::Decrease).page == state.page,
        state.after(Action::Decrease).theme == state.theme,
{
}

/// `Show` puts its page on show, whatever page was shown before, and changes
/// neither the counter nor the theme.
pub proof fn lemma_show_sets_page(state: State, page: Page)
    ensures
        state.after(Action::Show(page)).page == page,
        state.after(Action::Show(page)).counter == state.counter,
        state.after(Action::Show(page)).theme == state.theme,
{
}

/// No action changes the theme.
pub proof fn lemma_actions_keep_theme(state: State, action: Action)
    ensures
        state.after(action).theme == state.theme,
{
}

} // verus!
