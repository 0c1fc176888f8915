//! The application: its state, the events that wait for the next frame, and
//! the frame itself.
//!
//! A frame has two halves. [`App::update`] is the first: it builds the tree
//! from the state as it is and hands it out with every event that has come
//! in since the frame before. The painter then finds the controls that those
//! events hit and paints the tree. For each control hit it calls
//! [`App::activate`] with the control's action, which is the second half. The
//! tree of a frame is built before any of its events takes effect, so a
//! change shows in the frame after. Only a control of the tree that was built
//! last can change the state: what an older tree held counts no more.

use crate::builder::bands_page;
use crate::builder::build;
use crate::builder::content;
use crate::builder::counter_page;
use crate::builder::frame_tree;
use crate::builder::lemma_bands_page_replaces_counter_page;
use crate::builder::lemma_counter_page_offers_its_buttons;
use crate::builder::lemma_every_tree_offers_both_pages;
use crate::builder::tree_offers;
use crate::event::InputEvent;
use crate::state::Action;
use crate::state::Page;
use crate::state::State;
use crate::theme::payload_outcome;
use crate::theme::PayloadError;
use crate::theme::Theme;
use crate::theme::ThemeSlot;
use crate::widget::Widget;
use vstd::prelude::*;

verus! {

/// The application.
pub struct App {
    state: State,
    shown: Option<State>,
    debug_mode: bool,
    pending: Vec<InputEvent>,
}

/// The mathematical form of the application.
pub struct AppView {
    /// What the next tree is built from.
    pub state: State,
    /// What the last tree was built from, once there is one.
    pub shown: Option<State>,
    /// Whether the painter draws its debug overlay.
    pub debug_mode: bool,
    /// The events that wait for the next frame, oldest first.
    pub pending: Seq<InputEvent>,
}

/// What the painter needs for one frame.
#[derive(Debug, PartialEq, Eq)]
pub struct Frame {
    /// The tree to dispatch against and to paint.
    pub tree: Widget,
    /// The events to dispatch, oldest first.
    pub events: Vec<InputEvent>,
    /// The theme to paint in.
    pub theme: Theme,
    /// Whether to draw the debug overlay.
    pub debug_mode: bool,
}

impl AppView {
    /// The application at the start: the counter at zero, on the counter
    /// page, no tree built, no event waiting and the debug overlay off.
    pub open spec fn initial(theme: Theme) -> AppView {
        AppView {
            state: State::initial(theme),
            shown: None,
            debug_mode: false,
            pending: Seq::empty(),
        }
    }

    /// The application with one more event waiting, behind the others.
    pub open spec fn queued(self, event: InputEvent) -> AppView {
        AppView { pending: self.pending.push(event), ..self }
    }

    /// The application after a frame has begun: the tree is built from the
    /// state, and no event waits.
    pub open spec fn begun(self) -> AppView {
        AppView { shown: Some(self.state), pending: Seq::empty(), ..self }
    }

    /// Whether the tree that was built last holds a control that sends
    /// `action`.
    pub open spec fn accepts(self, action: Action) -> bool {
        match self.shown {
            Some(shown) => frame_tree(shown).offers(action),
            None => false,
        }
    }

    /// The application after a control was activated: the action applied to
    /// the state where it is accepted, the application as it was where not.
    pub open spec fn activated(self, action: Action) -> AppView {
        if self.accepts(action) {
            AppView { state: self.state.after(action), ..self }
        } else {
            self
        }
    }

    /// The application after a request to change the theme.
    pub open spec fn rethemed(self, key: Option<&str>, value: Option<i64>) -> AppView {
        AppView {
            state: State { theme: self.state.theme.after_payload(key, value), ..self.state },
            ..self
        }
    }

    /// The application with the debug overlay switched over.
    pub open spec fn toggled(self) -> AppView {
        AppView { debug_mode: !self.debug_mode, ..self }
    }
}

impl View for App {
    type V = AppView;

    closed spec fn view(&self) -> AppView {
        AppView {
            state: self.state,
            shown: self.shown,
            debug_mode: self.debug_mode,
            pending: self.pending@,
        }
    }
}

impl App {
    /// Makes the application with its theme.
    pub fn new(theme: Theme) -> (app: App)
        ensures
            app@ == AppView::initial(theme),
    {
        App { state: State::new(theme), shown: None, debug_mode: false, pending: Vec::new() }
    }

    /// Prepares the application for its first frame. There is nothing to
    /// prepare: the application is as it was.
    pub fn setup(&mut self)
        ensures
            final(self)@ == old(self)@,
    {
    }

    /// Queues an event for the next frame, behind those that wait already.
    pub fn input(&mut self, event: InputEvent)
        ensures
            final(self)@ == old(self)@.queued(event),
    {
        self.pending.push(event);
    }

    /// Begins a frame: builds the tree from the state and hands it out with
    /// the theme, the debug flag and all events that wait, in the order in
    /// which they came. No event waits afterwards, and the state is as it
    /// was.
    pub fn update(&mut self) -> (frame: Frame)
        ensures
            frame.tree@ == frame_tree(old(self)@.state),
            frame.events@ == old(self)@.pending,
            frame.theme == old(self)@.state.theme,
            frame.debug_mode == old(self)@.debug_mode,
            final(self)@ == old(self)@.begun(),
    {
        let tree = build(&self.state);
        self.shown = Some(self.state);
        let mut events: Vec<InputEvent> = Vec::new();
        std::mem::swap(&mut self.pending, &mut events);
        Frame { tree, events, theme: self.state.theme, debug_mode: self.debug_mode }
    }

    /// Takes the action of a control that an event has hit. Where the tree
    /// that was built last holds such a control, the action is applied to
    /// the state; where it does not, or no tree was built yet, nothing
    /// changes. Returns whether the action was applied.
    pub fn activate(&mut self, action: Action) -> (applied: bool)
        ensures
            applied == old(self)@.accepts(action),
            final(self)@ == old(self)@.activated(action),
    {
        let offered = match &self.shown {
            Some(shown) => tree_offers(shown, action),
            None => false,
        };
        if offered {
            self.state.apply(action);
        }
        offered
    }

    /// Handles a request to change the theme. A payload with a known key and
    /// a number overwrites that colour and returns its slot. Any other
    /// payload changes nothing and returns the reason, for the caller to log.
    pub fn theme_changed(&mut self, key: Option<&str>, value: Option<i64>) -> (outcome: Result<
        ThemeSlot,
        PayloadError,
    >)
        ensures
            outcome == payload_outcome(key, value),
            final(self)@ == old(self)@.rethemed(key, value),
    {
        self.state.theme.apply_payload(key, value)
    }

    /// Switches the debug overlay on if it is off, and off if it is on.
    pub fn toggle_debug(&mut self)
        ensures
            final(self)@ == old(self)@.toggled(),
    {
        self.debug_mode = !self.debug_mode;
    }

    /// The state.
    pub fn state(&self) -> (state: State)
        ensures
            state == self@.state,
    {
        self.state
    }

    /// Whether the debug overlay is on.
    pub fn debug_mode(&self) -> (on: bool)
        ensures
            on == self@.debug_mode,
    {
        self.debug_mode
    }

    /// The number of events that wait for the next frame.
    pub fn pending(&self) -> (count: usize)
        ensures
            count == self@.pending.len(),
    {
        self.pending.len()
    }
}

/// An event that is queued before a frame begins is handed out with that
/// frame, after all that waited before it, and with no later frame.
pub proof fn lemma_event_reaches_next_frame_only(app: AppView, event: InputEvent)
    ensures
        app.queued(event).pending == app.pending.push(event),
        app.queued(event).pending.last() == event,
        app.queued(event).begun().pending == Seq::<InputEvent>::empty(),
        app.queued(event).state == app.state,
{
}

/// A press on the button that increases the counter, dispatched in the frame
/// that begins after it was queued, adds exactly one to the counter, below
/// the counter's largest value, and changes nothing else. The tree of that
/// frame is built before and still shows the old count; the tree of the
/// frame after shows the new one.
pub proof fn lemma_increase_shows_a_frame_later(app: AppView, event: InputEvent)
    requires
        app.state.page == Page::Counter,
        app.state.counter < i32::MAX,
    ensures
        ({
            let frame = app.queued(event).begun();
            let after = frame.activated(Action::Increase);
            &&& content(frame.shown.unwrap()) == counter_page(app.state.counter as int, app.state.theme)
            &&& frame.accepts(Action::Increase)
            &&& after.state == State { counter: (app.state.counter + 1) as i32, ..app.state }
            &&& after.debug_mode == app.debug_mode
            &&& after.pending == Seq::<InputEvent>::empty()
            &&& content(after.begun().shown.unwrap()) == counter_page(
                app.state.counter + 1,
                app.state.theme,
            )
        }),
{
    lemma_counter_page_offers_its_buttons(app.state);
}

/// A press on the button that decreases the counter takes exactly one from
/// it, above the counter's smallest value: from zero it goes to minus one.
pub proof fn lemma_decrease_goes_below_zero(app: AppView)
    requires
        app.state.page == Page::Counter,
        app.state.counter > i32::MIN,
    ensures
        ({
            let frame = app.begun();
            let after = frame.activated(Action::Decrease);
            &&& frame.accepts(Action::Decrease)
            &&& after.state == State { counter: (app.state.counter - 1) as i32, ..app.state }
        }),
{
    lemma_counter_page_offers_its_buttons(app.state);
}

/// The toggle for the bands page is in every tree. Activating it puts the
/// bands page on show: the tree of the frame after holds the bands, and the
/// buttons that change the counter are gone from it, so that the counter
/// cannot change while the bands are shown.
pub proof fn lemma_bands_toggle_switches_pages(app: AppView)
    ensures
        ({
            let frame = app.begun();
            let after = frame.activated(Action::Show(Page::Bands));
            let next = after.begun();
            &&& frame.accepts(Action::Show(Page::Bands))
            &&& after.state == State { page: Page::Bands, ..app.state }
            &&& content(next.shown.unwrap()) == bands_page(app.state.theme)
            &&& !next.accepts(Action::Increase)
            &&& !next.accepts(Action::Decrease)
            &&& next.activated(Action::Increase) == next
            &&& next.activated(Action::Decrease) == next
        }),
{
    lemma_every_tree_offers_both_pages(app.state);
    lemma_bands_page_replaces_counter_page(app.state);
}

/// Within one frame every control of its tree counts, whatever was
/// activated before it, and each action changes the state as it then is,
/// not the state that the tree was built from.
pub proof fn lemma_actions_change_the_live_state(app: AppView, first: Action, second: Action)
    requires
        app.accepts(first),
        app.accepts(second),
    ensures
        app.activated(first).accepts(second),
        app.activated(first).activated(second).state == app.state.after(first).after(second),
{
}

/// Before the first frame there is no control, and nothing can be activated.
pub proof fn lemma_nothing_to_activate_at_start(theme: Theme, action: Action)
    ensures
        !AppView::initial(theme).accepts(action),
        AppView::initial(theme).activated(action) == AppView::initial(theme),
{
}

} // verus!
