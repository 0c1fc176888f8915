//! The widget tree builder: from the state to the tree of one frame.
//!
//! Building reads the state and changes nothing. The tree is a value of its
//! own: a control in it carries the action that it stands for, and the state
//! changes only when that action is applied.

use crate::state::Action;
use crate::state::Page;
use crate::state::State;
use crate::text::lemma_signed_decimal_tells_the_number;
use crate::text::push_signed;
use crate::text::signed_decimal;
use crate::theme::Theme;
use crate::theme::ThemeSlot;
use crate::widget::views;
use crate::widget::Alignment;
use crate::widget::Direction;
use crate::widget::TextAlignment;
use crate::widget::Widget;
use crate::widget::WidgetView;
use vstd::prelude::*;

verus! {

/// The width of the margin around each button of the counter page.
pub const BUTTON_MARGIN: u32 = 5;

/// The size of the grid's one column.
pub const COLUMN: u32 = 100;

/// The size of the grid's first row, which holds the content region.
pub const CONTENT_ROW: u32 = 80;

/// The size of the grid's second row, which holds the navigation region.
pub const NAVIGATION_ROW: u32 = 20;

/// The text of the counter's label.
pub open spec fn counter_text(counter: int) -> Seq<char> {
    "Counter "@ + signed_decimal(counter)
}

/// A button inside its margin.
pub open spec fn framed_button(text: Seq<char>, action: Action) -> WidgetView {
    WidgetView::Margin {
        margin: BUTTON_MARGIN,
        fill: None,
        child: Box::new(WidgetView::Button { text, action }),
    }
}

/// The counter page: the counter's label above the two buttons that change
/// it, all centred.
pub open spec fn counter_page(counter: int, theme: Theme) -> WidgetView {
    WidgetView::Linear {
        direction: Direction::Vertical,
        horizontal: Alignment::Center,
        vertical: Alignment::Center,
        children: seq![
            WidgetView::Label {
                text: counter_text(counter),
                alignment: TextAlignment::Center,
                color: theme.foreground,
            },
            framed_button("Increase"@, Action::Increase),
            framed_button("Decrease"@, Action::Decrease),
        ],
    }
}

/// The foreground slots in the order of the bands.
pub open spec fn foreground_slot(i: int) -> ThemeSlot {
    if i == 0 {
        ThemeSlot::Foreground
    } else if i == 1 {
        ThemeSlot::Foreground2
    } else {
        ThemeSlot::Foreground3
    }
}

/// The background slots in the order of the bands.
pub open spec fn background_slot(i: int) -> ThemeSlot {
    if i == 0 {
        ThemeSlot::Background
    } else if i == 1 {
        ThemeSlot::Background2
    } else {
        ThemeSlot::Background3
    }
}

/// The text that names a foreground colour on a band.
pub open spec fn band_text(i: int) -> Seq<char> {
    if i == 0 {
        "fg"@
    } else if i == 1 {
        "fg2"@
    } else {
        "fg3"@
    }
}

/// The number of bands: each foreground colour on each background colour.
pub const BANDS: usize = 9;

/// Band `k` of the bands page: the name of foreground colour `k / 3`, written
/// in that colour on background colour `k % 3`.
pub open spec fn band(theme: Theme, k: int) -> WidgetView {
    WidgetView::Margin {
        margin: 0,
        fill: Some(theme.color_at(background_slot(k % 3))),
        child: Box::new(
            WidgetView::Label {
                text: band_text(k / 3),
                alignment: TextAlignment::Left,
                color: theme.color_at(foreground_slot(k / 3)),
            },
        ),
    }
}

/// The bands page: the nine bands side by side, stretched over the region.
pub open spec fn bands_page(theme: Theme) -> WidgetView {
    WidgetView::Linear {
        direction: Direction::Horizontal,
        horizontal: Alignment::Stretch,
        vertical: Alignment::Stretch,
        children: Seq::new(BANDS as nat, |k: int| band(theme, k)),
    }
}

/// The content region: the page on show.
pub open spec fn content(state: State) -> WidgetView {
    match state.page {
        Page::Counter => counter_page(state.counter as int, state.theme),
        Page::Bands => bands_page(state.theme),
    }
}

/// The navigation region: one toggle per page, the one of the page on show
/// switched on.
pub open spec fn navigation_row(page: Page) -> WidgetView {
    WidgetView::Row {
        placement: Alignment::Stretch,
        children: seq![
            WidgetView::ToggleButton {
                text: "COUNTER"@,
                active: page == Page::Counter,
                action: Action::Show(Page::Counter),
            },
            WidgetView::ToggleButton {
                text: "BANDS"@,
                active: page == Page::Bands,
                action: Action::Show(Page::Bands),
            },
        ],
    }
}

/// The tree of one frame: a grid with the content region above the
/// navigation region.
pub open spec fn frame_tree(state: State) -> WidgetView {
    WidgetView::Grid {
        columns: seq![COLUMN],
        rows: seq![CONTENT_ROW, NAVIGATION_ROW],
        children: seq![content(state), navigation_row(state.page)],
    }
}

/// Writes the counter's label.
pub fn counter_label(counter: i32) -> (text: String)
    ensures
        text@ == counter_text(counter as int),
{
    let mut text = String::from_str("Counter ");
    push_signed(&mut text, counter);
    text
}

fn button_in_margin(text: &str, action: Action) -> (widget: Widget)
    ensures
        widget@ == framed_button(text@, action),
{
    Widget::margin(BUTTON_MARGIN, None, Widget::button(String::from_str(text), action))
}

/// Builds the counter page for the state's counter, with the label in the
/// theme's first foreground colour.
pub fn counter(state: &State) -> (page: Widget)
    ensures
        page@ == counter_page(state.counter as int, state.theme),
{
    let mut children: Vec<Widget> = Vec::new();
    children.push(
        Widget::label(counter_label(state.counter), TextAlignment::Center, state.theme.foreground),
    );
    children.push(button_in_margin("Increase", Action::Increase));
    children.push(button_in_margin("Decrease", Action::Decrease));
    assert(views(children@) =~= counter_page(state.counter as int, state.theme)->Linear_children);
    Widget::linear(Direction::Vertical, Alignment::Center, Alignment::Center, children)
}

fn band_slots(k: usize) -> (slots: (ThemeSlot, ThemeSlot, &'static str))
    requires
        k < BANDS,
    ensures
        slots.0 == foreground_slot(k as int / 3),
        slots.1 == background_slot(k as int % 3),
        slots.2@ == band_text(k as int / 3),
{
    let foreground = k / 3;
    let background = k % 3;
    (
        if foreground == 0 {
            ThemeSlot::Foreground
        } else if foreground == 1 {
            ThemeSlot::Foreground2
        } else {
            ThemeSlot::Foreground3
        },
        if background == 0 {
            ThemeSlot::Background
        } else if background == 1 {
            ThemeSlot::Background2
        } else {
            ThemeSlot::Background3
        },
        if foreground == 0 {
            "fg"
        } else if foreground == 1 {
            "fg2"
        } else {
            "fg3"
        },
    )
}

/// Builds the bands page for a theme.
pub fn bands(theme: &Theme) -> (page: Widget)
    ensures
        page@ == bands_page(*theme),
{
    let mut children: Vec<Widget> = Vec::new();
    let mut k: usize = 0;
    while k < BANDS
        invariant
            k <= BANDS,
            children@.len() == k,
            forall|i: int| 0 <= i < k ==> (#[trigger] children@[i])@ == band(*theme, i),
        decreases BANDS - k,
    {
        let (foreground, background, text) = band_slots(k);
        children.push(
            Widget::margin(
                0,
                Some(theme.get(background)),
                Widget::label(String::from_str(text), TextAlignment::Left, theme.get(foreground)),
            ),
        );
        k += 1;
    }
    assert(views(children@) =~= bands_page(*theme)->Linear_children);
    Widget::linear(Direction::Horizontal, Alignment::Stretch, Alignment::Stretch, children)
}

/// Builds the navigation region for the page on show.
pub fn navigation(page: Page) -> (row: Widget)
    ensures
        row@ == navigation_row(page),
{
    let mut children: Vec<Widget> = Vec::new();
    children.push(
        Widget::toggle_button(
            String::from_str("COUNTER"),
            page == Page::Counter,
            Action::Show(Page::Counter),
        ),
    );
    children.push(
        Widget::toggle_button(
            String::from_str("BANDS"),
            page == Page::Bands,
            Action::Show(Page::Bands),
        ),
    );
    assert(views(children@) =~= navigation_row(page)->Row_children);
    Widget::row(Alignment::Stretch, children)
}

/// Builds the tree of one frame from the state.
pub fn build(state: &State) -> (tree: Widget)
    ensures
        tree@ == frame_tree(*state),
{
    let mut columns: Vec<u32> = Vec::new();
    columns.push(COLUMN);
    let mut rows: Vec<u32> = Vec::new();
    rows.push(CONTENT_ROW);
    rows.push(NAVIGATION_ROW);
    let mut children: Vec<Widget> = Vec::new();
    children.push(
        match state.page {
            Page::Counter => counter(state),
            Page::Bands => bands(&state.theme),
        },
    );
    children.push(navigation(state.page));
    assert(rows@ =~= frame_tree(*state)->Grid_rows);
    assert(views(children@) =~= frame_tree(*state)->Grid_children);
    Widget::grid(columns, rows, children)
}

/// Tells whether the tree built from `state` holds a control that sends
/// `action`: a toggle for each page is in every tree, the buttons that change
/// the counter are on the counter page only.
pub fn tree_offers(state: &State, action: Action) -> (offered: bool)
    ensures
        offered == frame_tree(*state).offers(action),
{
    proof {
        lemma_every_tree_offers_both_pages(*state);
        match state.page {
            Page::Counter => lemma_counter_page_offers_its_buttons(*state),
            Page::Bands => lemma_bands_page_replaces_counter_page(*state),
        }
    }
    match action {
        Action::Show(_) => true,
        Action::Increase => state.page == Page::Counter,
        Action::Decrease => state.page == Page::Counter,
    }
}

/// The label tells the counter: two counters with one label are one counter.
pub proof fn lemma_label_tells_the_counter(a: int, b: int)
    requires
        counter_text(a) == counter_text(b),
    ensures
        a == b,
{
    let prefix = "Counter "@;
    assert(counter_text(a).subrange(prefix.len() as int, counter_text(a).len() as int)
        =~= signed_decimal(a));
    assert(counter_text(b).subrange(prefix.len() as int, counter_text(b).len() as int)
        =~= signed_decimal(b));
    lemma_signed_decimal_tells_the_number(a, b);
}

/// Two trees built from one state show the same: they may be two values,
/// but their content is one.
pub proof fn lemma_rebuild_shows_the_same(first: Widget, second: Widget, state: State)
    requires
        first@ == frame_tree(state),
        second@ == frame_tree(state),
    ensures
        first@ == second@,
{
}

/// The counter page shows the counter as it stands: after `Increase`, below
/// the counter's largest value, the label of the next tree reads one more.
pub proof fn lemma_increase_shows_in_next_tree(state: State)
    requires
        state.page == Page::Counter,
        state.counter < i32::MAX,
    ensures
        content(state.after(Action::Increase)) == counter_page(state.counter + 1, state.theme),
        content(state.after(Action::Increase))->Linear_children[0] == (WidgetView::Label {
            text: counter_text(state.counter + 1),
            alignment: TextAlignment::Center,
            color: state.theme.foreground,
        }),
{
}

/// The navigation region is in every tree, and offers both pages.
pub proof fn lemma_every_tree_offers_both_pages(state: State)
    ensures
        frame_tree(state).offers(Action::Show(Page::Counter)),
        frame_tree(state).offers(Action::Show(Page::Bands)),
{
    reveal_with_fuel(WidgetView::offers, 3);
    let tree = frame_tree(state);
    let row = navigation_row(state.page);
    assert(tree->Grid_children[1] == row);
    assert(row->Row_children[0].offers(Action::Show(Page::Counter)));
    assert(row->Row_children[1].offers(Action::Show(Page::Bands)));
}

/// After `Show(Bands)` the next tree holds the bands page, and no control in
/// it changes the counter.
pub proof fn lemma_bands_page_replaces_counter_page(state: State)
    ensures
        state.after(Action::Show(Page::Bands)).page == Page::Bands,
        content(state.after(Action::Show(Page::Bands))) == bands_page(state.theme),
        !frame_tree(state.after(Action::Show(Page::Bands))).offers(Action::Increase),
        !frame_tree(state.after(Action::Show(Page::Bands))).offers(Action::Decrease),
{
    reveal_with_fuel(WidgetView::offers, 5);
    let page = bands_page(state.theme);
    assert forall|i: int| 0 <= i < page->Linear_children.len() implies !(
    #[trigger] page->Linear_children[i]).offers(Action::Increase) && !page->Linear_children[i].offers(
        Action::Decrease,
    ) by {
        assert(page->Linear_children[i] == band(state.theme, i));
    }
}

/// On the counter page the tree offers both changes of the counter.
pub proof fn lemma_counter_page_offers_its_buttons(state: State)
    requires
        state.page == Page::Counter,
    ensures
        frame_tree(state).offers(Action::Increase),
        frame_tree(state).offers(Action::Decrease),
{
    reveal_with_fuel(WidgetView::offers, 5);
    let tree = frame_tree(state);
    let page = counter_page(state.counter as int, state.theme);
    assert(tree->Grid_children[0] == page);
    assert(page->Linear_children[1].offers(Action::Increase));
    assert(page->Linear_children[2].offers(Action::Decrease));
}

} // verus!
