//! The widget tree: what one frame shows, as a value.

use crate::state::Action;
use vstd::prelude::*;

verus! {

/// How a stack places its children along one axis.
#[derive(Clone, Copy, Debug, PartialEq, Eq, Structural)]
pub enum Alignment {
    Center,
    Stretch,
}

/// The axis along which a stack lines its children up.
#[derive(Clone, Copy, Debug, PartialEq, Eq, Structural)]
pub enum Direction {
    Vertical,
    Horizontal,
}

/// Where a label's text stands in its box.
#[derive(Clone, Copy, Debug, PartialEq, Eq, Structural)]
pub enum TextAlignment {
    Left,
    Center,
}

/// One widget, with the widgets inside it.
#[derive(Debug, PartialEq, Eq)]
pub enum Widget {
    /// A line of text in a 16-bit colour.
    Label { text: String, alignment: TextAlignment, color: u16 },
    /// A push button; pressing it sends `action`.
    Button { text: String, action: Action },
    /// A button that shows a state; pressing it sends `action`.
    ToggleButton { text: String, active: bool, action: Action },
    /// A widget inside an empty border of width `margin`, on a background
    /// filled with `fill` where that is a colour.
    Margin { margin: u32, fill: Option<u16>, child: Box<Widget> },
    /// A stack of widgets along `direction`.
    Linear { direction: Direction, horizontal: Alignment, vertical: Alignment, children: Vec<Widget> },
    /// A horizontal strip of widgets, placed as `placement` says.
    Row { placement: Alignment, children: Vec<Widget> },
    /// A grid of columns and rows, each of a given size; the children fill
    /// its cells in order.
    Grid { columns: Vec<u32>, rows: Vec<u32>, children: Vec<Widget> },
}

/// The mathematical form of a widget tree.
pub enum WidgetView {
    Label { text: Seq<char>, alignment: TextAlignment, color: u16 },
    Button { text: Seq<char>, action: Action },
    ToggleButton { text: Seq<char>, active: bool, action: Action },
    Margin { margin: u32, fill: Option<u16>, child: Box<WidgetView> },
    Linear {
        direction: Direction,
        horizontal: Alignment,
        vertical: Alignment,
        children: Seq<WidgetView>,
    },
    Row { placement: Alignment, children: Seq<WidgetView> },
    Grid { columns: Seq<u32>, rows: Seq<u32>, children: Seq<WidgetView> },
}

impl WidgetView {
    /// Whether some control in this tree sends `action`.
    pub open spec fn offers(self, action: Action) -> bool
        decreases self,
    {
        match self {
            WidgetView::Label { .. } => false,
            WidgetView::Button { action: sent, .. } => sent == action,
            WidgetView::ToggleButton { action: sent, .. } => sent == action,
            WidgetView::Margin { child, .. } => child.offers(action),
            WidgetView::Linear { children, .. } => exists|i: int|
                0 <= i < children.len() && (#[trigger] children[i]).offers(action),
            WidgetView::Row { children, .. } => exists|i: int|
                0 <= i < children.len() && (#[trigger] children[i]).offers(action),
            WidgetView::Grid { children, .. } => exists|i: int|
                0 <= i < children.len() && (#[trigger] children[i]).offers(action),
        }
    }
}

impl Widget {
    /// The mathematical form of this widget and of all inside it.
    pub open spec fn model(&self) -> WidgetView
        decreases self,
    {
        match self {
            Widget::Label { text, alignment, color } => WidgetView::Label {
                text: text@,
                alignment: *alignment,
                color: *color,
            },
            Widget::Button { text, action } => WidgetView::Button { text: text@, action: *action },
            Widget::ToggleButton { text, active, action } => WidgetView::ToggleButton {
                text: text@,
                active: *active,
                action: *action,
            },
            Widget::Margin { margin, fill, child } => WidgetView::Margin {
                margin: *margin,
                fill: *fill,
                child: Box::new(child.model()),
            },
            Widget::Linear { direction, horizontal, vertical, children } => WidgetView::Linear {
                direction: *direction,
                horizontal: *horizontal,
                vertical: *vertical,
                children: Seq::new(
                    children@.len(),
                    |i: int|
                        if 0 <= i < children@.len() {
                            children@[i].model()
                        } else {
                            arbitrary()
                        },
                ),
            },
            Widget::Row { placement, children } => WidgetView::Row {
                placement: *placement,
                children: Seq::new(
                    children@.len(),
                    |i: int|
                        if 0 <= i < children@.len() {
                            children@[i].model()
                        } else {
                            arbitrary()
                        },
                ),
            },
            Widget::Grid { columns, rows, children } => WidgetView::Grid {
                columns: columns@,
                rows: rows@,
                children: Seq::new(
                    children@.len(),
                    |i: int|
                        if 0 <= i < children@.len() {
                            children@[i].model()
                        } else {
                            arbitrary()
                        },
                ),
            },
        }
    }
}

/// The mathematical forms of a run of widgets, in order.
pub open spec fn views(widgets: Seq<Widget>) -> Seq<WidgetView> {
    Seq::new(widgets.len(), |i: int| widgets[i]@)
}

impl Widget {
    /// A line of text.
    pub fn label(text: String, alignment: TextAlignment, color: u16) -> (widget: Widget)
        ensures
            widget@ == (WidgetView::Label { text: text@, alignment, color }),
    {
        Widget::Label { text, alignment, color }
    }

    /// A push button that sends `action`.
    pub fn button(text: String, action: Action) -> (widget: Widget)
        ensures
            widget@ == (WidgetView::Button { text: text@, action }),
    {
        Widget::Button { text, action }
    }

    /// A button that shows `active` and sends `action`.
    pub fn toggle_button(text: String, active: bool, action: Action) -> (widget: Widget)
        ensures
            widget@ == (WidgetView::ToggleButton { text: text@, active, action }),
    {
        Widget::ToggleButton { text, active, action }
    }

    /// A widget inside a margin.
    pub fn margin(margin: u32, fill: Option<u16>, child: Widget) -> (widget: Widget)
        ensures
            widget@ == (WidgetView::Margin { margin, fill, child: Box::new(child@) }),
    {
        Widget::Margin { margin, fill, child: Box::new(child) }
    }

    /// A stack of widgets.
    pub fn linear(
        direction: Direction,
        horizontal: Alignment,
        vertical: Alignment,
        children: Vec<Widget>,
    ) -> (widget: Widget)
        ensures
            widget@ == (WidgetView::Linear {
                direction,
                horizontal,
                vertical,
                children: views(children@),
            }),
    {
        let ghost inside = children@;
        let widget = Widget::Linear { direction, horizontal, vertical, children };
        assert(widget@->Linear_children =~= views(inside));
        widget
    }

    /// A horizontal strip of widgets.
    pub fn row(placement: Alignment, children: Vec<Widget>) -> (widget: Widget)
        ensures
            widget@ == (WidgetView::Row { placement, children: views(children@) }),
    {
        let ghost inside = children@;
        let widget = Widget::Row { placement, children };
        assert(widget@->Row_children =~= views(inside));
        widget
    }

    /// A grid of widgets.
    pub fn grid(columns: Vec<u32>, rows: Vec<u32>, children: Vec<Widget>) -> (widget: Widget)
        ensures
            widget@ == (WidgetView::Grid {
                columns: columns@,
                rows: rows@,
                children: views(children@),
            }),
    {
        let ghost inside = children@;
        let widget = Widget::Grid { columns, rows, children };
        assert(widget@->Grid_children =~= views(inside));
        widget
    }
}

impl View for Widget {
    type V = WidgetView;

    open spec fn view(&self) -> WidgetView {
        self.model()
    }
}

} // verus!
