//! What a frame shows: the tabs and the rows, in order, and which of them
//! is emphasised.

use vstd::prelude::*;
use crate::app::{App, AppModel, Entry};
use crate::list::{cursor_model, StatefulList};

verus! {

/// The title of the tab strip.
pub const TABS_TITLE: &'static str = "Tabs";

/// The title of the list panel.
pub const LIST_TITLE: &'static str = "List";

/// The title of the static panel.
pub const PANEL_TITLE: &'static str = "Block 2";

/// The marker in front of the emphasised row.
pub const HIGHLIGHT_SYMBOL: &'static str = ">> ";

/// The labels of a sequence of entries, in order.
pub open spec fn labels_of(entries: Seq<Entry>) -> Seq<Seq<char>> {
    Seq::new(entries.len(), |i: int| entries[i].0)
}

/// The texts of a sequence of strings, in order.
pub open spec fn texts(strings: Seq<&str>) -> Seq<Seq<char>> {
    Seq::new(strings.len(), |i: int| strings[i]@)
}

/// The mathematical content of a [`FramePlan`].
pub struct PlanModel {
    /// The labels of the tab strip, in order.
    pub tabs: Seq<Seq<char>>,
    /// The tab that is emphasised.
    pub selected_tab: nat,
    /// The rows of the list panel, in order.
    pub rows: Seq<Seq<char>>,
    /// The row that is emphasised, if any.
    pub highlighted_row: Option<nat>,
}

/// The frame that a state asks for. The tab strip emphasises the tab under
/// its cursor, and the first tab when it has no cursor. The list panel
/// emphasises the row under its cursor, and none when it has no cursor.
pub open spec fn plan_of(state: AppModel) -> PlanModel {
    PlanModel {
        tabs: labels_of(state.titles.items),
        selected_tab: match state.titles.cursor {
            Some(i) => i,
            None => 0,
        },
        rows: labels_of(state.items.items),
        highlighted_row: state.items.cursor,
    }
}

/// What a frame shows.
pub struct FramePlan<'a> {
    /// The labels of the tab strip, in order.
    pub tabs: Vec<&'a str>,
    /// The index of the emphasised tab.
    pub selected_tab: usize,
    /// The rows of the list panel, in order.
    pub rows: Vec<&'a str>,
    /// The index of the emphasised row, if any.
    pub highlighted_row: Option<usize>,
}

impl<'a> View for FramePlan<'a> {
    type V = PlanModel;

    open spec fn view(&self) -> PlanModel {
        PlanModel {
            tabs: texts(self.tabs@),
            selected_tab: self.selected_tab as nat,
            rows: texts(self.rows@),
            highlighted_row: cursor_model(self.highlighted_row),
        }
    }
}

/// The labels of a list's items, in order.
pub fn labels<'a>(list: &StatefulList<(&'a str, usize)>) -> (out: Vec<&'a str>)
    ensures
        texts(out@) == labels_of(crate::app::entries(list@.items)),
{
    let items = list.items();
    let mut out: Vec<&'a str> = Vec::new();
    let mut i: usize = 0;
    while i < items.len()
        invariant
            items@ == list@.items,
            i <= items@.len(),
            out@.len() == i,
            forall|j: int| 0 <= j < i ==> out@[j]@ == items@[j].0@,
        decreases items@.len() - i,
    {
        out.push(items[i].0);
        i += 1;
    }
    assert(texts(out@) =~= labels_of(crate::app::entries(list@.items)));
    out
}

/// The index of the tab to emphasise: the one under the cursor of the tab
/// strip, and the first when there is no cursor.
pub fn selected_tab(app: &App) -> (index: usize)
    ensures
        index as nat == plan_of(app@).selected_tab,
{
    match app.titles.selected() {
        Some(x) => x,
        None => 0,
    }
}

/// Plans a frame for the state, which it leaves as it is.
pub fn plan<'a>(app: &App<'a>) -> (frame: FramePlan<'a>)
    ensures
        frame@ == plan_of(app@),
{
    let frame = FramePlan {
        tabs: labels(&app.titles),
        selected_tab: selected_tab(app),
        rows: labels(&app.items),
        highlighted_row: app.items.selected(),
    };
    frame
}

} // verus!
