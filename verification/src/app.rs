//! The state of the dashboard: the list panel and the tab strip.

use vstd::prelude::*;
use crate::list::{ListModel, StatefulList};

verus! {

/// What one entry stands for in contracts: its label and its tag.
pub type Entry = (Seq<char>, nat);

/// The entries that a sequence of labelled items stands for.
pub open spec fn entries(items: Seq<(&str, usize)>) -> Seq<Entry> {
    Seq::new(items.len(), |i: int| (items[i].0@, items[i].1 as nat))
}

/// The model of a list of labelled items.
pub open spec fn entry_list(list: ListModel<(&str, usize)>) -> ListModel<Entry> {
    ListModel { items: entries(list.items), cursor: list.cursor }
}

/// The entries of the list panel at startup.
pub open spec fn seed_items() -> Seq<Entry> {
    seq![("Item0"@, 1nat), ("Item1"@, 2nat), ("Item2"@, 3nat)]
}

/// The entries of the tab strip.
pub open spec fn seed_titles() -> Seq<Entry> {
    seq![("Test0"@, 1nat), ("Test1"@, 2nat), ("Test2"@, 3nat), ("Test3"@, 4nat)]
}

/// The entries that take the place of the list panel's on request.
pub open spec fn alternate_items() -> Seq<Entry> {
    seq![("test"@, 1nat), ("Testing"@, 2nat)]
}

/// The mathematical content of an [`App`]: its two lists, each with its own
/// cursor.
pub struct AppModel {
    pub items: ListModel<Entry>,
    pub titles: ListModel<Entry>,
}

impl AppModel {
    /// Both lists are well formed.
    pub open spec fn wf(self) -> bool {
        self.items.wf() && self.titles.wf()
    }

    /// The state at startup: the seed entries, no cursor in either list.
    pub open spec fn initial() -> AppModel {
        AppModel {
            items: ListModel { items: seed_items(), cursor: None },
            titles: ListModel { items: seed_titles(), cursor: None },
        }
    }
}

/// The state of the dashboard.
pub struct App<'a> {
    /// The entries of the list panel.
    pub items: StatefulList<(&'a str, usize)>,
    /// The headers of the tab strip.
    pub titles: StatefulList<(&'a str, usize)>,
}

impl<'a> View for App<'a> {
    type V = AppModel;

    open spec fn view(&self) -> AppModel {
        AppModel { items: entry_list(self.items@), titles: entry_list(self.titles@) }
    }
}

impl<'a> App<'a> {
    /// The invariant of the type: both lists are well formed.
    pub open spec fn wf(&self) -> bool {
        self.items.wf() && self.titles.wf()
    }

    /// The state at startup.
    pub fn new() -> (app: App<'a>)
        ensures
            app.wf(),
            app@ == AppModel::initial(),
    {
        let app = App {
            items: StatefulList::with_items(vec![("Item0", 1), ("Item1", 2), ("Item2", 3)]),
            titles: StatefulList::with_items(
                vec![("Test0", 1), ("Test1", 2), ("Test2", 3), ("Test3", 4)],
            ),
        };
        assert(entries(app.items@.items) =~= seed_items());
        assert(entries(app.titles@.items) =~= seed_titles());
        app
    }

    /// Called once per tick of the event loop. Time changes nothing in the
    /// state so far.
    pub fn on_tick(&mut self)
        ensures
            *final(self) == *old(self),
    {
    }

    /// Puts the alternate entries in place of the list panel's and clears
    /// its cursor.
    pub fn load_alternate_items(&mut self)
        ensures
            final(self).items.wf(),
            final(self).titles == old(self).titles,
            final(self)@.items == old(self)@.items.replace_items(alternate_items()),
    {
        self.items.replace_items(vec![("test", 1), ("Testing", 2)]);
        assert(entries(self.items@.items) =~= alternate_items());
    }
}

} // verus!
