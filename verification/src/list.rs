//! A list of items with an optional cursor that moves with wraparound.

use vstd::prelude::*;

verus! {

/// The mathematical content of a [`StatefulList`]: its items in order and
/// the position of the cursor, if any.
pub struct ListModel<T> {
    pub items: Seq<T>,
    pub cursor: Option<nat>,
}

impl<T> ListModel<T> {
    /// The cursor, where there is one, points at an item.
    pub open spec fn wf(self) -> bool {
        match self.cursor {
            Some(i) => i < self.items.len(),
            None => true,
        }
    }

    /// The list with the same items and the cursor at `cursor`.
    pub open spec fn at(self, cursor: Option<nat>) -> Self {
        ListModel { items: self.items, cursor }
    }

    /// One step forward: to the first item from no cursor or from the last
    /// item, else to the item after. An empty list is left as it is.
    pub open spec fn next(self) -> Self {
        if self.items.len() == 0 {
            self
        } else {
            match self.cursor {
                Some(i) => if i + 1 >= self.items.len() {
                    self.at(Some(0))
                } else {
                    self.at(Some(i + 1))
                },
                None => self.at(Some(0)),
            }
        }
    }

    /// One step back: to the first item from no cursor, to the last item
    /// from the first, else to the item before. An empty list is left as it
    /// is.
    pub open spec fn previous(self) -> Self {
        if self.items.len() == 0 {
            self
        } else {
            match self.cursor {
                Some(i) => if i == 0 {
                    self.at(Some((self.items.len() - 1) as nat))
                } else {
                    self.at(Some((i - 1) as nat))
                },
                None => self.at(Some(0)),
            }
        }
    }

    /// The same items without a cursor.
    pub open spec fn unselect(self) -> Self {
        self.at(None)
    }

    /// Other items, without a cursor.
    pub open spec fn replace_items(self, items: Seq<T>) -> Self {
        ListModel { items, cursor: None }
    }

    /// `steps` steps forward, one after the other.
    pub open spec fn next_times(self, steps: nat) -> Self
        decreases steps,
    {
        if steps == 0 {
            self
        } else {
            self.next_times((steps - 1) as nat).next()
        }
    }

    /// `steps` steps back, one after the other.
    pub open spec fn previous_times(self, steps: nat) -> Self
        decreases steps,
    {
        if steps == 0 {
            self
        } else {
            self.previous_times((steps - 1) as nat).previous()
        }
    }
}

impl<T> ListModel<T> {
    /// Stepping forward never changes the items and keeps the cursor in
    /// bounds.
    pub proof fn lemma_next_times_keeps_items(self, steps: nat)
        requires
            self.wf(),
        ensures
            self.next_times(steps).items == self.items,
            self.next_times(steps).wf(),
        decreases steps,
    {
        if steps > 0 {
            self.lemma_next_times_keeps_items((steps - 1) as nat);
        }
    }

    /// On a list of `n > 0` items without a cursor, the `k`-th step forward
    /// stands on item `k - 1`, for each `k` from 1 to `n`.
    pub proof fn lemma_next_times_position(self, steps: nat)
        requires
            self.items.len() > 0,
            self.cursor is None,
            1 <= steps <= self.items.len(),
        ensures
            self.next_times(steps) == self.at(Some((steps - 1) as nat)),
        decreases steps,
    {
        if steps == 1 {
            assert(self.next_times(0) == self);
        } else {
            self.lemma_next_times_position((steps - 1) as nat);
        }
    }

    /// Once the cursor is set, `n` further steps forward on a list of `n`
    /// items bring it back to where it was.
    pub proof fn lemma_next_times_period(self, steps: nat)
        requires
            self.items.len() > 0,
            self.cursor is None,
            steps >= 1,
        ensures
            self.next_times(steps + self.items.len()) == self.next_times(steps),
        decreases steps,
    {
        let n = self.items.len();
        if steps == 1 {
            self.lemma_next_times_position(n);
            self.lemma_next_times_position(1);
            assert(self.next_times(n + 1) == self.next_times(n).next());
        } else {
            self.lemma_next_times_period((steps - 1) as nat);
            assert(self.next_times(steps + n) == self.next_times((steps - 1) as nat + n).next());
        }
    }

    /// Stepping forward from no cursor goes through a list of `n > 0` items
    /// in a cycle: the first `n` steps stand on the items 0 to `n - 1` in
    /// order, so on each item once and on no item twice, and the step after
    /// the last item stands on the first again.
    pub proof fn lemma_next_visits_all(self)
        requires
            self.items.len() > 0,
            self.cursor is None,
        ensures
            forall|k: nat|
                1 <= k <= self.items.len() ==> (#[trigger] self.next_times(k)).cursor
                    == Some((k - 1) as nat),
            forall|j: nat, k: nat|
                1 <= j < k <= self.items.len() ==> (#[trigger] self.next_times(j)).cursor
                    != (#[trigger] self.next_times(k)).cursor,
            self.at(Some((self.items.len() - 1) as nat)).next().cursor == Some(0nat),
            self.next_times(self.items.len() + 1).cursor == Some(0nat),
    {
        let n = self.items.len();
        assert forall|k: nat| 1 <= k <= n implies (#[trigger] self.next_times(k)).cursor
            == Some((k - 1) as nat) by {
            self.lemma_next_times_position(k);
        }
        self.lemma_next_times_period(1);
    }

    /// On a list of `n > 0` items without a cursor, the first step back
    /// stands on the first item, and the `k`-th step back, for each `k` from
    /// 2 to `n + 1`, on item `n + 1 - k`: the steps after the first go
    /// through the items from the last to the first.
    pub proof fn lemma_previous_times_position(self, steps: nat)
        requires
            self.items.len() > 0,
            self.cursor is None,
            1 <= steps <= self.items.len() + 1,
        ensures
            steps == 1 ==> self.previous_times(steps) == self.at(Some(0nat)),
            steps >= 2 ==> self.previous_times(steps) == self.at(
                Some((self.items.len() + 1 - steps) as nat),
            ),
        decreases steps,
    {
        if steps == 1 {
            assert(self.previous_times(0) == self);
        } else {
            self.lemma_previous_times_position((steps - 1) as nat);
        }
    }

    /// With a cursor on a list that has items, a step back undoes a step
    /// forward, and a step forward undoes a step back.
    pub proof fn lemma_previous_undoes_next(self)
        requires
            self.wf(),
            self.items.len() > 0,
            self.cursor is Some,
        ensures
            self.next().previous() == self,
            self.previous().next() == self,
    {
    }

    /// On a list that has items, a step forward after the cursor was cleared
    /// stands on the first item, wherever the cursor was.
    pub proof fn lemma_unselect_then_next(self)
        requires
            self.items.len() > 0,
        ensures
            self.unselect().next().cursor == Some(0nat),
            self.unselect().next().items == self.items,
    {
    }

    /// Replacing the items clears the cursor, whatever the cursor and the
    /// items were, and the result is well formed.
    pub proof fn lemma_replace_items_clears(self, items: Seq<T>)
        ensures
            self.replace_items(items).cursor is None,
            self.replace_items(items).items == items,
            self.replace_items(items).wf(),
    {
    }
}

/// The cursor of the model for a cursor held as a machine index.
pub open spec fn cursor_model(cursor: Option<usize>) -> Option<nat> {
    match cursor {
        Some(i) => Some(i as nat),
        None => None,
    }
}

/// An ordered list of items and, optionally, the index of the highlighted one.
pub struct StatefulList<T> {
    items: Vec<T>,
    cursor: Option<usize>,
}

impl<T> View for StatefulList<T> {
    type V = ListModel<T>;

    closed spec fn view(&self) -> ListModel<T> {
        ListModel { items: self.items@, cursor: cursor_model(self.cursor) }
    }
}

impl<T> StatefulList<T> {
    /// The invariant of the type: a cursor is never out of bounds.
    pub open spec fn wf(&self) -> bool {
        self@.wf()
    }

    /// A list of `items` with no cursor.
    pub fn with_items(items: Vec<T>) -> (list: Self)
        ensures
            list.wf(),
            list@.items == items@,
            list@.cursor is None,
    {
        StatefulList { items, cursor: None }
    }

    /// Moves the cursor one step forward, wrapping from the last item to the
    /// first; without a cursor, the first item is taken. Nothing happens on
    /// an empty list.
    pub fn next(&mut self)
        requires
            old(self).wf(),
        ensures
            final(self).wf(),
            final(self)@ == old(self)@.next(),
    {
        let len: usize = self.items.len();
        if len > 0 {
            let i: usize = match self.cursor {
                Some(i) => if i >= len - 1 {
                    0
                } else {
                    i + 1
                },
                None => 0,
            };
            self.cursor = Some(i);
        }
    }

    /// Moves the cursor one step back, wrapping from the first item to the
    /// last; without a cursor, the first item is taken. Nothing happens on
    /// an empty list.
    pub fn previous(&mut self)
        requires
            old(self).wf(),
        ensures
            final(self).wf(),
            final(self)@ == old(self)@.previous(),
    {
        let len: usize = self.items.len();
        if len > 0 {
            let i: usize = match self.cursor {
                Some(i) => if i == 0 {
                    len - 1
                } else {
                    i - 1
                },
                None => 0,
            };
            self.cursor = Some(i);
        }
    }

    /// Clears the cursor.
    pub fn unselect(&mut self)
        ensures
            final(self).wf(),
            final(self)@ == old(self)@.unselect(),
    {
        self.cursor = None;
    }

    /// Puts `items` in place of the list's items and clears the cursor.
    pub fn replace_items(&mut self, items: Vec<T>)
        ensures
            final(self).wf(),
            final(self)@ == old(self)@.replace_items(items@),
            final(self)@.cursor is None,
    {
        self.items = items;
        self.cursor = None;
    }

    /// The index of the highlighted item, if there is one.
    pub fn selected(&self) -> (cursor: Option<usize>)
        ensures
            cursor_model(cursor) == self@.cursor,
    {
        self.cursor
    }

    /// The number of items.
    pub fn len(&self) -> (n: usize)
        ensures
            n == self@.items.len(),
    {
        self.items.len()
    }

    /// The items, in order.
    pub fn items(&self) -> (items: &Vec<T>)
        ensures
            items@ == self@.items,
    {
        &self.items
    }
}

} // verus!
