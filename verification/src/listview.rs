use vstd::prelude::*;

verus! {

/// The abstract state of a list view.
pub struct ListState {
    /// The items, top to bottom.
    pub items: Seq<String>,
    /// The index of the selected item, if any.
    pub selected: Option<usize>,
    /// The index of the first item shown in the box.
    pub scroll: usize,
    /// How many rows the box shows; `None` shows every item.
    pub max_visible: Option<usize>,
    /// Whether a scrollbar is drawn when the items do not fit.
    pub show_scrollbar: bool,
}

impl ListState {
    /// The selection points at an item, the first shown row is at most one past
    /// the last item, a list without a row limit is never scrolled, and the
    /// number of items fits in a `usize`.
    pub open spec fn wf(self) -> bool {
        &&& (self.selected matches Some(s) ==> s < self.items.len())
        &&& self.scroll <= self.items.len()
        &&& (self.max_visible is None ==> self.scroll == 0)
        &&& self.items.len() <= usize::MAX
    }

    /// The state of a freshly built list.
    pub open spec fn initial(items: Seq<String>) -> ListState {
        ListState { items, selected: None, scroll: 0, max_visible: None, show_scrollbar: true }
    }

    /// The number of items.
    pub open spec fn len(self) -> nat {
        self.items.len()
    }

    /// The list with `item` appended at the bottom.
    pub open spec fn added(self, item: String) -> ListState {
        ListState { items: self.items.push(item), ..self }
    }

    /// The list with `more` appended at the bottom, in order.
    pub open spec fn added_all(self, more: Seq<String>) -> ListState {
        ListState { items: self.items + more, ..self }
    }

    /// The list emptied, with no selection and scrolled to the top.
    pub open spec fn cleared(self) -> ListState {
        ListState { items: Seq::empty(), selected: None, scroll: 0, ..self }
    }

    /// The list with the item at `index` taken out. The selection is cleared when
    /// it was on that item, moves up by one when it was below the removed item,
    /// and stays when it was above it; a first shown row past the end
    /// of the shortened list moves to its last item. An index past the end
    /// changes nothing.
    pub open spec fn removed(self, index: usize) -> ListState {
        if index < self.len() {
            let n = self.len() - 1;
            ListState {
                items: self.items.remove(index as int),
                selected: match self.selected {
                    Some(s) => if s == index {
                        None
                    } else if s > index {
                        Some((s - 1) as usize)
                    } else {
                        Some(s)
                    },
                    None => None,
                },
                scroll: if self.scroll > 0 && self.scroll >= n {
                    if n > 0 { (n - 1) as usize } else { 0 }
                } else {
                    self.scroll
                },
                ..self
            }
        } else {
            self
        }
    }

    /// The first shown row after selecting `index` while `max_visible` rows are
    /// shown: it moves just enough for row `index` to come into view.
    pub open spec fn scroll_to_show(self, index: usize) -> usize {
        match self.max_visible {
            Some(m) => if index < self.scroll {
                index
            } else if index >= self.scroll + m {
                (index - m + 1) as usize
            } else {
                self.scroll
            },
            None => self.scroll,
        }
    }

    /// The list after a request to select `index`: `None` clears the selection,
    /// an index of an item selects it and scrolls it into view, and an index past
    /// the end changes nothing.
    pub open spec fn selected_to(self, index: Option<usize>) -> ListState {
        match index {
            None => ListState { selected: None, ..self },
            Some(i) => if i < self.len() {
                ListState { selected: Some(i), scroll: self.scroll_to_show(i), ..self }
            } else {
                self
            },
        }
    }

    /// The list showing at most `count` rows.
    pub open spec fn limited_to(self, count: usize) -> ListState {
        ListState { max_visible: Some(count), ..self }
    }

    /// The list with the scrollbar enabled or disabled.
    pub open spec fn with_scrollbar(self, show: bool) -> ListState {
        ListState { show_scrollbar: show, ..self }
    }

    /// The items do not fit in the rows shown, so the list can scroll.
    pub open spec fn can_scroll(self) -> bool {
        self.max_visible matches Some(m) && self.len() > m
    }

    /// The list draws a scrollbar.
    pub open spec fn shows_scrollbar(self) -> bool {
        self.show_scrollbar && self.can_scroll()
    }

    /// The largest first shown row that scrolling reaches: the number of items
    /// that do not fit in the rows shown.
    pub open spec fn max_scroll(self) -> nat {
        match self.max_visible {
            Some(m) => if self.len() > m { (self.len() - m) as nat } else { 0 },
            None => 0,
        }
    }

    /// The list after one wheel step up (`up`) or down. Up moves the first shown
    /// row back by one, stopping at the top; down moves it on by one, stopping at
    /// `max_scroll`. A list that cannot scroll is left as it is.
    pub open spec fn scrolled(self, up: bool) -> ListState {
        if self.can_scroll() {
            if up {
                ListState { scroll: if self.scroll > 0 { (self.scroll - 1) as usize } else { 0 }, ..self }
            } else {
                ListState {
                    scroll: if self.scroll + 1 < self.max_scroll() {
                        (self.scroll + 1) as usize
                    } else {
                        self.max_scroll() as usize
                    },
                    ..self
                }
            }
        } else {
            self
        }
    }

    /// The list after the scrollbar was dragged to first shown row `target`,
    /// which is cut down to `max_scroll`. Without a scrollbar nothing changes.
    pub open spec fn dragged(self, target: usize) -> ListState {
        if self.shows_scrollbar() {
            ListState {
                scroll: if target < self.max_scroll() { target } else { self.max_scroll() as usize },
                ..self
            }
        } else {
            self
        }
    }

    /// The list after a click on shown row `row` (0 is the first shown row): the
    /// item there is selected, and a click below the last item changes nothing.
    pub open spec fn clicked(self, row: usize) -> ListState {
        if self.scroll + row < self.len() {
            ListState { selected: Some((self.scroll + row) as usize), ..self }
        } else {
            self
        }
    }

    /// How many rows the box is tall: `max_visible`, or every item.
    pub open spec fn box_rows(self) -> nat {
        match self.max_visible {
            Some(m) => m as nat,
            None => self.len(),
        }
    }

    /// The index of the first item drawn.
    pub open spec fn visible_start(self) -> int {
        self.scroll as int
    }

    /// One past the index of the last item drawn: the first shown row plus the
    /// number of rows shown (never more than the items), cut down to the end.
    pub open spec fn visible_end(self) -> int {
        let count = match self.max_visible {
            Some(m) => if m < self.len() { m as int } else { self.len() as int },
            None => self.len() as int,
        };
        if self.scroll + count < self.len() { self.scroll + count } else { self.len() as int }
    }
}


/// A list of text items with one optional selection and a scrolling window.
pub struct ListView {
    items: Vec<String>,
    selected_index: Option<usize>,
    scroll_offset: usize,
    max_visible_items: Option<usize>,
    show_scrollbar: bool,
}

impl View for ListView {
    type V = ListState;

    closed spec fn view(&self) -> ListState {
        ListState {
            items: self.items@,
            selected: self.selected_index,
            scroll: self.scroll_offset,
            max_visible: self.max_visible_items,
            show_scrollbar: self.show_scrollbar,
        }
    }
}

impl ListView {
    #[verifier::type_invariant]
    closed spec fn inv(self) -> bool {
        self@.wf()
    }

    /// Builds a list holding a copy of `items`, with nothing selected, scrolled
    /// to the top, showing every item, with the scrollbar enabled.
    pub fn new(items: &Vec<String>) -> (res: Self)
        ensures
            res@ == ListState::initial(items@),
            res@.wf(),
    {
        let mut copy: Vec<String> = Vec::new();
        let n = items.len();
        for i in 0..n
            invariant
                n == items@.len(),
                copy@ == items@.take(i as int),
        {
            copy.push(items[i].clone());
            assert(copy@ == items@.take(i + 1));
        }
        assert(items@.take(n as int) == items@);
        ListView {
            items: copy,
            selected_index: None,
            scroll_offset: 0,
            max_visible_items: None,
            show_scrollbar: true,
        }
    }

    /// Moves the items out, leaving an empty list with no selection scrolled to
    /// the top, so that they can be changed in place and put back with
    /// `restore`.
    fn detach_items(&mut self) -> (items: Vec<String>)
        ensures
            items@ == old(self).items@,
            final(self).items@ == Seq::<String>::empty(),
            final(self).selected_index is None,
            final(self).scroll_offset == 0,
            final(self).max_visible_items == old(self).max_visible_items,
            final(self).show_scrollbar == old(self).show_scrollbar,
    {
        proof { use_type_invariant(&*self); }
        self.selected_index = None;
        self.scroll_offset = 0;
        let mut items: Vec<String> = Vec::new();
        std::mem::swap(&mut items, &mut self.items);
        items
    }

    /// Puts `items` back with the given selection and first shown row.
    fn restore(&mut self, items: Vec<String>, selected: Option<usize>, scroll: usize)
        requires
            selected matches Some(s) ==> s < items@.len(),
            scroll <= items@.len(),
            old(self).max_visible_items is None ==> scroll == 0,
        ensures
            final(self).items@ == items@,
            items@.len() <= usize::MAX,
            final(self).selected_index == selected,
            final(self).scroll_offset == scroll,
            final(self).max_visible_items == old(self).max_visible_items,
            final(self).show_scrollbar == old(self).show_scrollbar,
    {
        let n = items.len();
        proof { assert(items@.len() == n); }
        *self = ListView {
            items,
            selected_index: selected,
            scroll_offset: scroll,
            max_visible_items: self.max_visible_items,
            show_scrollbar: self.show_scrollbar,
        };
    }

    /// Appends `item` at the bottom.
    pub fn add_item(&mut self, item: String)
        ensures
            final(self)@ == old(self)@.added(item),
            final(self)@.wf(),
    {
        proof { use_type_invariant(&*self); }
        let selected = self.selected_index;
        let scroll = self.scroll_offset;
        let mut items = self.detach_items();
        items.push(item);
        self.restore(items, selected, scroll);
    }

    /// Appends a copy of each of `items` at the bottom, in order.
    pub fn add_items(&mut self, items: &Vec<String>)
        ensures
            final(self)@ == old(self)@.added_all(items@),
            final(self)@.wf(),
    {
        proof { use_type_invariant(&*self); }
        let selected = self.selected_index;
        let scroll = self.scroll_offset;
        let mut all = self.detach_items();
        let ghost start = all@;
        let n = items.len();
        for i in 0..n
            invariant
                n == items@.len(),
                all@ == start + items@.take(i as int),
        {
            all.push(items[i].clone());
            assert(all@ == start + items@.take(i + 1));
        }
        assert(items@.take(n as int) == items@);
        self.restore(all, selected, scroll);
    }

    /// Removes every item, clears the selection and scrolls to the top.
    pub fn clear(&mut self)
        ensures
            final(self)@ == old(self)@.cleared(),
            final(self)@.wf(),
    {
        let _ = self.detach_items();
    }

    /// Removes the item at `index`, if there is one (see `ListState::removed`).
    pub fn remove_item(&mut self, index: usize)
        ensures
            final(self)@ == old(self)@.removed(index),
            final(self)@.wf(),
    {
        proof { use_type_invariant(&*self); }
        let len = self.items.len();
        if index < len {
            let n = len - 1;
            let new_selected = match self.selected_index {
                Some(s) => if s == index {
                    None
                } else if s > index {
                    Some(s - 1)
                } else {
                    Some(s)
                },
                None => None,
            };
            let new_scroll = if self.scroll_offset > 0 && self.scroll_offset >= n {
                n.saturating_sub(1)
            } else {
                self.scroll_offset
            };
            let mut items = self.detach_items();
            items.remove(index);
            self.restore(items, new_selected, new_scroll);
        }
    }

    /// The selected item, if any.
    pub fn selected_item(&self) -> (res: Option<&String>)
        ensures
            match res {
                Some(item) => self@.selected matches Some(i) && i < self@.len() && *item == self@.items[i as int],
                None => self@.selected is None,
            },
    {
        proof { use_type_invariant(self); }
        match self.selected_index {
            Some(i) => Some(&self.items[i]),
            None => None,
        }
    }

    /// Selects the item at `index` and scrolls it into view, or clears the
    /// selection for `None`; an index past the end is ignored.
    pub fn select_item(&mut self, index: Option<usize>)
        ensures
            final(self)@ == old(self)@.selected_to(index),
            final(self)@.wf(),
    {
        proof { use_type_invariant(&*self); }
        match index {
            None => {
                self.selected_index = None;
            },
            Some(idx) => {
                if idx < self.items.len() {
                    let new_scroll = match self.max_visible_items {
                        Some(max_items) => if idx < self.scroll_offset {
                            idx
                        } else if idx - self.scroll_offset >= max_items {
                            idx.saturating_sub(max_items) + 1
                        } else {
                            self.scroll_offset
                        },
                        None => self.scroll_offset,
                    };
                    self.selected_index = Some(idx);
                    self.scroll_offset = new_scroll;
                }
            },
        }
    }

    /// Shows at most `count` rows; the items that do not fit are reached by
    /// scrolling. Returns the list for chaining.
    pub fn with_max_visible_items(&mut self, count: usize) -> (res: &mut Self)
        ensures
            res@ == old(self)@.limited_to(count),
            res@.wf(),
            *final(self) == *final(res),
    {
        proof { use_type_invariant(&*self); }
        self.max_visible_items = Some(count);
        self
    }

    /// Enables (`show`) or disables the scrollbar. Returns the list for chaining.
    pub fn with_scrollbar_settings(&mut self, show: bool) -> (res: &mut Self)
        ensures
            res@ == old(self)@.with_scrollbar(show),
            res@.wf(),
            *final(self) == *final(res),
    {
        proof { use_type_invariant(&*self); }
        self.show_scrollbar = show;
        self
    }

    /// Whether the items overflow the rows shown, so that the wheel scrolls.
    pub fn can_scroll(&self) -> (res: bool)
        ensures
            res == self@.can_scroll(),
    {
        match self.max_visible_items {
            Some(m) => self.items.len() > m,
            None => false,
        }
    }

    /// Whether a scrollbar is drawn (and can be dragged).
    pub fn shows_scrollbar(&self) -> (res: bool)
        ensures
            res == self@.shows_scrollbar(),
    {
        self.show_scrollbar && self.can_scroll()
    }

    /// The largest first shown row that scrolling reaches.
    pub fn max_scroll_offset(&self) -> (res: usize)
        ensures
            res == self@.max_scroll(),
    {
        match self.max_visible_items {
            Some(m) => self.items.len().saturating_sub(m),
            None => 0,
        }
    }

    /// One wheel step over the list: up (`up`) or down by one row, within
    /// `0 ..= max_scroll_offset()`. Does nothing when every item fits.
    pub fn scroll_by_wheel(&mut self, up: bool)
        ensures
            final(self)@ == old(self)@.scrolled(up),
            final(self)@.wf(),
    {
        proof { use_type_invariant(&*self); }
        if self.can_scroll() {
            if up {
                self.scroll_offset = self.scroll_offset.saturating_sub(1);
            } else {
                let max_offset = self.max_scroll_offset();
                self.scroll_offset = if self.scroll_offset < max_offset {
                    self.scroll_offset + 1
                } else {
                    max_offset
                };
            }
        }
    }

    /// The scrollbar was dragged to first shown row `target`; it is cut down to
    /// `max_scroll_offset()`. Does nothing when no scrollbar is shown.
    pub fn drag_scrollbar(&mut self, target: usize)
        ensures
            final(self)@ == old(self)@.dragged(target),
            final(self)@.wf(),
    {
        proof { use_type_invariant(&*self); }
        if self.shows_scrollbar() {
            let max_offset = self.max_scroll_offset();
            self.scroll_offset = if target < max_offset { target } else { max_offset };
        }
    }

    /// A click landed on shown row `row` (0 is the first shown row): selects the
    /// item drawn there, if any.
    pub fn click_row(&mut self, row: usize)
        ensures
            final(self)@ == old(self)@.clicked(row),
            final(self)@.wf(),
    {
        proof { use_type_invariant(&*self); }
        if row < self.items.len() - self.scroll_offset {
            self.selected_index = Some(self.scroll_offset + row);
        }
    }

    /// How many rows tall the box is: the rows shown, or every item.
    pub fn box_rows(&self) -> (res: usize)
        ensures
            res == self@.box_rows(),
    {
        match self.max_visible_items {
            Some(m) => m,
            None => self.items.len(),
        }
    }

    /// The indices `start..end` of the items drawn, top to bottom.
    pub fn visible_range(&self) -> (res: (usize, usize))
        ensures
            res.0 == self@.visible_start(),
            res.1 == self@.visible_end(),
            res.0 <= res.1 <= self@.len(),
    {
        proof { use_type_invariant(self); }
        let len = self.items.len();
        let count = match self.max_visible_items {
            Some(m) => if m < len { m } else { len },
            None => len,
        };
        let end = if count < len - self.scroll_offset { self.scroll_offset + count } else { len };
        (self.scroll_offset, end)
    }

    /// The rows drawn, top to bottom: for each, the index of the item drawn on
    /// it and whether that item is the selected one (drawn highlighted).
    pub fn drawn_rows(&self) -> (res: Vec<(usize, bool)>)
        ensures
            res@.len() == self@.visible_end() - self@.visible_start(),
            forall|j: int|
                0 <= j < res@.len() ==> {
                    &&& (#[trigger] res@[j]).0 == self@.visible_start() + j
                    &&& res@[j].1 == (self@.selected == Some((self@.visible_start() + j) as usize))
                },
    {
        let (start, end) = self.visible_range();
        let mut rows: Vec<(usize, bool)> = Vec::new();
        let mut index = start;
        while index < end
            invariant
                start == self@.visible_start(),
                end == self@.visible_end(),
                start <= index <= end,
                rows@.len() == index - start,
                forall|j: int|
                    0 <= j < rows@.len() ==> {
                        &&& (#[trigger] rows@[j]).0 == start + j
                        &&& rows@[j].1 == (self@.selected == Some((start + j) as usize))
                    },
            decreases end - index,
        {
            rows.push((index, self.is_selected(index)));
            index = index + 1;
        }
        rows
    }

    /// The items, top to bottom.
    pub fn items(&self) -> (res: &Vec<String>)
        ensures
            res@ == self@.items,
    {
        &self.items
    }

    /// The number of items.
    pub fn len(&self) -> (res: usize)
        ensures
            res == self@.len(),
    {
        self.items.len()
    }

    /// The index of the selected item, if any.
    pub fn selected_index(&self) -> (res: Option<usize>)
        ensures
            res == self@.selected,
    {
        self.selected_index
    }

    /// Whether the item at `index` is the selected one, and so is drawn
    /// highlighted.
    pub fn is_selected(&self, index: usize) -> (res: bool)
        ensures
            res == (self@.selected == Some(index)),
    {
        match self.selected_index {
            Some(s) => s == index,
            None => false,
        }
    }

    /// The index of the first item shown.
    pub fn scroll_offset(&self) -> (res: usize)
        ensures
            res == self@.scroll,
    {
        self.scroll_offset
    }

    /// The number of rows shown, if limited.
    pub fn max_visible_items(&self) -> (res: Option<usize>)
        ensures
            res == self@.max_visible,
    {
        self.max_visible_items
    }

    /// Whether the scrollbar is enabled.
    pub fn scrollbar_enabled(&self) -> (res: bool)
        ensures
            res == self@.show_scrollbar,
    {
        self.show_scrollbar
    }
}

} // verus!
