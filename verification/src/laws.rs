//! Properties of the list that span several operations, stated over the
//! abstract state that the operations' contracts use.

use vstd::prelude::*;
use crate::listview::ListState;

verus! {

/// A freshly built list is well formed, and every operation keeps a well-formed
/// list well formed: the selection always names an item, and the first shown row
/// is never past the end of the list (adding is taken while the items still fit
/// in a `usize`, which a list in memory always does).
pub proof fn law_operations_keep_well_formed(
    s: ListState,
    items: Seq<String>,
    item: String,
    more: Seq<String>,
    index: usize,
    target: Option<usize>,
    count: usize,
    show: bool,
    up: bool,
    drag: usize,
    row: usize,
)
    requires
        s.wf(),
    ensures
        items.len() <= usize::MAX ==> ListState::initial(items).wf(),
        s.len() < usize::MAX ==> s.added(item).wf(),
        s.len() + more.len() <= usize::MAX ==> s.added_all(more).wf(),
        s.cleared().wf(),
        s.removed(index).wf(),
        s.selected_to(target).wf(),
        s.limited_to(count).wf(),
        s.with_scrollbar(show).wf(),
        s.scrolled(up).wf(),
        s.dragged(drag).wf(),
        s.clicked(row).wf(),
{
}

/// In a well-formed list the items drawn are a range of the items: it starts at
/// the first shown row, ends no later than the last item, and holds no more
/// items than the rows shown.
pub proof fn law_visible_range_within_items(s: ListState)
    requires
        s.wf(),
    ensures
        0 <= s.visible_start() <= s.visible_end() <= s.len(),
        s.max_visible matches Some(m) ==> s.visible_end() - s.visible_start() <= m,
{
}

/// A list without a row limit draws every item, from the first to the last.
pub proof fn law_no_row_limit_draws_every_item(s: ListState)
    requires
        s.wf(),
        s.max_visible is None,
    ensures
        s.visible_start() == 0,
        s.visible_end() == s.len(),
{
}

/// Selecting an item scrolls it into view: afterwards it is the selection and it
/// lies in the range of items drawn, whenever at least one row is shown.
pub proof fn law_selected_item_comes_into_view(s: ListState, i: usize, m: usize)
    requires
        s.wf(),
        i < s.len(),
        s.max_visible == Some(m),
        m > 0,
    ensures
        s.selected_to(Some(i)).selected == Some(i),
        s.selected_to(Some(i)).visible_start() <= i < s.selected_to(Some(i)).visible_end(),
{
}

/// A request to select an index past the end of the list is refused: the list
/// is left exactly as it was.
pub proof fn law_select_past_end_changes_nothing(s: ListState, i: usize)
    requires
        i >= s.len(),
    ensures
        s.selected_to(Some(i)) == s,
{
}

/// Removing the item that was just appended gives back the list as it was,
/// unless the first shown row sat one past the end of a non-empty list (then
/// the removal pulls it back onto the last item).
pub proof fn law_remove_undoes_add(s: ListState, item: String)
    requires
        s.wf(),
        s.scroll < s.len() || s.scroll == 0,
    ensures
        s.added(item).removed(s.len() as usize) == s,
{
    assert(s.added(item).items.remove(s.len() as int) =~= s.items);
}

/// Removing an item other than the selected one keeps the same item selected:
/// its index moves up by one when the removed item was above it.
pub proof fn law_remove_keeps_other_selection(s: ListState, index: usize, k: usize)
    requires
        s.wf(),
        index < s.len(),
        s.selected == Some(k),
        k != index,
    ensures
        s.removed(index).selected == Some(if k > index { (k - 1) as usize } else { k }),
        s.removed(index).selected matches Some(j) && j < s.removed(index).len()
            && s.removed(index).items[j as int] == s.items[k as int],
{
}

/// Removing the selected item clears the selection.
pub proof fn law_remove_selected_clears_selection(s: ListState, k: usize)
    requires
        s.wf(),
        s.selected == Some(k),
    ensures
        s.removed(k).selected is None,
{
}

/// Clearing leaves no items, no selection, the top row shown and nothing drawn.
pub proof fn law_clear_empties(s: ListState)
    ensures
        s.cleared().len() == 0,
        s.cleared().selected is None,
        s.cleared().scroll == 0,
        s.cleared().visible_start() == 0,
        s.cleared().visible_end() == 0,
{
}

/// Scrolling by wheel or by the scrollbar keeps the first shown row within
/// `0 ..= max_scroll`, the range in which the box stays full; a drag lands on
/// the dragged-to row cut down to `max_scroll`.
pub proof fn law_scrolling_stays_in_range(s: ListState, up: bool, target: usize)
    requires
        s.scroll <= s.max_scroll(),
    ensures
        s.scrolled(up).scroll <= s.max_scroll(),
        s.dragged(target).scroll <= s.max_scroll(),
        s.shows_scrollbar() ==> s.dragged(target).scroll == if target < s.max_scroll() {
            target as int
        } else {
            s.max_scroll() as int
        },
{
}

/// One wheel step down and one back up return to the same place, and so do one
/// step up and one back down, away from the two ends of the scroll range.
pub proof fn law_wheel_steps_undo_each_other(s: ListState)
    requires
        s.wf(),
        s.can_scroll(),
    ensures
        s.scroll < s.max_scroll() ==> s.scrolled(false).scrolled(true) == s,
        0 < s.scroll <= s.max_scroll() ==> s.scrolled(true).scrolled(false) == s,
{
}

/// Selecting the same item a second time changes nothing, whenever the list
/// shows every item or at least one row.
pub proof fn law_select_twice_same_as_once(s: ListState, i: usize)
    requires
        s.wf(),
        s.max_visible matches Some(m) ==> m > 0,
    ensures
        s.selected_to(Some(i)).selected_to(Some(i)) == s.selected_to(Some(i)),
{
}

/// A click on a shown row selects the item drawn on it, and a click below the
/// last item changes nothing.
pub proof fn law_click_selects_item_on_row(s: ListState, row: usize)
    ensures
        s.scroll + row < s.len() ==> s.clicked(row).selected == Some((s.scroll + row) as usize),
        s.scroll + row >= s.len() ==> s.clicked(row) == s,
{
}

/// Appending one item makes the list one longer, with the old items unchanged
/// in front and the new item last; the selection, scroll position and settings
/// stay.
pub proof fn law_add_item_appends_one(s: ListState, item: String)
    ensures
        s.added(item).len() == s.len() + 1,
        forall|j: int| 0 <= j < s.len() ==> #[trigger] s.added(item).items[j] == s.items[j],
        s.added(item).items[s.len() as int] == item,
        s.added(item).selected == s.selected,
        s.added(item).scroll == s.scroll,
        s.added(item).max_visible == s.max_visible,
        s.added(item).show_scrollbar == s.show_scrollbar,
{
}

/// Appending several items keeps every one of them, in the order given, after
/// the old items: the list grows by exactly their number, whatever they hold
/// (an item equal to one already there is still added). The selection, scroll
/// position and settings stay.
pub proof fn law_add_items_appends_every_item_in_order(s: ListState, more: Seq<String>)
    ensures
        s.added_all(more).len() == s.len() + more.len(),
        forall|j: int| 0 <= j < s.len() ==> #[trigger] s.added_all(more).items[j] == s.items[j],
        forall|j: int| 0 <= j < more.len() ==> #[trigger] s.added_all(more).items[s.len() + j] == more[j],
        s.added_all(more).selected == s.selected,
        s.added_all(more).scroll == s.scroll,
        s.added_all(more).max_visible == s.max_visible,
        s.added_all(more).show_scrollbar == s.show_scrollbar,
{
}

/// Removing the item at an index within the list takes out exactly that item,
/// whatever is selected: the list gets one shorter, the items before it stay
/// where they were and the items after it move up by one. The first shown row
/// stays where it was while it is still before the last item of the shortened
/// list, and otherwise moves onto that last item (or the top, for an emptied
/// list); the settings stay.
pub proof fn law_remove_takes_out_exactly_that_item(s: ListState, index: usize)
    requires
        s.wf(),
        index < s.len(),
    ensures
        s.removed(index).len() == s.len() - 1,
        forall|j: int| 0 <= j < index ==> #[trigger] s.removed(index).items[j] == s.items[j],
        forall|j: int|
            index <= j < s.len() - 1 ==> #[trigger] s.removed(index).items[j] == s.items[j + 1],
        s.removed(index).scroll <= s.removed(index).len(),
        s.removed(index).scroll <= s.scroll,
        s.removed(index).scroll < s.removed(index).len() || s.removed(index).scroll == 0,
        s.scroll + 1 < s.len() ==> s.removed(index).scroll == s.scroll,
        s.scroll > 0 && s.scroll + 1 >= s.len() && s.len() >= 2 ==> s.removed(index).scroll == s.len() - 2,
        s.scroll == 0 || s.len() < 2 ==> s.removed(index).scroll == 0,
        s.removed(index).max_visible == s.max_visible,
        s.removed(index).show_scrollbar == s.show_scrollbar,
{
}

/// Removing at an index past the end leaves the list exactly as it was.
pub proof fn law_remove_past_end_changes_nothing(s: ListState, index: usize)
    requires
        index >= s.len(),
    ensures
        s.removed(index) == s,
{
}

/// Selecting an item with a row limit of `m > 0` moves the view just enough:
/// an item above the view becomes the first shown row, an item below it becomes
/// the last shown row (the first shown row is then `i - m + 1`), and an item
/// already in view leaves the view where it is. The items and settings stay.
pub proof fn law_select_scrolls_just_enough(s: ListState, i: usize, m: usize)
    requires
        s.wf(),
        i < s.len(),
        s.max_visible == Some(m),
        m > 0,
    ensures
        i < s.scroll ==> s.selected_to(Some(i)).scroll == i,
        i >= s.scroll + m ==> s.selected_to(Some(i)).scroll == i - m + 1,
        i >= s.scroll + m ==> s.selected_to(Some(i)).scroll + m - 1 == i,
        s.scroll <= i < s.scroll + m ==> s.selected_to(Some(i)).scroll == s.scroll,
        s.selected_to(Some(i)).items == s.items,
        s.selected_to(Some(i)).max_visible == s.max_visible,
        s.selected_to(Some(i)).show_scrollbar == s.show_scrollbar,
{
}

/// Selecting without a row limit, or clearing the selection, never scrolls and
/// never changes the items.
pub proof fn law_select_without_limit_does_not_scroll(s: ListState, target: Option<usize>)
    ensures
        (s.max_visible is None || target is None) ==> s.selected_to(target).scroll == s.scroll,
        s.selected_to(target).items == s.items,
        s.selected_to(None).selected is None,
{
}

/// The scrollbar is shown exactly when it is enabled and there is a row limit
/// that the items overflow; a list whose items all fit, or without a row limit,
/// shows none.
pub proof fn law_scrollbar_only_when_items_overflow(s: ListState)
    ensures
        s.shows_scrollbar() <==> (s.show_scrollbar && (s.max_visible matches Some(m) && s.len() > m)),
        s.can_scroll() <==> (s.max_visible matches Some(m) && s.len() > m),
        s.max_visible is None ==> !s.shows_scrollbar(),
        (s.max_visible matches Some(m) && s.len() <= m) ==> !s.shows_scrollbar(),
{
}

/// The box is as many rows tall as the row limit, however many items there
/// are; only without a limit is it as tall as the list.
pub proof fn law_box_rows_is_the_row_limit(s: ListState)
    ensures
        s.max_visible matches Some(m) ==> s.box_rows() == m,
        s.max_visible is None ==> s.box_rows() == s.len(),
{
}

/// The farthest scroll position is the number of items that do not fit in the
/// rows shown, and 0 when they all fit.
pub proof fn law_max_scroll_is_the_overflow(s: ListState, m: usize)
    ensures
        s.max_visible == Some(m) && s.len() > m ==> s.max_scroll() + m == s.len(),
        s.max_visible == Some(m) && s.len() <= m ==> s.max_scroll() == 0,
        s.max_visible is None ==> s.max_scroll() == 0,
{
}

/// In a well-formed list with a row limit `m`, the items drawn run from the first
/// shown row for `m` rows, or to the end of the list if that comes first.
pub proof fn law_visible_range_is_one_box_from_scroll(s: ListState, m: usize)
    requires
        s.wf(),
        s.max_visible == Some(m),
    ensures
        s.visible_start() == s.scroll,
        s.scroll + m <= s.len() ==> s.visible_end() == s.scroll + m,
        s.scroll + m > s.len() ==> s.visible_end() == s.len(),
{
}

/// A wheel step up moves the first shown row back by one (not above the top);
/// a step down moves it on by one, but not past the number of items that do not
/// fit. A list whose items all fit does not move. Nothing else changes.
pub proof fn law_wheel_moves_one_row(s: ListState, m: usize)
    requires
        s.wf(),
        s.max_visible == Some(m),
        s.len() > m,
    ensures
        s.scroll > 0 ==> s.scrolled(true).scroll == s.scroll - 1,
        s.scroll == 0 ==> s.scrolled(true).scroll == 0,
        s.scroll + 1 + m <= s.len() ==> s.scrolled(false).scroll == s.scroll + 1,
        s.scroll + 1 + m > s.len() ==> s.scrolled(false).scroll == s.len() - m,
        s.scrolled(true).items == s.items && s.scrolled(false).items == s.items,
        s.scrolled(true).selected == s.selected && s.scrolled(false).selected == s.selected,
{
}

/// The wheel does nothing to a list whose items all fit or that has no row
/// limit.
pub proof fn law_wheel_ignored_when_items_fit(s: ListState, up: bool)
    requires
        !(s.max_visible matches Some(m) && s.len() > m),
    ensures
        s.scrolled(up) == s,
{
}

/// Dragging the scrollbar of a list whose items overflow `m` rows puts the
/// first shown row at the target, or at the last full box when the target is
/// past it; without a shown scrollbar it changes nothing.
pub proof fn law_drag_goes_to_target(s: ListState, m: usize, target: usize)
    requires
        s.max_visible == Some(m),
        s.len() > m,
        s.show_scrollbar,
    ensures
        target + m <= s.len() ==> s.dragged(target).scroll == target,
        target + m > s.len() ==> s.dragged(target).scroll == s.len() - m,
        s.dragged(target).items == s.items,
        s.dragged(target).selected == s.selected,
{
}

/// Without a shown scrollbar a drag changes nothing.
pub proof fn law_drag_ignored_without_scrollbar(s: ListState, target: usize)
    requires
        !(s.show_scrollbar && (s.max_visible matches Some(m) && s.len() > m)),
    ensures
        s.dragged(target) == s,
{
}

/// Clearing keeps the row limit and the scrollbar setting.
pub proof fn law_clear_keeps_settings(s: ListState)
    ensures
        s.cleared().max_visible == s.max_visible,
        s.cleared().show_scrollbar == s.show_scrollbar,
{
}

/// Setting the row limit or the scrollbar flag changes only that setting.
pub proof fn law_settings_change_only_themselves(s: ListState, count: usize, show: bool)
    ensures
        s.limited_to(count).max_visible == Some(count),
        s.limited_to(count).items == s.items,
        s.limited_to(count).selected == s.selected,
        s.limited_to(count).scroll == s.scroll,
        s.limited_to(count).show_scrollbar == s.show_scrollbar,
        s.with_scrollbar(show).show_scrollbar == show,
        s.with_scrollbar(show).items == s.items,
        s.with_scrollbar(show).selected == s.selected,
        s.with_scrollbar(show).scroll == s.scroll,
        s.with_scrollbar(show).max_visible == s.max_visible,
{
}

/// A new list holds the given items, has nothing selected, is scrolled to the
/// top, has no row limit and has the scrollbar enabled.
pub proof fn law_new_list(items: Seq<String>)
    ensures
        ListState::initial(items).items == items,
        ListState::initial(items).selected is None,
        ListState::initial(items).scroll == 0,
        ListState::initial(items).max_visible is None,
        ListState::initial(items).show_scrollbar,
{
}

/// A click changes only the selection.
pub proof fn law_click_changes_only_selection(s: ListState, row: usize)
    ensures
        s.clicked(row).items == s.items,
        s.clicked(row).scroll == s.scroll,
        s.clicked(row).max_visible == s.max_visible,
        s.clicked(row).show_scrollbar == s.show_scrollbar,
{
}

} // verus!
