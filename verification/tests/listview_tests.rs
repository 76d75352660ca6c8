use listview::ListView;

fn strings(names: &[&str]) -> Vec<String> {
    names.iter().map(|s| s.to_string()).collect()
}

fn texts(list: &ListView) -> Vec<String> {
    list.items().clone()
}

#[test]
fn new_copies_items_with_defaults() {
    let items = strings(&["Item 1", "Item 2"]);
    let list = ListView::new(&items);
    assert_eq!(texts(&list), items);
    assert_eq!(list.selected_index(), None);
    assert_eq!(list.selected_item(), None);
    assert_eq!(list.scroll_offset(), 0);
    assert_eq!(list.max_visible_items(), None);
    assert!(list.scrollbar_enabled());
    assert_eq!(list.visible_range(), (0, 2));
    assert_eq!(list.box_rows(), 2);
}

#[test]
fn add_item_appends_at_bottom() {
    let mut list = ListView::new(&strings(&["a"]));
    list.add_item("b".to_string());
    assert_eq!(texts(&list), strings(&["a", "b"]));
    assert_eq!(list.len(), 2);
}

#[test]
fn add_items_appends_in_order() {
    let mut list = ListView::new(&strings(&["a"]));
    list.add_items(&strings(&["b", "c"]));
    assert_eq!(texts(&list), strings(&["a", "b", "c"]));
}

#[test]
fn clear_resets_everything_but_settings() {
    let mut list = ListView::new(&strings(&["a", "b", "c", "d"]));
    list.with_max_visible_items(2);
    list.select_item(Some(3));
    assert_eq!(list.scroll_offset(), 2);
    list.clear();
    assert_eq!(list.len(), 0);
    assert_eq!(list.selected_index(), None);
    assert_eq!(list.scroll_offset(), 0);
    assert_eq!(list.max_visible_items(), Some(2));
    assert_eq!(list.visible_range(), (0, 0));
}

#[test]
fn select_item_selects_and_selected_item_returns_it() {
    let mut list = ListView::new(&strings(&["a", "b", "c"]));
    list.select_item(Some(1));
    assert_eq!(list.selected_item(), Some(&"b".to_string()));
    list.select_item(None);
    assert_eq!(list.selected_item(), None);
}

#[test]
fn select_item_past_end_is_ignored() {
    let mut list = ListView::new(&strings(&["a", "b"]));
    list.select_item(Some(0));
    list.select_item(Some(2));
    assert_eq!(list.selected_index(), Some(0));
}

#[test]
fn select_item_scrolls_down_into_view() {
    let mut list = ListView::new(&strings(&["a", "b", "c", "d", "e"]));
    list.with_max_visible_items(3);
    list.select_item(Some(4));
    assert_eq!(list.scroll_offset(), 2);
    assert_eq!(list.visible_range(), (2, 5));
}

#[test]
fn select_item_scrolls_up_into_view() {
    let mut list = ListView::new(&strings(&["a", "b", "c", "d", "e"]));
    list.with_max_visible_items(2);
    list.select_item(Some(4));
    assert_eq!(list.scroll_offset(), 3);
    list.select_item(Some(1));
    assert_eq!(list.scroll_offset(), 1);
    list.select_item(Some(2));
    assert_eq!(list.scroll_offset(), 1);
}

#[test]
fn select_item_without_row_limit_does_not_scroll() {
    let mut list = ListView::new(&strings(&["a", "b", "c"]));
    list.select_item(Some(2));
    assert_eq!(list.scroll_offset(), 0);
}

#[test]
fn remove_item_before_selection_shifts_it() {
    let mut list = ListView::new(&strings(&["a", "b", "c", "d"]));
    list.select_item(Some(2));
    list.remove_item(0);
    assert_eq!(texts(&list), strings(&["b", "c", "d"]));
    assert_eq!(list.selected_item(), Some(&"c".to_string()));
}

#[test]
fn remove_item_after_selection_keeps_it() {
    let mut list = ListView::new(&strings(&["a", "b", "c"]));
    list.select_item(Some(0));
    list.remove_item(2);
    assert_eq!(list.selected_index(), Some(0));
}

#[test]
fn remove_selected_item_clears_selection() {
    let mut list = ListView::new(&strings(&["a", "b", "c"]));
    list.select_item(Some(1));
    list.remove_item(1);
    assert_eq!(list.selected_index(), None);
}

#[test]
fn remove_before_last_selected_item_moves_selection_up() {
    let mut list = ListView::new(&strings(&["a", "b", "c"]));
    list.select_item(Some(2));
    list.remove_item(0);
    assert_eq!(texts(&list), strings(&["b", "c"]));
    assert_eq!(list.selected_index(), Some(1));
    assert_eq!(list.selected_item(), Some(&"c".to_string()));
}

#[test]
fn is_selected_names_only_the_selection() {
    let mut list = ListView::new(&strings(&["a", "b", "c"]));
    assert!(!list.is_selected(0));
    list.select_item(Some(1));
    assert!(list.is_selected(1));
    assert!(!list.is_selected(0));
    assert!(!list.is_selected(2));
}

#[test]
fn select_twice_same_as_once() {
    let mut list = ListView::new(&strings(&["a", "b", "c", "d"]));
    list.with_max_visible_items(2);
    list.select_item(Some(3));
    let once = (list.selected_index(), list.scroll_offset());
    list.select_item(Some(3));
    assert_eq!((list.selected_index(), list.scroll_offset()), once);
}

#[test]
fn remove_item_past_end_changes_nothing() {
    let mut list = ListView::new(&strings(&["a", "b"]));
    list.select_item(Some(1));
    list.remove_item(5);
    assert_eq!(texts(&list), strings(&["a", "b"]));
    assert_eq!(list.selected_index(), Some(1));
}

#[test]
fn remove_item_pulls_scroll_back() {
    let mut list = ListView::new(&strings(&["a", "b", "c", "d"]));
    list.with_max_visible_items(1);
    list.select_item(Some(3));
    assert_eq!(list.scroll_offset(), 3);
    list.remove_item(3);
    assert_eq!(list.scroll_offset(), 2);
    list.clear();
    list.add_item("x".to_string());
    list.remove_item(0);
    assert_eq!(list.scroll_offset(), 0);
}

#[test]
fn remove_undoes_add() {
    let mut list = ListView::new(&strings(&["a", "b", "c"]));
    list.with_max_visible_items(2);
    list.select_item(Some(2));
    let before_items = texts(&list);
    let before = (list.selected_index(), list.scroll_offset());
    list.add_item("z".to_string());
    list.remove_item(3);
    assert_eq!(texts(&list), before_items);
    assert_eq!((list.selected_index(), list.scroll_offset()), before);
}

#[test]
fn wheel_scrolls_within_range() {
    let mut list = ListView::new(&strings(&["a", "b", "c", "d", "e"]));
    list.with_max_visible_items(3);
    assert!(list.can_scroll());
    assert_eq!(list.max_scroll_offset(), 2);
    list.scroll_by_wheel(true);
    assert_eq!(list.scroll_offset(), 0);
    list.scroll_by_wheel(false);
    assert_eq!(list.scroll_offset(), 1);
    list.scroll_by_wheel(false);
    list.scroll_by_wheel(false);
    assert_eq!(list.scroll_offset(), 2);
    list.scroll_by_wheel(true);
    assert_eq!(list.scroll_offset(), 1);
}

#[test]
fn wheel_does_nothing_when_items_fit() {
    let mut list = ListView::new(&strings(&["a", "b"]));
    list.with_max_visible_items(2);
    assert!(!list.can_scroll());
    list.scroll_by_wheel(false);
    assert_eq!(list.scroll_offset(), 0);
    let mut unlimited = ListView::new(&strings(&["a", "b"]));
    unlimited.scroll_by_wheel(false);
    assert_eq!(unlimited.scroll_offset(), 0);
}

#[test]
fn wheel_steps_undo_each_other() {
    let mut list = ListView::new(&strings(&["a", "b", "c", "d", "e", "f"]));
    list.with_max_visible_items(2);
    list.scroll_by_wheel(false);
    list.scroll_by_wheel(false);
    assert_eq!(list.scroll_offset(), 2);
    list.scroll_by_wheel(false);
    list.scroll_by_wheel(true);
    assert_eq!(list.scroll_offset(), 2);
    list.scroll_by_wheel(true);
    list.scroll_by_wheel(false);
    assert_eq!(list.scroll_offset(), 2);
}

#[test]
fn drag_scrollbar_clamps_to_max() {
    let mut list = ListView::new(&strings(&["a", "b", "c", "d", "e"]));
    list.with_max_visible_items(2);
    assert!(list.shows_scrollbar());
    list.drag_scrollbar(2);
    assert_eq!(list.scroll_offset(), 2);
    list.drag_scrollbar(100);
    assert_eq!(list.scroll_offset(), 3);
}

#[test]
fn drag_scrollbar_ignored_without_scrollbar() {
    let mut list = ListView::new(&strings(&["a", "b", "c", "d", "e"]));
    list.with_max_visible_items(2).with_scrollbar_settings(false);
    assert!(!list.shows_scrollbar());
    list.drag_scrollbar(2);
    assert_eq!(list.scroll_offset(), 0);
}

#[test]
fn click_row_selects_shown_item() {
    let mut list = ListView::new(&strings(&["a", "b", "c", "d", "e"]));
    list.with_max_visible_items(2);
    list.scroll_by_wheel(false);
    list.click_row(1);
    assert_eq!(list.selected_item(), Some(&"c".to_string()));
    list.click_row(10);
    assert_eq!(list.selected_index(), Some(2));
    list.click_row(usize::MAX);
    assert_eq!(list.selected_index(), Some(2));
}

#[test]
fn visible_range_and_box_rows() {
    let mut list = ListView::new(&strings(&["a", "b", "c"]));
    list.with_max_visible_items(5);
    assert_eq!(list.box_rows(), 5);
    assert_eq!(list.visible_range(), (0, 3));
    list.with_max_visible_items(2);
    list.select_item(Some(2));
    assert_eq!(list.visible_range(), (1, 3));
}

#[test]
fn zero_rows_shown_selects_past_view() {
    let mut list = ListView::new(&strings(&["a", "b"]));
    list.with_max_visible_items(0);
    list.select_item(Some(1));
    assert_eq!(list.scroll_offset(), 2);
    assert_eq!(list.visible_range(), (2, 2));
}

#[test]
fn builders_chain() {
    let mut list = ListView::new(&strings(&["a", "b", "c"]));
    list.with_max_visible_items(1).with_scrollbar_settings(false);
    assert_eq!(list.max_visible_items(), Some(1));
    assert!(!list.scrollbar_enabled());
    assert!(list.can_scroll());
    assert!(!list.shows_scrollbar());
}

#[test]
fn drawn_rows_follow_scroll_and_selection() {
    let mut list = ListView::new(&strings(&["a", "b", "c", "d", "e"]));
    list.with_max_visible_items(2);
    list.select_item(Some(3));
    assert_eq!(list.drawn_rows(), vec![(2, false), (3, true)]);
}

#[test]
fn no_row_limit_draws_every_item() {
    let mut list = ListView::new(&strings(&["a", "b", "c"]));
    list.select_item(Some(2));
    list.remove_item(0);
    assert_eq!(list.visible_range(), (0, 2));
    assert_eq!(list.drawn_rows(), vec![(0, false), (1, true)]);
}
