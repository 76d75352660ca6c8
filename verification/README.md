# listview

A scrollable list with a single selection. The library (`src/`) holds the
list's state — the items, the selected index, the first shown row, how many
rows the box shows and whether a scrollbar is enabled — and every rule that
changes it: adding and removing items, selecting (and scrolling the selection
into view), wheel steps, scrollbar drags and row clicks, and the range of items
that is drawn. Each operation is proved against a transition of the abstract
state `ListState`, and `src/laws.rs` proves the properties that span several
operations (the selection always names an item, the drawn range stays within
the items, a selected item comes into view, removing undoes adding, ...).

`app/` is the macroquad widget around it: position, sizes, colours, font,
text measurement, drawing and pointer input, all in floating point.
