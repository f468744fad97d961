# egui_component

The decision logic of a set of egui widgets, written in Verus and proved
against its contracts: what a widget selects, opens, moves or shows in answer
to a click, a key or a drop, while egui draws it.

## Layout

- `src/` — the verified library, one module per widget family:
  - `hierarchy` — the layer tree: lookup, drag-and-drop moves, the selected
    range and how each row is drawn. Laws: a successful move keeps every id
    and places the node under its new parent; a refused move (ids unique)
    changes nothing.
  - `combobox` — the multi-selection kept sorted, toggled and summarised.
  - `command`, `dropdown_menu`, `menu_bar`, `open_with` — command palette
    filtering and keyboard highlight, shortcut key parsing, the open menu of a
    menu bar, and the split "open with" button.
  - `pagination`, `button_group`, `tabs` — page lists with ellipses, segment
    rounding and clicks, selection clamping.
  - `drag_board`, `emoji_selector`, `canva`, `collab_cursor`, `toast` — card
    drops between two columns, the emoji table and picker state, the anchor
    grid, the cursor image of a colour, and the toast stack over time.
  - `catalog` — the component catalog and its id parser.
  - `text` — character and string helpers with their meaning stated over
    sequences of characters.
  - the remaining modules hold the small option types of the other widgets.
- `tests/` — tests of the library on concrete values.
- `app/` — the egui side: serializable copies of the library's enums, and glue
  that reads egui's input, asks the library, and draws.
