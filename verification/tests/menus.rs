use egui_component::command::{
    command_item_matches, command_row_tone, command_shows_group_column, CommandRowTone, parse_shortcut_keys as command_keys, query_has_text, resolve_selected_index,
    visible_command_items, CommandItem,
};
use egui_component::dropdown_menu::{entries_from_options, parse_shortcut_keys, DropdownMenuEntry};
use egui_component::menu_bar::{menu_trigger_open, remembered_active_menu, resolve_active_menu, settle_active_menu};
use egui_component::open_with::{
    choose_open_with_action, first_open_with_action, open_with_label, resolve_open_with_action,
    selected_open_with_entries,
};

#[test]
fn parses_and_normalizes_shortcut_segments() {
    assert_eq!(parse_shortcut_keys("Shift+Cmd+P"), vec!["⇧", "⌘", "P"]);
    assert_eq!(parse_shortcut_keys(" Ctrl + Alt + B "), vec!["⌃", "⌥", "B"]);
}

#[test]
fn drops_empty_shortcut_segments() {
    assert_eq!(parse_shortcut_keys("++Cmd++K++"), vec!["⌘", "K"]);
    assert!(parse_shortcut_keys(" +  + ").is_empty());
}

#[test]
fn dropdown_keys_keep_inner_spaces_and_fold_case() {
    assert_eq!(parse_shortcut_keys("COMMAND + Page Up"), vec!["⌘", "Page Up"]);
    assert_eq!(parse_shortcut_keys("option+shift"), vec!["⌥", "⇧"]);
    assert!(parse_shortcut_keys("").is_empty());
}

#[test]
fn command_keys_split_on_plus_and_spaces() {
    assert_eq!(command_keys("cmd+shift P"), vec!["Cmd", "Shift", "P"]);
    assert_eq!(command_keys("  Control +  Option  "), vec!["Ctrl", "Alt"]);
    assert_eq!(command_keys("Page\tUp"), vec!["Page", "Up"]);
    assert!(command_keys(" + ").is_empty());
}

#[test]
fn command_items_match_group_and_label() {
    let item = CommandItem::new("Files", "Open Recent").shortcut("Cmd+R");
    assert!(command_item_matches(item, ""));
    assert!(command_item_matches(item, "files open"));
    assert!(command_item_matches(item, "recent"));
    assert!(!command_item_matches(item, "Recent"));
    assert!(!command_item_matches(item, "close"));
    let items = [item, CommandItem::new("Edit", "Undo"), CommandItem::new("", "Recent colors")];
    let shown = visible_command_items(&items, "RECENT");
    assert_eq!(shown.iter().map(|i| i.label).collect::<Vec<_>>(), vec!["Open Recent", "Recent colors"]);
}

#[test]
fn command_highlight_moves_with_arrow_keys() {
    assert_eq!(resolve_selected_index(None, true, true, 3, true, false), Some(0));
    assert_eq!(resolve_selected_index(Some(0), true, true, 3, true, false), Some(1));
    assert_eq!(resolve_selected_index(Some(2), true, true, 3, true, false), Some(2));
    assert_eq!(resolve_selected_index(Some(2), true, true, 3, false, true), Some(1));
    assert_eq!(resolve_selected_index(Some(0), true, true, 3, false, true), Some(0));
    assert_eq!(resolve_selected_index(Some(9), true, true, 3, false, false), Some(2));
    assert_eq!(resolve_selected_index(Some(1), false, true, 3, true, false), None);
    assert_eq!(resolve_selected_index(Some(1), true, false, 3, true, false), None);
    assert_eq!(resolve_selected_index(Some(1), true, true, 0, true, false), None);
    assert!(query_has_text(" a "));
    assert!(!query_has_text(" \t "));
}

#[test]
fn hovering_new_trigger_switches_open_menu() {
    let openable = [true, true, false];

    assert_eq!(resolve_active_menu(Some(0), None, Some(1), &openable), Some(1));
    assert_eq!(resolve_active_menu(Some(0), None, Some(2), &openable), Some(0));
    assert_eq!(resolve_active_menu(Some(0), Some(0), None, &openable), None);
    assert_eq!(resolve_active_menu(None, Some(1), None, &openable), Some(1));
}

#[test]
fn closed_menu_bar_ignores_hover_and_unopenable_clicks() {
    let openable = [true, false];
    assert_eq!(resolve_active_menu(None, None, Some(0), &openable), None);
    assert_eq!(resolve_active_menu(Some(0), Some(1), None, &openable), Some(0));
    assert_eq!(resolve_active_menu(Some(0), Some(5), Some(7), &openable), Some(0));
    assert_eq!(remembered_active_menu(Some(3), 2), None);
    assert_eq!(remembered_active_menu(Some(1), 2), Some(1));
}

#[test]
fn open_with_resolves_selected_or_first_action() {
    let entries = [
        DropdownMenuEntry::separator(),
        DropdownMenuEntry::action_with_icon(4, "Codex", "codex"),
        DropdownMenuEntry::action(7, "Editor"),
    ];
    assert_eq!(first_open_with_action(&entries).map(|a| a.id), Some(4));
    assert_eq!(resolve_open_with_action(&entries, Some(7)).map(|a| a.label), Some("Editor"));
    assert_eq!(resolve_open_with_action(&entries, Some(9)).map(|a| a.id), Some(4));
    assert_eq!(resolve_open_with_action(&entries, None).map(|a| a.icon), Some(Some("codex")));
    let marked = selected_open_with_entries(&entries, Some(7));
    let flags = marked
        .iter()
        .map(|entry| match entry {
            DropdownMenuEntry::Action(action) => Some(action.selected),
            _ => None,
        })
        .collect::<Vec<_>>();
    assert_eq!(flags, vec![None, Some(false), Some(true)]);
    assert!(first_open_with_action(&[DropdownMenuEntry::separator()]).is_none());
}

#[test]
fn plain_options_become_numbered_actions() {
    let entries = entries_from_options(&["One", "Two"]);
    assert_eq!(entries.len(), 2);
    match entries[1] {
        DropdownMenuEntry::Action(action) => {
            assert_eq!(action.id, 1);
            assert_eq!(action.label, "Two");
        }
        _ => panic!("expected an action"),
    }
}

#[test]
fn group_column_shows_only_when_a_command_has_a_group() {
    let grouped = [CommandItem::new("", "Open"), CommandItem::new("File", "Save")];
    let plain = [CommandItem::new("", "Open"), CommandItem::new("", "Save")];
    assert!(command_shows_group_column(&grouped));
    assert!(!command_shows_group_column(&plain));
    assert!(!command_shows_group_column(&[]));
}

#[test]
fn command_row_tone_prefers_keyboard_highlight() {
    assert_eq!(command_row_tone(true, true, true), CommandRowTone::Selected);
    assert_eq!(command_row_tone(false, true, false), CommandRowTone::Emphasized);
    assert_eq!(command_row_tone(false, false, true), CommandRowTone::Emphasized);
    assert_eq!(command_row_tone(false, false, false), CommandRowTone::Normal);
}

#[test]
fn open_menu_closes_on_action_escape_or_popup_close() {
    assert_eq!(settle_active_menu(Some(1), true, true, false, false), Some(1));
    assert_eq!(settle_active_menu(Some(1), true, true, true, false), None);
    assert_eq!(settle_active_menu(Some(1), true, false, false, false), None);
    assert_eq!(settle_active_menu(Some(1), false, true, false, false), None);
    assert_eq!(settle_active_menu(Some(1), true, true, false, true), None);
    assert_eq!(settle_active_menu(None, false, false, false, false), None);
}

#[test]
fn only_an_openable_active_trigger_shows_open() {
    let openable = [true, false];
    assert!(menu_trigger_open(Some(0), 0, &openable));
    assert!(!menu_trigger_open(Some(0), 1, &openable));
    assert!(!menu_trigger_open(Some(1), 1, &openable));
    assert!(!menu_trigger_open(None, 0, &openable));
}

#[test]
fn open_with_label_names_the_running_action() {
    let entries = [
        DropdownMenuEntry::separator(),
        DropdownMenuEntry::action(4, "Preview"),
        DropdownMenuEntry::action(7, "Editor"),
    ];
    assert_eq!(open_with_label(&entries, Some(7), "Open"), "Editor");
    assert_eq!(open_with_label(&entries, Some(9), "Open"), "Preview");
    assert_eq!(open_with_label(&entries, None, "Open"), "Preview");
    assert_eq!(open_with_label(&[], Some(7), "Open"), "Open");
}

#[test]
fn choosing_an_open_with_action_reports_a_change_once() {
    let mut selected = None;
    assert!(choose_open_with_action(&mut selected, 4));
    assert_eq!(selected, Some(4));
    assert!(!choose_open_with_action(&mut selected, 4));
    assert!(choose_open_with_action(&mut selected, 7));
    assert_eq!(selected, Some(7));
}
