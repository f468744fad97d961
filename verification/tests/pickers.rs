use egui_component::canva::{grid_position, point_from_grid, CanvaNinePoint};
use egui_component::combobox::{
    combobox_option_visible, is_selected, sanitize_selected_indices, selection_summary, toggle_selected_index,
};
use egui_component::emoji_selector::{
    category_tabs, choose_emoji, emoji_cell_selected, emoji_entries, emoji_entry_matches, emoji_trigger_text,
    filtered_entries, select_emoji_category, settle_emoji_selector, EmojiCategory, EmojiSelectorState,
};
use egui_component::pagination::{
    apply_pagination_click, clamp_current_page, pagination_items, shows_next, shows_previous, PaginationClick,
    PaginationItem,
};

#[test]
fn query_matches_labels_aliases_and_direct_emoji() {
    let people = filtered_entries("laugh", EmojiCategory::People);
    assert!(people.iter().any(|entry| entry.emoji == "😂"));

    let symbols = filtered_entries("notification", EmojiCategory::Symbols);
    assert!(symbols.iter().any(|entry| entry.emoji == "🔔"));

    let direct = filtered_entries("🍕", EmojiCategory::Food);
    assert!(direct.iter().any(|entry| entry.emoji == "🍕"));
}

#[test]
fn category_filter_limits_results() {
    let people = filtered_entries("", EmojiCategory::People);
    assert!(people.iter().all(|entry| entry.category == EmojiCategory::People));
    assert!(people.iter().any(|entry| entry.emoji == "🙂"));
    assert!(!people.iter().any(|entry| entry.emoji == "🍕"));
}

#[test]
fn emoji_query_is_trimmed_and_case_folded() {
    let all = filtered_entries("", EmojiCategory::All);
    assert_eq!(all.len(), emoji_entries().len());
    let pizza = filtered_entries("  PIZZA ", EmojiCategory::All);
    assert!(pizza.iter().any(|entry| entry.emoji == "🍕"));
    assert!(filtered_entries("zzzz-no-such", EmojiCategory::All).is_empty());
    let entry = emoji_entries()[0];
    assert!(emoji_entry_matches(&entry, "grinning"));
    assert!(emoji_entry_matches(&entry, "happy"));
    assert!(!emoji_entry_matches(&entry, "sad"));
}

#[test]
fn grid_mapping_covers_bottom_right() {
    assert_eq!(point_from_grid(2, 2), CanvaNinePoint::BottomRight);
}

#[test]
fn grid_positions_round_trip() {
    assert_eq!(point_from_grid(0, 1), CanvaNinePoint::TopCenter);
    assert_eq!(point_from_grid(7, 0), CanvaNinePoint::BottomLeft);
    assert_eq!(grid_position(CanvaNinePoint::MiddleRight), (1, 2));
    for row in 0..3 {
        for col in 0..3 {
            assert_eq!(grid_position(point_from_grid(row, col)), (row, col));
        }
    }
}

#[test]
fn pagination_items_insert_ellipsis_around_middle_window() {
    assert_eq!(
        pagination_items(5, 10, 1),
        vec![
            PaginationItem::Page(1),
            PaginationItem::Ellipsis,
            PaginationItem::Page(4),
            PaginationItem::Page(5),
            PaginationItem::Page(6),
            PaginationItem::Ellipsis,
            PaginationItem::Page(10),
        ]
    );
}

#[test]
fn pagination_items_use_a_smaller_edge_window_by_default() {
    assert_eq!(
        pagination_items(2, 12, 1),
        vec![
            PaginationItem::Page(1),
            PaginationItem::Page(2),
            PaginationItem::Page(3),
            PaginationItem::Page(4),
            PaginationItem::Ellipsis,
            PaginationItem::Page(12),
        ]
    );
}

#[test]
fn pagination_edges_and_small_counts() {
    assert!(pagination_items(1, 0, 1).is_empty());
    assert_eq!(
        pagination_items(3, 4, 1),
        vec![PaginationItem::Page(1), PaginationItem::Page(2), PaginationItem::Page(3), PaginationItem::Page(4)]
    );
    assert_eq!(
        pagination_items(99, 12, 1),
        vec![
            PaginationItem::Page(1),
            PaginationItem::Ellipsis,
            PaginationItem::Page(9),
            PaginationItem::Page(10),
            PaginationItem::Page(11),
            PaginationItem::Page(12),
        ]
    );
    assert_eq!(pagination_items(0, 3, usize::MAX).len(), 3);
    assert_eq!(clamp_current_page(99, 5), 5);
    assert_eq!(clamp_current_page(0, 5), 1);
    assert_eq!(clamp_current_page(0, 0), 0);
}

#[test]
fn sanitized_selection_is_sorted_and_bounded() {
    let mut selected = vec![5, 1, 3, 1, 9, 0];
    sanitize_selected_indices(&mut selected, 6);
    assert_eq!(selected, vec![0, 1, 3, 5]);
    assert!(is_selected(&selected, 3));
    assert!(!is_selected(&selected, 4));
}

#[test]
fn toggling_twice_restores_the_selection() {
    let mut selected = vec![1, 4];
    assert!(toggle_selected_index(&mut selected, 2));
    assert_eq!(selected, vec![1, 2, 4]);
    assert!(toggle_selected_index(&mut selected, 2));
    assert_eq!(selected, vec![1, 4]);
    assert!(toggle_selected_index(&mut selected, 4));
    assert_eq!(selected, vec![1]);
}

#[test]
fn summary_names_count_or_option() {
    let options = ["Apple", "Banana", "Cherry"];
    assert_eq!(selection_summary(&[], &options, "Pick"), "Pick");
    assert_eq!(selection_summary(&[1], &options, "Pick"), "Banana");
    assert_eq!(selection_summary(&[7], &options, "Pick"), "Pick");
    assert_eq!(selection_summary(&[0, 2], &options, "Pick"), "2 selected");
    let many: Vec<usize> = (0..12).collect();
    assert_eq!(selection_summary(&many, &options, "Pick"), "12 selected");
}

#[test]
fn combobox_filter_ignores_ascii_case() {
    assert!(combobox_option_visible("Banana", "NAN", true));
    assert!(!combobox_option_visible("Banana", "kiwi", true));
    assert!(combobox_option_visible("Banana", "kiwi", false));
    assert!(combobox_option_visible("Banana", "", true));
}

#[test]
fn pagination_clamps_current_page_to_last_page() {
    let mut current_page = 99;
    current_page = clamp_current_page(current_page, 5);

    assert_eq!(current_page, 5);
}

#[test]
fn first_page_hides_previous_button() {
    let current_page = clamp_current_page(1, 8);

    assert!(!shows_previous(current_page));
    assert!(shows_next(current_page, 8));
}

#[test]
fn last_page_hides_next_button() {
    let current_page = clamp_current_page(8, 8);
    assert!(shows_previous(current_page));
    assert!(!shows_next(current_page, 8));
}

#[test]
fn pagination_clicks_step_and_jump() {
    assert_eq!(apply_pagination_click(3, 8, PaginationClick::Previous), 2);
    assert_eq!(apply_pagination_click(3, 8, PaginationClick::Next), 4);
    assert_eq!(apply_pagination_click(3, 8, PaginationClick::Page(7)), 7);
    assert_eq!(apply_pagination_click(1, 8, PaginationClick::Previous), 1);
    assert_eq!(apply_pagination_click(8, 8, PaginationClick::Next), 8);
}

#[test]
fn category_bar_lists_every_category_once() {
    let tabs = category_tabs();
    assert_eq!(tabs.len(), 9);
    assert_eq!(tabs[0].category, EmojiCategory::All);
    assert_eq!(tabs[0].icon, "grid-2x2");
    assert_eq!(tabs[8].category, EmojiCategory::Flags);
    assert_eq!(tabs[8].icon, "flag");
    for (i, a) in tabs.iter().enumerate() {
        for b in tabs.iter().skip(i + 1) {
            assert_ne!(a.category, b.category);
        }
    }
}

#[test]
fn choosing_an_emoji_closes_the_panel_and_clears_the_search() {
    let mut value = String::new();
    let mut state = EmojiSelectorState::default();
    assert_eq!(emoji_trigger_text(&value, "Pick"), "Pick");

    state.open = true;
    state.query.push_str("pizza");
    select_emoji_category(&mut state, EmojiCategory::Food);
    choose_emoji(&mut value, &mut state, "🍕");

    assert_eq!(value, "🍕");
    assert!(!state.open);
    assert!(state.query.is_empty());
    assert_eq!(state.category, EmojiCategory::Food);
    assert_eq!(emoji_trigger_text(&value, "Pick"), "🍕");
    let pizza = emoji_entries().into_iter().find(|e| e.emoji == "🍕").expect("pizza in table");
    assert!(emoji_cell_selected(&value, &pizza));
}

#[test]
fn closing_the_panel_forgets_the_search() {
    let mut state = EmojiSelectorState { open: true, query: String::from("cat"), category: EmojiCategory::Nature };
    settle_emoji_selector(&mut state, true);
    assert_eq!(state.query, "cat");
    settle_emoji_selector(&mut state, false);
    assert!(!state.open);
    assert!(state.query.is_empty());
    assert_eq!(state.category, EmojiCategory::Nature);
}
