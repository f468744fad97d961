use egui_component::button_group::{button_group_clicked_index, button_group_segment_corners};
use egui_component::common::CornerRadii;
use egui_component::hierarchy::{
    apply_hierarchy_row_click, clear_selection_on_background_click, hierarchy_row_corner_radius,
    hierarchy_row_look, pending_move_for_list_end, selection_range, HierarchyItemKind,
    HierarchyNode, HierarchyRowFill, PendingMove,
};
use egui_component::sidebar::{sidebar_corner_radius, SidebarSide};
use egui_component::tabs::{blender_topbar_corner_radius, clamp_to_last};

const RADIUS_SM: u8 = 4;

#[test]
fn hovered_hierarchy_rows_use_uniform_corner_radius() {
    let radius = hierarchy_row_corner_radius(RADIUS_SM, true, false, false);
    let expected = RADIUS_SM;

    assert_eq!(radius.nw, expected);
    assert_eq!(radius.ne, expected);
    assert_eq!(radius.sw, expected);
    assert_eq!(radius.se, expected);
}

#[test]
fn selected_hierarchy_ranges_only_round_exposed_edges() {
    let radius = hierarchy_row_corner_radius(RADIUS_SM, false, true, false);
    let expected = RADIUS_SM;

    assert_eq!(radius.nw, expected);
    assert_eq!(radius.ne, expected);
    assert_eq!(radius.sw, 0);
    assert_eq!(radius.se, 0);
}

#[test]
fn blender_topbar_tabs_only_round_top_corners() {
    let selected = blender_topbar_corner_radius(true);
    let idle = blender_topbar_corner_radius(false);

    assert_eq!(selected.sw, 0);
    assert_eq!(selected.se, 0);
    assert_eq!(idle.sw, 0);
    assert_eq!(idle.se, 0);
    assert!(selected.nw > idle.nw);
    assert!(selected.ne > idle.ne);
}

#[test]
fn unselected_rows_have_square_corners() {
    assert_eq!(hierarchy_row_corner_radius(6, false, false, false), CornerRadii::zero());
    assert_eq!(
        hierarchy_row_corner_radius(6, false, true, true),
        CornerRadii::same(6)
    );
    assert_eq!(
        hierarchy_row_corner_radius(6, false, false, true),
        CornerRadii { nw: 0, ne: 0, sw: 6, se: 6 }
    );
}

#[test]
fn sidebar_rounds_only_the_inner_corners() {
    assert_eq!(
        sidebar_corner_radius(SidebarSide::Left, 8),
        CornerRadii { nw: 0, ne: 8, sw: 0, se: 8 }
    );
    assert_eq!(
        sidebar_corner_radius(SidebarSide::Right, 8),
        CornerRadii { nw: 8, ne: 0, sw: 8, se: 0 }
    );
}

fn tree() -> Vec<HierarchyNode<'static>> {
    vec![
        HierarchyNode::new(1, "Folder", HierarchyItemKind::Folder)
            .expanded(true)
            .children(vec![
                HierarchyNode::new(2, "A", HierarchyItemKind::Frame),
                HierarchyNode::new(3, "B", HierarchyItemKind::Frame),
            ]),
        HierarchyNode::new(4, "C", HierarchyItemKind::Frame),
    ]
}

#[test]
fn row_look_follows_the_selected_range() {
    let nodes = tree();
    let range = selection_range(&nodes, Some(1)).expect("visible selection");

    let first = hierarchy_row_look(1, Some(1), Some(&range), false, 4);
    assert!(first.selected && first.in_range && first.round_top && !first.round_bottom);
    assert_eq!(first.fill, HierarchyRowFill::Selected);
    assert_eq!(first.corners, CornerRadii { nw: 4, ne: 4, sw: 0, se: 0 });

    let last = hierarchy_row_look(3, Some(1), Some(&range), true, 4);
    assert!(!last.selected && last.in_range && !last.round_top && last.round_bottom);
    assert_eq!(last.fill, HierarchyRowFill::InRange);
    assert_eq!(last.corners, CornerRadii { nw: 0, ne: 0, sw: 4, se: 4 });

    let middle = hierarchy_row_look(2, Some(1), Some(&range), false, 4);
    assert_eq!(middle.fill, HierarchyRowFill::InRange);
    assert_eq!(middle.corners, CornerRadii::zero());

    let outside = hierarchy_row_look(4, Some(1), Some(&range), true, 4);
    assert!(!outside.in_range);
    assert_eq!(outside.fill, HierarchyRowFill::Hovered);
    assert_eq!(outside.corners, CornerRadii::same(4));

    let idle = hierarchy_row_look(4, None, None, false, 4);
    assert_eq!(idle.fill, HierarchyRowFill::Clear);
    assert_eq!(idle.corners, CornerRadii::zero());
}

#[test]
fn row_clicks_fold_lock_and_select() {
    let mut node = HierarchyNode::new(7, "Row", HierarchyItemKind::Group);
    let mut selected = Some(1);

    assert!(node.expanded);
    assert!(apply_hierarchy_row_click(&mut node, &mut selected, true, true, true));
    assert!(!node.expanded);
    assert!(!node.locked);
    assert_eq!(selected, Some(1));

    assert!(apply_hierarchy_row_click(&mut node, &mut selected, false, true, true));
    assert!(node.locked);
    assert_eq!(selected, Some(1));

    assert!(apply_hierarchy_row_click(&mut node, &mut selected, false, false, true));
    assert_eq!(selected, Some(7));

    assert!(!apply_hierarchy_row_click(&mut node, &mut selected, false, false, true));
    assert!(!apply_hierarchy_row_click(&mut node, &mut selected, false, false, false));
    assert_eq!(selected, Some(7));
    assert!(!node.expanded && node.locked);
}

#[test]
fn background_click_clears_the_selection() {
    let mut selected = Some(3);
    assert!(!clear_selection_on_background_click(&mut selected, true, true, true));
    assert_eq!(selected, Some(3));
    assert!(!clear_selection_on_background_click(&mut selected, true, false, false));
    assert_eq!(selected, Some(3));
    assert!(clear_selection_on_background_click(&mut selected, true, false, true));
    assert_eq!(selected, None);
    assert!(!clear_selection_on_background_click(&mut selected, true, false, true));
}

#[test]
fn dropping_below_a_list_appends_to_it() {
    assert_eq!(
        pending_move_for_list_end(9, Some(1), 2),
        PendingMove { node_id: 9, target_parent_id: Some(1), target_index: 2, expand_target_id: None }
    );
}

#[test]
fn empty_button_group_has_no_action() {
    let clicked = button_group_clicked_index(&[]);

    assert_eq!(clicked, None);
}

#[test]
fn button_group_returns_clicked_action_index() {
    let clicked = button_group_clicked_index(&[false, true, false]);

    assert_eq!(clicked, Some(1));
}

#[test]
fn button_group_segments_round_only_outer_corners() {
    assert_eq!(button_group_segment_corners(1, 0, 6), CornerRadii::same(6));
    assert_eq!(button_group_segment_corners(3, 0, 6), CornerRadii { nw: 6, ne: 0, sw: 6, se: 0 });
    assert_eq!(button_group_segment_corners(3, 1, 6), CornerRadii::zero());
    assert_eq!(button_group_segment_corners(3, 2, 6), CornerRadii { nw: 0, ne: 6, sw: 0, se: 6 });
}

#[test]
fn icon_toolbar_clamps_selection_to_last_item() {
    let items = ["mouse-pointer-2", "move", "rotate-ccw"];
    let selected = clamp_to_last(99, items.len());

    assert_eq!(selected, items.len() - 1);
}

#[test]
fn rail_tabs_clamp_current_to_last_visible_option() {
    let options = ["World", "Assets"];
    let current = clamp_to_last(99, options.len());

    assert_eq!(current, options.len() - 1);
}
