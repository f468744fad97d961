use egui_component::hierarchy::{
    apply_pending_move, find_hierarchy_node, hierarchy_node_contains, move_hierarchy_node,
    pending_move_for_drop, selection_range, take_hierarchy_node, HierarchyDropPlacement,
    HierarchyIconStyle, HierarchyItemIcon, HierarchyItemKind, HierarchyNode, PendingMove,
};

fn ids(nodes: &[HierarchyNode<'_>]) -> Vec<usize> {
    nodes.iter().map(|node| node.id).collect()
}

#[test]
fn move_hierarchy_node_within_same_parent_reorders_siblings() {
    let mut nodes = vec![
        HierarchyNode::new(1, "A", HierarchyItemKind::Frame),
        HierarchyNode::new(2, "B", HierarchyItemKind::Frame),
        HierarchyNode::new(3, "C", HierarchyItemKind::Frame),
    ];

    assert!(move_hierarchy_node(&mut nodes, 1, None, 3, None));
    assert_eq!(nodes.iter().map(|node| node.id).collect::<Vec<_>>(), vec![2, 3, 1]);
}

#[test]
fn move_hierarchy_node_ignores_missing_parent() {
    let mut nodes = vec![HierarchyNode::new(1, "A", HierarchyItemKind::Frame)];
    assert!(!move_hierarchy_node(&mut nodes, 1, Some(99), 0, Some(99)));
}

#[test]
fn move_hierarchy_node_into_other_parent_appends_as_last_child() {
    let mut nodes = vec![
        HierarchyNode::new(1, "FolderA", HierarchyItemKind::Folder)
            .children(vec![HierarchyNode::new(2, "Child", HierarchyItemKind::Player)]),
        HierarchyNode::new(3, "FolderB", HierarchyItemKind::Folder),
    ];

    assert!(move_hierarchy_node(&mut nodes, 2, Some(3), 0, Some(3)));
    assert!(nodes[0].children.is_empty());
    assert_eq!(nodes[1].children.iter().map(|node| node.id).collect::<Vec<_>>(), vec![2]);
    assert!(nodes[1].expanded);
}

#[test]
fn move_hierarchy_node_to_root_from_child_parent() {
    let mut nodes = vec![HierarchyNode::new(1, "Folder", HierarchyItemKind::Folder)
        .children(vec![HierarchyNode::new(2, "Child", HierarchyItemKind::Player)])];

    assert!(move_hierarchy_node(&mut nodes, 2, None, 1, None));
    assert_eq!(nodes.iter().map(|node| node.id).collect::<Vec<_>>(), vec![1, 2]);
    assert!(nodes[0].children.is_empty());
}

#[test]
fn move_hierarchy_node_rejects_descendant_target_parent() {
    let mut nodes = vec![HierarchyNode::new(1, "Root", HierarchyItemKind::Folder).children(vec![
        HierarchyNode::new(2, "Child", HierarchyItemKind::Group)
            .children(vec![HierarchyNode::new(3, "Leaf", HierarchyItemKind::Vector)]),
    ])];

    assert!(!move_hierarchy_node(&mut nodes, 1, Some(3), 0, Some(3)));
    assert_eq!(nodes[0].id, 1);
    assert_eq!(nodes[0].children[0].id, 2);
    assert_eq!(nodes[0].children[0].children[0].id, 3);
}

#[test]
fn move_into_itself_is_refused() {
    let mut nodes = vec![HierarchyNode::new(1, "A", HierarchyItemKind::Folder)];
    assert!(!move_hierarchy_node(&mut nodes, 1, Some(1), 0, None));
    assert_eq!(ids(&nodes), vec![1]);
}

#[test]
fn move_of_missing_node_changes_nothing() {
    let mut nodes = vec![
        HierarchyNode::new(1, "A", HierarchyItemKind::Folder),
        HierarchyNode::new(2, "B", HierarchyItemKind::Folder),
    ];
    assert!(!move_hierarchy_node(&mut nodes, 7, None, 0, None));
    assert_eq!(ids(&nodes), vec![1, 2]);
}

#[test]
fn move_keeps_every_node_once() {
    let mut nodes = vec![
        HierarchyNode::new(1, "A", HierarchyItemKind::Folder).children(vec![
            HierarchyNode::new(2, "B", HierarchyItemKind::Frame),
            HierarchyNode::new(3, "C", HierarchyItemKind::Frame)
                .children(vec![HierarchyNode::new(4, "D", HierarchyItemKind::Vector)]),
        ]),
        HierarchyNode::new(5, "E", HierarchyItemKind::Folder).expanded(false),
    ];
    assert!(move_hierarchy_node(&mut nodes, 3, Some(5), 10, Some(5)));
    assert_eq!(ids(&nodes), vec![1, 5]);
    assert_eq!(ids(&nodes[0].children), vec![2]);
    assert_eq!(ids(&nodes[1].children), vec![3]);
    assert_eq!(ids(&nodes[1].children[0].children), vec![4]);
    assert!(nodes[1].expanded);
}

#[test]
fn take_reports_parent_and_position() {
    let mut nodes = vec![HierarchyNode::new(1, "A", HierarchyItemKind::Folder).children(vec![
        HierarchyNode::new(2, "B", HierarchyItemKind::Frame),
        HierarchyNode::new(3, "C", HierarchyItemKind::Frame),
    ])];
    let (node, parent, index) = take_hierarchy_node(&mut nodes, None, 3).unwrap();
    assert_eq!(node.id, 3);
    assert_eq!(parent, Some(1));
    assert_eq!(index, 1);
    assert_eq!(ids(&nodes[0].children), vec![2]);
    assert!(take_hierarchy_node(&mut nodes, None, 3).is_none());
}

#[test]
fn find_and_contains_walk_the_whole_tree() {
    let nodes = vec![HierarchyNode::new(1, "A", HierarchyItemKind::Folder).children(vec![
        HierarchyNode::new(2, "B", HierarchyItemKind::Frame)
            .children(vec![HierarchyNode::new(3, "C", HierarchyItemKind::Frame)]),
    ])];
    assert_eq!(find_hierarchy_node(&nodes, 3).map(|node| node.label), Some("C"));
    assert!(find_hierarchy_node(&nodes, 4).is_none());
    assert!(hierarchy_node_contains(&nodes, 1, 3));
    assert!(hierarchy_node_contains(&nodes, 2, 2));
    assert!(!hierarchy_node_contains(&nodes, 3, 1));
    assert!(!hierarchy_node_contains(&nodes, 9, 1));
}

#[test]
fn selection_range_covers_visible_subtree() {
    let nodes = vec![
        HierarchyNode::new(1, "A", HierarchyItemKind::Folder).children(vec![
            HierarchyNode::new(2, "B", HierarchyItemKind::Frame)
                .children(vec![HierarchyNode::new(3, "C", HierarchyItemKind::Frame)]),
            HierarchyNode::new(4, "D", HierarchyItemKind::Frame)
                .expanded(false)
                .children(vec![HierarchyNode::new(5, "E", HierarchyItemKind::Frame)]),
        ]),
        HierarchyNode::new(6, "F", HierarchyItemKind::Frame),
    ];
    let range = selection_range(&nodes, Some(1)).unwrap();
    assert_eq!(range.ids, vec![1, 2, 3, 4]);
    assert_eq!(range.first_id, 1);
    assert_eq!(range.last_id, 4);
    let range = selection_range(&nodes, Some(6)).unwrap();
    assert_eq!(range.ids, vec![6]);
    assert!(selection_range(&nodes, Some(5)).is_none());
    assert!(selection_range(&nodes, None).is_none());
}

#[test]
fn drop_placements_map_to_moves() {
    assert_eq!(
        pending_move_for_drop(7, Some(1), 2, 3, 4, HierarchyDropPlacement::Before),
        Some(PendingMove { node_id: 7, target_parent_id: Some(1), target_index: 3, expand_target_id: None })
    );
    assert_eq!(
        pending_move_for_drop(7, Some(1), 2, 3, 4, HierarchyDropPlacement::After),
        Some(PendingMove { node_id: 7, target_parent_id: Some(1), target_index: 4, expand_target_id: None })
    );
    assert_eq!(
        pending_move_for_drop(7, Some(1), 2, 3, 4, HierarchyDropPlacement::Into),
        Some(PendingMove { node_id: 7, target_parent_id: Some(2), target_index: 4, expand_target_id: Some(2) })
    );
    assert_eq!(pending_move_for_drop(2, None, 2, 0, 0, HierarchyDropPlacement::Into), None);
}

#[test]
fn applied_move_selects_the_moved_node() {
    let mut nodes = vec![
        HierarchyNode::new(1, "A", HierarchyItemKind::Frame),
        HierarchyNode::new(2, "B", HierarchyItemKind::Frame),
    ];
    let mut selected = None;
    let pending = PendingMove { node_id: 2, target_parent_id: None, target_index: 0, expand_target_id: None };
    assert!(apply_pending_move(&mut nodes, &mut selected, pending));
    assert_eq!(selected, Some(2));
    assert_eq!(ids(&nodes), vec![2, 1]);
    let refused = PendingMove { node_id: 2, target_parent_id: Some(2), target_index: 0, expand_target_id: None };
    assert!(!apply_pending_move(&mut nodes, &mut selected, refused));
}

#[test]
fn item_icons_follow_the_icon_style() {
    match HierarchyItemKind::Frame.icon(HierarchyIconStyle::Icons) {
        HierarchyItemIcon::Icon(name) => assert_eq!(name, "frame"),
        HierarchyItemIcon::Twemoji(_) => panic!("expected an icon"),
    }
    match HierarchyItemKind::Frame.icon(HierarchyIconStyle::Emoji) {
        HierarchyItemIcon::Twemoji(emoji) => assert_eq!(emoji, "🧩"),
        HierarchyItemIcon::Icon(_) => panic!("expected an emoji"),
    }
    match HierarchyItemKind::Folder.icon(HierarchyIconStyle::Emoji) {
        HierarchyItemIcon::Icon(name) => assert_eq!(name, "bootstrap:folder-fill"),
        HierarchyItemIcon::Twemoji(_) => panic!("expected an icon"),
    }
}
