use egui_component::catalog::{
    component_definitions, component_definitions_by_group, normalize_component_id, parse_component_kind,
    supported_component_ids_csv, ComponentGroup, ComponentKind,
};

#[test]
fn catalog_contains_only_implemented_components() {
    let ids = component_definitions()
        .iter()
        .map(|definition| definition.id)
        .collect::<Vec<_>>();
    assert!(ids.len() >= 24);
    assert!(ids.contains(&"button"));
    assert!(ids.contains(&"collab-cursor"));
    assert!(ids.contains(&"color"));
    assert!(ids.contains(&"icon"));
    assert!(ids.contains(&"image"));
    assert!(ids.contains(&"number-input"));
    assert!(ids.contains(&"popover"));
    assert!(ids.contains(&"dropdown-menu"));
    assert!(ids.contains(&"context-menu"));
    assert!(ids.contains(&"menu-bar"));
    assert!(ids.contains(&"file-tree"));
    assert!(ids.contains(&"radio"));
    assert!(ids.contains(&"radio-group"));
    assert!(ids.contains(&"sidebar"));
    assert!(ids.contains(&"toast"));
    assert!(!ids.contains(&"alert-dialogue"));
    assert!(!ids.contains(&"accordion"));
}

#[test]
fn parser_accepts_alias_variants() {
    assert_eq!(parse_component_kind("collab_cursor"), Some(ComponentKind::CollabCursor));
    assert_eq!(parse_component_kind("dialogue"), Some(ComponentKind::Dialogue));
    assert_eq!(parse_component_kind("file_tree"), Some(ComponentKind::FileTree));
    assert_eq!(parse_component_kind("number_input"), Some(ComponentKind::NumberInput));
    assert_eq!(parse_component_kind("icon"), Some(ComponentKind::Icon));
    assert_eq!(parse_component_kind("popover"), Some(ComponentKind::Popover));
    assert_eq!(parse_component_kind("contextmenu"), Some(ComponentKind::ContextMenu));
    assert_eq!(parse_component_kind("image"), Some(ComponentKind::Image));
    assert_eq!(parse_component_kind("menu_bar"), Some(ComponentKind::MenuBar));
    assert_eq!(parse_component_kind("alertdialogue"), None);
    assert_eq!(parse_component_kind("agentchat"), None);
}

#[test]
fn groups_match_expected_split() {
    let primitive = component_definitions()
        .iter()
        .filter(|definition| definition.group == ComponentGroup::Primitive)
        .count();
    let composed = component_definitions()
        .iter()
        .filter(|definition| definition.group == ComponentGroup::Composed)
        .count();
    assert_eq!(primitive + composed, component_definitions().len());
    assert!(primitive >= 12);
    assert!(composed >= 8);
}

#[test]
fn every_catalog_id_parses_back_to_its_kind() {
    for definition in component_definitions() {
        assert_eq!(parse_component_kind(definition.id), Some(definition.kind));
        assert_eq!(parse_component_kind(&definition.id.to_uppercase()), Some(definition.kind));
    }
}

#[test]
fn groups_by_filter_keep_catalog_order() {
    let primitive = component_definitions_by_group(ComponentGroup::Primitive);
    let composed = component_definitions_by_group(ComponentGroup::Composed);
    assert_eq!(primitive.len() + composed.len(), component_definitions().len());
    assert_eq!(primitive[0].id, "label");
    assert_eq!(composed[0].id, "canva-backgrounds");
    assert!(primitive.iter().all(|d| d.group == ComponentGroup::Primitive));
}

#[test]
fn display_names_and_titles() {
    assert_eq!(ComponentKind::NumberInput.display_name(), "Number Input");
    assert_eq!(ComponentKind::FileTree.display_name(), "FileTree");
    assert_eq!(ComponentKind::CanvaBrandKit.display_name(), "Brand Kit");
    assert_eq!(ComponentGroup::Primitive.title(), "Primitive");
    assert_eq!(ComponentGroup::Composed.title(), "Composed");
}

#[test]
fn normalizing_drops_punctuation_and_folds_case() {
    assert_eq!(normalize_component_id("Number_Input"), "numberinput");
    assert_eq!(normalize_component_id(" Menu-Bar! "), "menubar");
    assert_eq!(normalize_component_id("É-x"), "x");
    assert_eq!(normalize_component_id(""), "");
}

#[test]
fn ids_csv_lists_every_id_in_order() {
    let csv = supported_component_ids_csv();
    assert!(csv.starts_with("label, color, image"));
    assert!(csv.ends_with("sidebar, toast"));
    assert_eq!(csv.split(", ").count(), component_definitions().len());
}
