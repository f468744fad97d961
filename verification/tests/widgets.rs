use egui_component::agent_chat::{AgentChatProps, AgentChatState};
use egui_component::canva::{choose_chip, CanvaInspectorCard, CanvaInspectorHeader};
use egui_component::checkbox::Checkbox;
use egui_component::common::ControlSize;
use egui_component::dialogue::{DialogueHeader, DialogueIntent};
use egui_component::drag_board::{
    apply_drag_board_drop, region_accepts_drop, region_item_count, release_on_region, DragBoardPayload,
    DragBoardRegion,
};
use egui_component::radio::{choose_radio_option, RadioOption};
use egui_component::switch::Switch;
use egui_component::tabs::{clamp_to_last, toggle_optional_tab, TabOption, TabsVariant};
use egui_component::toast::{Toast, ToastIntent, ToastStack};

#[test]
fn stack_pushes_ordered_toasts() {
    let mut stack = ToastStack::default();
    stack.push(Toast::new("First"));
    stack.push(Toast::new("Second").intent(ToastIntent::Success));

    assert_eq!(stack.entries().len(), 2);
    assert_eq!(stack.entries()[0].toast.title, "First");
    assert_eq!(stack.entries()[1].toast.intent, ToastIntent::Success);
}

#[test]
fn toasts_expire_after_their_duration_and_can_be_dismissed() {
    let mut stack = ToastStack::new();
    stack.neutral("a");
    stack.success("b");
    stack.push(Toast::new("c").duration(0));
    stack.tick(1000);
    assert_eq!(stack.entries().len(), 3);
    assert_eq!(stack.visible_ids(2), vec![2, 1]);
    stack.tick(4999);
    assert_eq!(stack.entries().len(), 3);
    stack.tick(5000);
    assert_eq!(stack.entries().iter().map(|e| e.id).collect::<Vec<_>>(), vec![2]);
    stack.destructive("d");
    stack.dismiss(&[2]);
    assert_eq!(stack.entries().iter().map(|e| e.id).collect::<Vec<_>>(), vec![3]);
    stack.clear();
    assert!(stack.is_empty());
}

#[test]
fn builders_set_their_fields() {
    let props = AgentChatProps::new().placeholder("Ask").usage_label("10% used");
    assert_eq!(props.placeholder, "Ask");
    assert_eq!(props.mode_label, "Auto");
    assert_eq!(props.usage_label, "10% used");
    assert_eq!(AgentChatProps::default().placeholder, "Ask, Search or Chat...");
    assert_eq!(AgentChatState::default(), AgentChatState { add_clicked: false, send_clicked: false });
    let card = CanvaInspectorCard::new().padding(4, -2);
    assert_eq!((card.padding_x, card.padding_y), (4, -2));
    assert_eq!(CanvaInspectorCard::default().padding_x, 16);
    let header = CanvaInspectorHeader::new("Position").description("Move it");
    assert_eq!(header.description, Some("Move it"));
    assert_eq!(Checkbox::new().label("Agree").label, Some("Agree"));
    let switch = Switch::new().label("Wifi").small();
    assert!(switch.size.is_small());
    assert!(!Switch::default().size.is_small());
    assert_eq!(Switch::new().size(ControlSize::Sm).size, ControlSize::Sm);
    let dialogue = DialogueHeader::new("Delete").description("Sure?").intent(DialogueIntent::Alert);
    assert_eq!(dialogue.intent, DialogueIntent::Alert);
    assert_eq!(DialogueHeader::new("x").description, "");
    assert_eq!(RadioOption::new(2, "Two").description("second").description, Some("second"));
    assert_eq!(TabOption::with_icon(1, "Home", "house").icon, Some("house"));
    assert_eq!(TabOption::new(1, "Home").icon, None);
    assert_eq!(TabsVariant::default(), TabsVariant::Underline);
}

#[test]
fn drag_board_drop_moves_card_between_regions() {
    let mut regions = [DragBoardRegion::Left, DragBoardRegion::Left, DragBoardRegion::Right];
    assert_eq!(region_item_count(&regions, DragBoardRegion::Left), 2);
    assert!(apply_drag_board_drop(&mut regions, 0, DragBoardRegion::Left, DragBoardRegion::Right));
    assert_eq!(region_item_count(&regions, DragBoardRegion::Right), 2);
    assert!(!apply_drag_board_drop(&mut regions, 1, DragBoardRegion::Left, DragBoardRegion::Left));
    assert!(!apply_drag_board_drop(&mut regions, 9, DragBoardRegion::Left, DragBoardRegion::Right));
    assert_eq!(regions, [DragBoardRegion::Right, DragBoardRegion::Left, DragBoardRegion::Right]);
}

#[test]
fn selection_rules_of_tabs_and_radios() {
    assert_eq!(clamp_to_last(7, 3), 2);
    assert_eq!(clamp_to_last(1, 3), 1);
    assert_eq!(clamp_to_last(4, 0), 0);
    assert_eq!(toggle_optional_tab(Some(2), 2), None);
    assert_eq!(toggle_optional_tab(Some(1), 2), Some(2));
    assert_eq!(toggle_optional_tab(None, 0), Some(0));
    let mut current = None;
    assert!(choose_radio_option(&mut current, 3));
    assert!(!choose_radio_option(&mut current, 3));
    assert_eq!(current, Some(3));
}

const TEST_BOARD_ID: u64 = 0x5eed_b0a2d;
const OTHER_BOARD_ID: u64 = 0xd1ff_e2e7;

#[test]
fn dropping_on_other_board_instance_is_ignored() {
    let mut current_regions = [DragBoardRegion::Left, DragBoardRegion::Left, DragBoardRegion::Right];
    let payload = DragBoardPayload { board_id: OTHER_BOARD_ID, item_index: 0, source: DragBoardRegion::Left };

    assert!(!region_accepts_drop(TEST_BOARD_ID, Some(payload), DragBoardRegion::Right));
    assert!(!release_on_region(&mut current_regions, TEST_BOARD_ID, Some(payload), DragBoardRegion::Right));

    assert_eq!(
        current_regions,
        [DragBoardRegion::Left, DragBoardRegion::Left, DragBoardRegion::Right]
    );
}

#[test]
fn dropping_on_opposite_region_updates_selected_card_state() {
    let mut current_regions = [DragBoardRegion::Left, DragBoardRegion::Left, DragBoardRegion::Right];
    let payload = DragBoardPayload { board_id: TEST_BOARD_ID, item_index: 0, source: DragBoardRegion::Left };

    assert!(region_accepts_drop(TEST_BOARD_ID, Some(payload), DragBoardRegion::Right));
    assert!(release_on_region(&mut current_regions, TEST_BOARD_ID, Some(payload), DragBoardRegion::Right));

    assert_eq!(
        current_regions,
        [DragBoardRegion::Right, DragBoardRegion::Left, DragBoardRegion::Right]
    );
}

#[test]
fn dropping_on_same_region_keeps_state() {
    let mut current_regions = [DragBoardRegion::Left, DragBoardRegion::Left, DragBoardRegion::Right];
    let payload = DragBoardPayload { board_id: TEST_BOARD_ID, item_index: 0, source: DragBoardRegion::Left };

    assert!(!region_accepts_drop(TEST_BOARD_ID, Some(payload), DragBoardRegion::Left));
    assert!(!release_on_region(&mut current_regions, TEST_BOARD_ID, Some(payload), DragBoardRegion::Left));

    assert_eq!(
        current_regions,
        [DragBoardRegion::Left, DragBoardRegion::Left, DragBoardRegion::Right]
    );
}

#[test]
fn release_without_a_card_changes_nothing() {
    let mut current_regions = [DragBoardRegion::Left];
    assert!(!region_accepts_drop(TEST_BOARD_ID, None, DragBoardRegion::Right));
    assert!(!release_on_region(&mut current_regions, TEST_BOARD_ID, None, DragBoardRegion::Right));
    let stale = DragBoardPayload { board_id: TEST_BOARD_ID, item_index: 4, source: DragBoardRegion::Left };
    assert!(!release_on_region(&mut current_regions, TEST_BOARD_ID, Some(stale), DragBoardRegion::Right));
    assert_eq!(current_regions, [DragBoardRegion::Left]);
}

#[test]
fn a_drop_moves_exactly_one_card_between_columns() {
    let mut current_regions = [DragBoardRegion::Left, DragBoardRegion::Left, DragBoardRegion::Right];
    let payload = DragBoardPayload { board_id: TEST_BOARD_ID, item_index: 1, source: DragBoardRegion::Left };
    assert!(release_on_region(&mut current_regions, TEST_BOARD_ID, Some(payload), DragBoardRegion::Right));
    assert_eq!(region_item_count(&current_regions, DragBoardRegion::Left), 1);
    assert_eq!(region_item_count(&current_regions, DragBoardRegion::Right), 2);
}

#[test]
fn choosing_a_chip_reports_only_real_changes() {
    let mut selected = 1;
    assert!(!choose_chip(&mut selected, 1));
    assert_eq!(selected, 1);
    assert!(choose_chip(&mut selected, 2));
    assert_eq!(selected, 2);
}

#[test]
fn next_expiry_is_the_earliest_end_of_a_timed_toast() {
    let mut stack = ToastStack::new();
    assert_eq!(stack.next_expiry_ms(1_000), None);
    stack.push(Toast::new("Sticky").duration(0));
    assert_eq!(stack.next_expiry_ms(1_000), None);
    stack.push(Toast::new("Long").duration(9_000));
    stack.tick(1_000);
    stack.push(Toast::new("Short").duration(2_000));
    assert_eq!(stack.next_expiry_ms(5_000), Some(7_000));
    assert_eq!(stack.next_expiry_ms(9_000), Some(10_000));
}
