//! Verified selection, navigation and tree logic behind a set of egui widgets.

pub mod hierarchy;
pub mod text;
pub mod combobox;
pub mod pagination;
pub mod dropdown_menu;
pub mod command;
pub mod menu_bar;
pub mod open_with;
pub mod catalog;
pub mod emoji_selector;
pub mod canva;
pub mod drag_board;
pub mod common;
pub mod agent_chat;
pub mod checkbox;
pub mod switch;
pub mod radio;
pub mod tabs;
pub mod dialogue;
pub mod audio_playback;
pub mod button;
pub mod dialog;
pub mod image_tile;
pub mod label;
pub mod popover;
pub mod sidebar;
pub mod slider;
pub mod tooltip;
pub mod toast;
pub mod collab_cursor;
pub mod button_group;
pub mod palette_color_input;
