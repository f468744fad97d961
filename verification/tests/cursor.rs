use egui_component::palette_color_input::{apply_palette_swatch_selection, palette_selected_index};
use egui_component::collab_cursor::{
    collab_cursor_svg, collab_cursor_uri, color_cache_key, color_hex_rgba, Rgba8, CURSOR_FILL_PATH,
    CURSOR_TRANSFORM,
};

#[test]
fn collab_cursor_uri_is_color_stable() {
    assert_eq!(
        collab_cursor_uri(Rgba8 { r: 255, g: 122, b: 36, a: 255 }),
        "bytes://egui-component/collab-cursor/ff7a24ff.svg"
    );
}

#[test]
fn collab_cursor_svg_uses_white_outline() {
    let svg = collab_cursor_svg(Rgba8::from_rgb(12, 200, 140));
    assert!(svg.contains("fill=\"#0cc88cff\""));
    assert!(svg.contains(CURSOR_FILL_PATH));
    assert!(svg.contains("stroke=\"#FFFFFF\""));
    assert!(svg.contains(CURSOR_TRANSFORM));
    assert!(svg.contains("feDropShadow"));
}

#[test]
fn color_hex_uses_lower_case_digits_with_leading_zeros() {
    assert_eq!(color_hex_rgba(Rgba8 { r: 0, g: 10, b: 171, a: 5 }), "000aab05");
    assert_eq!(color_hex_rgba(Rgba8 { r: 255, g: 255, b: 255, a: 255 }), "ffffffff");
}

#[test]
fn color_cache_key_reads_channels_big_endian() {
    assert_eq!(color_cache_key(Rgba8 { r: 1, g: 2, b: 3, a: 4 }), 0x0102_0304);
    assert_eq!(color_cache_key(Rgba8 { r: 255, g: 255, b: 255, a: 255 }), u32::MAX);
    assert_ne!(
        color_cache_key(Rgba8 { r: 12, g: 200, b: 140, a: 255 }),
        color_cache_key(Rgba8 { r: 12, g: 200, b: 140, a: 254 })
    );
}

#[test]
fn collab_cursor_svg_is_a_complete_document() {
    let svg = collab_cursor_svg(Rgba8::from_rgb(1, 2, 3));
    assert!(svg.starts_with("<svg xmlns=\"http://www.w3.org/2000/svg\""));
    assert!(svg.ends_with("</g></svg>"));
    assert_eq!(svg.matches(CURSOR_FILL_PATH).count(), 2);
    assert_eq!(svg.matches(CURSOR_TRANSFORM).count(), 2);
}

const TEST_PALETTE: [Rgba8; 4] = [
    Rgba8 { r: 190, g: 74, b: 47, a: 255 },
    Rgba8 { r: 215, g: 118, b: 67, a: 255 },
    Rgba8 { r: 234, g: 212, b: 170, a: 255 },
    Rgba8 { r: 228, g: 166, b: 114, a: 255 },
];

#[test]
fn selecting_palette_swatch_updates_color_and_closes_popover() {
    let mut value = TEST_PALETTE[0];
    let mut open = true;
    let mut changed = false;

    apply_palette_swatch_selection(&mut value, TEST_PALETTE[1], &mut open, &mut changed);

    assert_eq!(value, TEST_PALETTE[1]);
    assert!(changed);
    assert!(!open);
}

#[test]
fn non_palette_current_colors_render_with_no_selected_swatch() {
    let value = Rgba8::from_rgb(12, 34, 56);

    assert_eq!(palette_selected_index(&TEST_PALETTE, value), None);
}

#[test]
fn palette_colors_select_their_swatch() {
    assert_eq!(palette_selected_index(&TEST_PALETTE, TEST_PALETTE[2]), Some(2));
    assert_eq!(palette_selected_index(&[], TEST_PALETTE[2]), None);
}
