//! The collaborator cursor's image: an SVG arrow filled with the
//! collaborator's colour, the URI it is registered under, and the key that
//! caches it. A colour is its four 8-bit RGBA channels.

use vstd::prelude::*;
use crate::text::push_char;

verus! {

/// A colour as its four 8-bit channels, red, green, blue and alpha.
#[derive(Debug, Clone, Copy, PartialEq, Eq, Structural)]
pub struct Rgba8 {
    pub r: u8,
    pub g: u8,
    pub b: u8,
    pub a: u8,
}

impl Rgba8 {
    /// An opaque colour.
    pub fn from_rgb(r: u8, g: u8, b: u8) -> (c: Rgba8)
        ensures
            c == (Rgba8 { r, g, b, a: 255 }),
    {
        Rgba8 { r, g, b, a: 255 }
    }
}

/// The outline of the arrow, in SVG path syntax.
pub const CURSOR_FILL_PATH: &'static str = "M14.082 2.182a.5.5 0 0 1 .103.557L8.528 15.467a.5.5 0 0 1-.917-.007L5.57 10.694.803 8.652a.5.5 0 0 1-.006-.916l12.728-5.657a.5.5 0 0 1 .556.103z";

/// The transform that mirrors the arrow so that it points up and to the left.
pub const CURSOR_TRANSFORM: &'static str = "translate(16 0) scale(-1 1)";

/// The lower-case hexadecimal digit of `n` (below 16).
pub open spec fn hex_digit(n: nat) -> char {
    if n < 10 {
        (48 + n) as char
    } else {
        (87 + n) as char
    }
}

/// Two lower-case hexadecimal digits of a byte.
pub open spec fn hex_byte(v: u8) -> Seq<char> {
    seq![hex_digit((v / 16) as nat), hex_digit((v % 16) as nat)]
}

/// The colour as eight lower-case hexadecimal digits, red first and alpha last.
pub open spec fn hex_rgba(c: Rgba8) -> Seq<char> {
    hex_byte(c.r) + hex_byte(c.g) + hex_byte(c.b) + hex_byte(c.a)
}

/// The URI of the cursor image of a colour.
pub open spec fn cursor_uri(c: Rgba8) -> Seq<char> {
    "bytes://egui-component/collab-cursor/"@ + hex_rgba(c) + ".svg"@
}

/// The SVG document of the cursor image: a white outline under the arrow
/// filled with the colour, both mirrored by `CURSOR_TRANSFORM`, with a soft
/// drop shadow.
pub open spec fn cursor_svg(c: Rgba8) -> Seq<char> {
    let path = CURSOR_FILL_PATH@;
    let transform = CURSOR_TRANSFORM@;
    "<svg xmlns=\"http://www.w3.org/2000/svg\" width=\"18\" height=\"18\" viewBox=\"-1 -1 18 18\" fill=\"none\">"@
        + "<defs>"@
        + "<filter id=\"shadow\" x=\"-40%\" y=\"-30%\" width=\"220%\" height=\"220%\" color-interpolation-filters=\"sRGB\">"@
        + "<feDropShadow dx=\"0.8\" dy=\"1.2\" stdDeviation=\"0.75\" flood-color=\"#0B1220\" flood-opacity=\"0.34\"/>"@
        + "</filter>"@
        + "</defs>"@
        + "<g filter=\"url(#shadow)\">"@
        + "<path d=\""@ + path
        + "\" fill=\"none\" stroke=\"#FFFFFF\" stroke-width=\"1.75\" stroke-linejoin=\"round\" stroke-linecap=\"round\" transform=\""@
        + transform + "\"/>"@
        + "<path d=\""@ + path + "\" fill=\"#"@ + hex_rgba(c) + "\" transform=\""@ + transform + "\"/>"@
        + "</g>"@
        + "</svg>"@
}

fn hex_digit_char(n: u8) -> (ch: char)
    requires
        n < 16,
    ensures
        ch == hex_digit(n as nat),
{
    if n < 10 {
        (48u8 + n) as char
    } else {
        (87u8 + n) as char
    }
}

fn push_hex_byte(s: &mut String, v: u8)
    ensures
        final(s)@ == old(s)@ + hex_byte(v),
{
    push_char(s, hex_digit_char(v / 16));
    push_char(s, hex_digit_char(v % 16));
    assert(final(s)@ =~= old(s)@ + hex_byte(v));
}

/// The colour as eight lower-case hexadecimal digits, `rrggbbaa`.
pub fn color_hex_rgba(c: Rgba8) -> (r: String)
    ensures
        r@ == hex_rgba(c),
{
    let mut s = String::new();
    push_hex_byte(&mut s, c.r);
    push_hex_byte(&mut s, c.g);
    push_hex_byte(&mut s, c.b);
    push_hex_byte(&mut s, c.a);
    assert(s@ =~= hex_rgba(c));
    s
}

/// The channels of a colour read as a big-endian 32-bit number.
pub open spec fn rgba_key(c: Rgba8) -> int {
    c.r * 16777216 + c.g * 65536 + c.b * 256 + c.a
}

/// Two colours share a cache key only when they are the same colour, so the
/// cache never hands out the image of another colour.
pub proof fn lemma_cache_key_injective(c1: Rgba8, c2: Rgba8)
    requires
        rgba_key(c1) == rgba_key(c2),
    ensures
        c1 == c2,
{
    assert(c1.r == c2.r);
    assert(c1.g == c2.g);
    assert(c1.b == c2.b);
}

/// The cache key of a colour: its channels read as a big-endian 32-bit number.
pub fn color_cache_key(c: Rgba8) -> (k: u32)
    ensures
        k == rgba_key(c),
{
    (c.r as u32) * 16777216 + (c.g as u32) * 65536 + (c.b as u32) * 256 + (c.a as u32)
}

/// The URI under which the cursor image of a colour is registered.
pub fn collab_cursor_uri(c: Rgba8) -> (r: String)
    ensures
        r@ == cursor_uri(c),
{
    let mut s = String::from_str("bytes://egui-component/collab-cursor/");
    let hex = color_hex_rgba(c);
    s.append(hex.as_str());
    s.append(".svg");
    s
}

/// The SVG document of the cursor image of a colour.
pub fn collab_cursor_svg(c: Rgba8) -> (r: String)
    ensures
        r@ == cursor_svg(c),
{
    let hex = color_hex_rgba(c);
    let mut s = String::from_str(
        "<svg xmlns=\"http://www.w3.org/2000/svg\" width=\"18\" height=\"18\" viewBox=\"-1 -1 18 18\" fill=\"none\">",
    );
    s.append("<defs>");
    s.append(
        "<filter id=\"shadow\" x=\"-40%\" y=\"-30%\" width=\"220%\" height=\"220%\" color-interpolation-filters=\"sRGB\">",
    );
    s.append(
        "<feDropShadow dx=\"0.8\" dy=\"1.2\" stdDeviation=\"0.75\" flood-color=\"#0B1220\" flood-opacity=\"0.34\"/>",
    );
    s.append("</filter>");
    s.append("</defs>");
    s.append("<g filter=\"url(#shadow)\">");
    s.append("<path d=\"");
    s.append(CURSOR_FILL_PATH);
    s.append(
        "\" fill=\"none\" stroke=\"#FFFFFF\" stroke-width=\"1.75\" stroke-linejoin=\"round\" stroke-linecap=\"round\" transform=\"",
    );
    s.append(CURSOR_TRANSFORM);
    s.append("\"/>");
    s.append("<path d=\"");
    s.append(CURSOR_FILL_PATH);
    s.append("\" fill=\"#");
    s.append(hex.as_str());
    s.append("\" transform=\"");
    s.append(CURSOR_TRANSFORM);
    s.append("\"/>");
    s.append("</g>");
    s.append("</svg>");
    s
}

} // verus!
