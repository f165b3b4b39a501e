//! Helpers of the renderer: colours, C strings and frame timing.

use crate::text::same_text;
use vstd::prelude::*;
use vstd::string::StrSliceExecFns;
use vstd::utf8::encode_utf8;

verus! {

/// A colour as the graphics library packs it: red in the lowest byte, then
/// green, blue and alpha.
pub open spec fn rgba_of(r: u8, g: u8, b: u8, a: u8) -> u32 {
    (r + g * 0x100 + b * 0x1_0000 + a * 0x100_0000) as u32
}

/// Packs a colour from its four channels.
pub fn rgba(r: u8, g: u8, b: u8, a: u8) -> (color: u32)
    ensures
        color == rgba_of(r, g, b, a),
{
    (r as u32) + (g as u32) * 0x100 + (b as u32) * 0x1_0000 + (a as u32) * 0x100_0000
}

/// The colour that a name of the style sheet stands for. A name that the
/// style sheet does not know is opaque black.
pub open spec fn color_named(name: Seq<char>) -> u32 {
    if name == "red"@ {
        rgba_of(0xff, 0x00, 0x00, 0xff)
    } else if name == "green"@ {
        rgba_of(0x00, 0xff, 0x00, 0xff)
    } else if name == "blue"@ {
        rgba_of(0x00, 0x00, 0xff, 0xff)
    } else if name == "dir"@ {
        rgba_of(0x00, 0xb4, 0xd8, 0xff)
    } else if name == "white"@ {
        rgba_of(0xff, 0xff, 0xff, 0xff)
    } else if name == "gray"@ {
        rgba_of(0xbb, 0xbb, 0xbb, 0xff)
    } else if name == "black"@ {
        rgba_of(0x00, 0x00, 0x00, 0xff)
    } else if name == "main-text"@ {
        rgba_of(0xee, 0xee, 0xee, 0xff)
    } else if name == "main_bg"@ {
        rgba_of(0x22, 0x22, 0x22, 0xff)
    } else if name == "selected_bg"@ {
        rgba_of(0x44, 0x44, 0x44, 0xff)
    } else if name == "selected_bg_info"@ {
        rgba_of(0x33, 0x33, 0x33, 0xff)
    } else if name == "selected_bg_dark"@ {
        rgba_of(0x28, 0x28, 0x28, 0xff)
    } else if name == "selected_bg_light"@ {
        rgba_of(0x60, 0x60, 0x60, 0xff)
    } else if name == "transparent"@ {
        rgba_of(0x00, 0x00, 0x00, 0x00)
    } else if name == "tips"@ {
        rgba_of(0xaa, 0xaa, 0xaa, 0xff)
    } else if name == "panel_bg"@ {
        rgba_of(0x26, 0x26, 0x26, 0xff)
    } else {
        rgba_of(0x00, 0x00, 0x00, 0xff)
    }
}

/// The packed colour for a name of the style sheet.
pub fn color_name_rgba(color: &str) -> (packed: u32)
    ensures
        packed == color_named(color@),
{
    if same_text(color, "red") {
        rgba(0xff, 0x00, 0x00, 0xff)
    } else if same_text(color, "green") {
        rgba(0x00, 0xff, 0x00, 0xff)
    } else if same_text(color, "blue") {
        rgba(0x00, 0x00, 0xff, 0xff)
    } else if same_text(color, "dir") {
        rgba(0x00, 0xb4, 0xd8, 0xff)
    } else if same_text(color, "white") {
        rgba(0xff, 0xff, 0xff, 0xff)
    } else if same_text(color, "gray") {
        rgba(0xbb, 0xbb, 0xbb, 0xff)
    } else if same_text(color, "black") {
        rgba(0x00, 0x00, 0x00, 0xff)
    } else if same_text(color, "main-text") {
        rgba(0xee, 0xee, 0xee, 0xff)
    } else if same_text(color, "main_bg") {
        rgba(0x22, 0x22, 0x22, 0xff)
    } else if same_text(color, "selected_bg") {
        rgba(0x44, 0x44, 0x44, 0xff)
    } else if same_text(color, "selected_bg_info") {
        rgba(0x33, 0x33, 0x33, 0xff)
    } else if same_text(color, "selected_bg_dark") {
        rgba(0x28, 0x28, 0x28, 0xff)
    } else if same_text(color, "selected_bg_light") {
        rgba(0x60, 0x60, 0x60, 0xff)
    } else if same_text(color, "transparent") {
        rgba(0x00, 0x00, 0x00, 0x00)
    } else if same_text(color, "tips") {
        rgba(0xaa, 0xaa, 0xaa, 0xff)
    } else if same_text(color, "panel_bg") {
        rgba(0x26, 0x26, 0x26, 0xff)
    } else {
        rgba(0x00, 0x00, 0x00, 0xff)
    }
}

/// The UTF-8 bytes of `data` with the zero byte that ends a C string.
pub fn str_to_c_null_term_bytes(data: &str) -> (bytes: Vec<u8>)
    ensures
        bytes@ == encode_utf8(data@).push(0u8),
{
    let mut bytes = data.as_bytes_vec();
    bytes.push(0u8);
    bytes
}

/// The time one frame may take, in microseconds: a sixtieth of a second on
/// the faster model of the console, a thirtieth on the older one.
pub fn get_frame_time(is_new_3ds: bool) -> (micros: u64)
    ensures
        micros == if is_new_3ds {
            16666u64
        } else {
            33333u64
        },
{
    if is_new_3ds {
        16666
    } else {
        33333
    }
}

} // verus!
