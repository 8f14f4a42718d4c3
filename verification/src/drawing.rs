//! What the selection overlay draws: the backdrop, the selection outline, and
//! the placement of the live size label.

use vstd::prelude::*;
use crate::geometry::{Point, Rect, normalized_rect, circle_rect};
use crate::overlay::{Selection, selection_region, region_in_range};
use crate::text::{decimal, push_decimal};

verus! {

/// Opacity of the dimmed overlay when the desktop remains live.
pub const OVERLAY_ALPHA: u8 = 110;
/// Space between the size label's text and its backing box.
pub const LABEL_PADDING: i32 = 4;
/// Distance between the cursor and the size label.
pub const LABEL_OFFSET: i32 = 14;

/// Packs an RGB triple into a `COLORREF`: red in the low byte, then green,
/// then blue.
pub fn rgb(r: u8, g: u8, b: u8) -> (c: u32)
    ensures
        c == r + g * 256 + b * 65536,
{
    let c = (r as u32) | ((g as u32) << 8) | ((b as u32) << 16);
    assert(((r as u32) | ((g as u32) << 8) | ((b as u32) << 16)) == r as u32 + (g as u32) * 256 + (b as u32) * 65536) by (bit_vector);
    c
}

/// The overlay's opacity: opaque over a frozen frame, which then fully
/// replaces the changing desktop, and dimmed over the live desktop.
pub fn overlay_alpha(freeze_screen: bool) -> (a: u8)
    ensures
        a == if freeze_screen { 255u8 } else { OVERLAY_ALPHA },
{
    if freeze_screen { 255 } else { OVERLAY_ALPHA }
}

/// The size label's box dimensions and position stay within `i32`.
pub open spec fn label_in_range(client: Rect, cursor: Point, text_width: int, text_height: int) -> bool {
    let bw = text_width + 2 * LABEL_PADDING;
    let bh = text_height + 2 * LABEL_PADDING;
    &&& i32::MIN <= bw <= i32::MAX
    &&& i32::MIN <= bh <= i32::MAX
    &&& i32::MIN <= cursor.x + LABEL_OFFSET + bw <= i32::MAX
    &&& i32::MIN <= cursor.y + LABEL_OFFSET + bh <= i32::MAX
    &&& i32::MIN <= cursor.x - LABEL_OFFSET - bw <= i32::MAX
    &&& i32::MIN <= cursor.y - LABEL_OFFSET - bh <= i32::MAX
    &&& i32::MIN <= cursor.x - LABEL_OFFSET && cursor.x + LABEL_OFFSET <= i32::MAX
    &&& i32::MIN <= cursor.y - LABEL_OFFSET && cursor.y + LABEL_OFFSET <= i32::MAX
    &&& label_left(client, cursor, bw) + bw <= i32::MAX
    &&& label_top(client, cursor, bh) + bh <= i32::MAX
}

/// The label's left edge: right of the cursor unless the box would pass the
/// client's right edge, then left of it; never left of zero.
pub open spec fn label_left(client: Rect, cursor: Point, box_width: int) -> int {
    let right_side = cursor.x + LABEL_OFFSET;
    let left = if right_side + box_width > client.right { cursor.x - LABEL_OFFSET - box_width } else { right_side };
    if left >= 0 { left } else { 0 }
}

/// The label's top edge: below the cursor unless the box would pass the
/// client's bottom edge, then above it; never above zero.
pub open spec fn label_top(client: Rect, cursor: Point, box_height: int) -> int {
    let below = cursor.y + LABEL_OFFSET;
    let top = if below + box_height > client.bottom { cursor.y - LABEL_OFFSET - box_height } else { below };
    if top >= 0 { top } else { 0 }
}

/// Whether the size label for text of the given extent can be placed within
/// `i32` coordinates.
pub fn label_fits(client: &Rect, cursor: Point, text_width: i32, text_height: i32) -> (b: bool)
    ensures
        b == label_in_range(*client, cursor, text_width as int, text_height as int),
{
    let lo = i32::MIN as i64;
    let hi = i32::MAX as i64;
    let pad = LABEL_PADDING as i64;
    let off = LABEL_OFFSET as i64;
    let x = cursor.x as i64;
    let y = cursor.y as i64;
    let bw = text_width as i64 + 2 * pad;
    let bh = text_height as i64 + 2 * pad;
    let right_side = x + off;
    let left0 = if right_side + bw > client.right as i64 { x - off - bw } else { right_side };
    let left = if left0 >= 0 { left0 } else { 0 };
    let below = y + off;
    let top0 = if below + bh > client.bottom as i64 { y - off - bh } else { below };
    let top = if top0 >= 0 { top0 } else { 0 };
    let in_range = |v: i64| -> (r: bool)
        ensures
            r == (i32::MIN <= v <= i32::MAX),
        { lo <= v && v <= hi };
    in_range(bw) && in_range(bh) && in_range(x + off + bw) && in_range(y + off + bh) && in_range(x - off - bw)
        && in_range(y - off - bh) && lo <= x - off && x + off <= hi && lo <= y - off && y + off <= hi
        && left + bw <= hi && top + bh <= hi
}

/// The backing box of the live size label for text of the given extent, placed
/// beside the cursor and flipped to the other side where it would clip the
/// client's right or bottom edge. The text itself starts `LABEL_PADDING`
/// inside the box.
pub fn size_label_box(client: &Rect, cursor: Point, text_width: i32, text_height: i32) -> (r: Rect)
    requires
        label_in_range(*client, cursor, text_width as int, text_height as int),
    ensures
        r.left == label_left(*client, cursor, text_width + 2 * LABEL_PADDING),
        r.top == label_top(*client, cursor, text_height + 2 * LABEL_PADDING),
        r.right == r.left + text_width + 2 * LABEL_PADDING,
        r.bottom == r.top + text_height + 2 * LABEL_PADDING,
{
    let box_width = text_width + LABEL_PADDING * 2;
    let box_height = text_height + LABEL_PADDING * 2;
    let mut left = cursor.x + LABEL_OFFSET;
    if left + box_width > client.right {
        left = cursor.x - LABEL_OFFSET - box_width;
    }
    let mut top = cursor.y + LABEL_OFFSET;
    if top + box_height > client.bottom {
        top = cursor.y - LABEL_OFFSET - box_height;
    }
    if left < 0 {
        left = 0;
    }
    if top < 0 {
        top = 0;
    }
    Rect { left, top, right: left + box_width, bottom: top + box_height }
}

/// The text of the live size label: the width, ` × `, and the height, each in
/// decimal.
pub fn size_label_text(width: i64, height: i64) -> (text: String)
    ensures
        text@ == decimal(width as int) + " × "@ + decimal(height as int),
{
    let mut text = String::new();
    push_decimal(&mut text, width);
    text.append(" × ");
    push_decimal(&mut text, height);
    text
}

/// What to do with the cached drawing surface before a repaint.
#[derive(Clone, Copy, Debug, PartialEq, Eq, Structural)]
pub enum BufferStep {
    /// The client area is empty: draw straight onto the window.
    Unavailable,
    /// The cached surface has the client's size: draw onto it again.
    Reuse,
    /// Free the cached surface, if any, and create one of the client's size.
    Rebuild,
}

/// The step for a `width` x `height` client when the cached surface has the
/// size `cached` (or there is none).
pub fn back_buffer_step(cached: Option<(i32, i32)>, width: i32, height: i32) -> (step: BufferStep)
    ensures
        step == if width <= 0 || height <= 0 {
            BufferStep::Unavailable
        } else if cached == Some((width, height)) {
            BufferStep::Reuse
        } else {
            BufferStep::Rebuild
        },
{
    if width <= 0 || height <= 0 {
        return BufferStep::Unavailable;
    }
    match cached {
        Some((w, h)) => if w == width && h == height {
            BufferStep::Reuse
        } else {
            BufferStep::Rebuild
        },
        None => BufferStep::Rebuild,
    }
}

/// What one repaint of the overlay draws.
#[derive(Clone, Copy, Debug, PartialEq, Eq, Structural)]
pub struct ScenePlan {
    /// Draw the frozen desktop frame; otherwise fill with the dark backdrop.
    pub frozen_backdrop: bool,
    /// The selection's bounding rectangle, while a drag is under way or done.
    pub region: Option<Rect>,
    /// Draw the selection outline (a circle or a frame).
    pub outline: bool,
    /// Draw the live size label beside the cursor.
    pub label: bool,
}

/// Plans a repaint: the frozen frame or dimmed backdrop; then, while dragging
/// or once committed, the selection region, outlined when it has an area, with
/// the size label while dragging.
pub fn scene_plan(selection: &Selection, circular: bool, frozen: bool, client: &Rect) -> (p: ScenePlan)
    requires
        region_in_range(*selection, circular, *client),
    ensures
        p.frozen_backdrop == frozen,
        (selection.dragging || selection.committed) ==> {
            let region = selection_region(*selection, circular, *client);
            &&& p.region == Some(region)
            &&& p.outline == (region.right > region.left && region.bottom > region.top)
            &&& p.label == selection.dragging
        },
        !(selection.dragging || selection.committed) ==> p.region is None && !p.outline && !p.label,
{
    if selection.dragging || selection.committed {
        let region = if circular {
            circle_rect(selection.start, selection.current, client)
        } else {
            normalized_rect(selection.start, selection.current)
        };
        let outline = region.right > region.left && region.bottom > region.top;
        ScenePlan { frozen_backdrop: frozen, region: Some(region), outline, label: selection.dragging }
    } else {
        ScenePlan { frozen_backdrop: frozen, region: None, outline: false, label: false }
    }
}

} // verus!
