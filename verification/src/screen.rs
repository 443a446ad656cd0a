use vstd::prelude::*;

use crate::framebuffer::{fill_rect, draw_text, in_rect, painted, pixel_index, text_covers};
use crate::usb::{usb_info_chars, UsbState};

verus! {

/// Colour of the box (opaque blue in the BGRA layout of most firmware).
pub const BOX_COLOR: u32 = 0xFF0000FF;

/// Colour that `clear_box` paints the box with.
pub const CLEARED_COLOR: u32 = 0xFF000000;

/// Colour of the text in the box.
pub const TEXT_COLOR: u32 = 0x00FFFFFF;

/// The box spans columns `BOX_LEFT..BOX_RIGHT` of lines `BOX_TOP..BOX_BOTTOM`.
pub const BOX_LEFT: usize = 100;
pub const BOX_RIGHT: usize = 600;
pub const BOX_TOP: usize = 100;
pub const BOX_BOTTOM: usize = 250;

/// The text starts at this column and line.
pub const TEXT_LEFT: usize = 120;
pub const TEXT_TOP: usize = 120;

/// Width and height of the centred box of `draw_blue_box_with_text`.
pub const CENTRED_BOX_WIDTH: usize = 400;
pub const CENTRED_BOX_HEIGHT: usize = 200;

/// Index `i` is a pixel of the box on a screen of `ppsl` pixels per line.
pub open spec fn in_box(ppsl: int, i: int) -> bool {
    in_rect(ppsl, BOX_LEFT as int, BOX_RIGHT as int, BOX_TOP as int, BOX_BOTTOM as int, i)
}

/// Index `i` is a pixel of the USB text drawn for `usb`.
pub open spec fn in_box_text(usb: &UsbState, ppsl: int, i: int) -> bool {
    text_covers(usb_info_chars(usb.devices), ppsl, TEXT_LEFT as int, TEXT_TOP as int, i)
}

/// The framebuffer after `draw_box`: the text pixels white, the other box
/// pixels blue, the rest as before.
pub open spec fn box_drawn(old: Seq<u32>, new: Seq<u32>, usb: &UsbState, ppsl: int) -> bool {
    &&& new.len() == old.len()
    &&& forall|i: int| 0 <= i < old.len() ==> #[trigger] new[i] == if in_box_text(usb, ppsl, i) {
        TEXT_COLOR
    } else if in_box(ppsl, i) {
        BOX_COLOR
    } else {
        old[i]
    }
}

/// Draws the blue box and, over it, the list of USB devices reported so far
/// (or a waiting message). Pixels whose index falls past the end of the
/// framebuffer are skipped.
pub fn draw_box(fb: &mut [u32], ppsl: u32, usb: &UsbState)
    ensures
        box_drawn(old(fb)@, final(fb)@, usb, ppsl as int),
{
    fill_rect(fb, ppsl as usize, BOX_LEFT, BOX_RIGHT, BOX_TOP, BOX_BOTTOM, BOX_COLOR);
    let ghost filled = fb@;
    let text = usb.info_text();
    draw_text(fb, ppsl, TEXT_LEFT, TEXT_TOP, TEXT_COLOR, text.as_str());
    assert forall|i: int| 0 <= i < old(fb)@.len() implies #[trigger] fb@[i] == if in_box_text(usb, ppsl as int, i) {
        TEXT_COLOR
    } else if in_box(ppsl as int, i) {
        BOX_COLOR
    } else {
        old(fb)@[i]
    } by {
        assert(fb@[i] == if text_covers(text@, ppsl as int, TEXT_LEFT as int, TEXT_TOP as int, i) { TEXT_COLOR } else { filled[i] });
        assert(filled[i] == if in_box(ppsl as int, i) { BOX_COLOR } else { old(fb)@[i] });
    }
}

/// Paints the box area over with `CLEARED_COLOR`; pixels whose index falls
/// past the end of the framebuffer are skipped.
pub fn clear_box(fb: &mut [u32], ppsl: u32)
    ensures
        painted(old(fb)@, final(fb)@, |i: int| in_box(ppsl as int, i), CLEARED_COLOR),
{
    fill_rect(fb, ppsl as usize, BOX_LEFT, BOX_RIGHT, BOX_TOP, BOX_BOTTOM, CLEARED_COLOR);
}

/// Pressing F4 twice draws the box and clears it again: afterwards every box
/// pixel holds `CLEARED_COLOR`, and every pixel that neither the box nor its
/// text covers is as it was before the first press.
pub proof fn lemma_clear_after_draw(before: Seq<u32>, drawn: Seq<u32>, cleared: Seq<u32>, usb: &UsbState, ppsl: int)
    requires
        box_drawn(before, drawn, usb, ppsl),
        painted(drawn, cleared, |i: int| in_box(ppsl, i), CLEARED_COLOR),
    ensures
        cleared.len() == before.len(),
        forall|i: int| 0 <= i < before.len() && in_box(ppsl, i) ==> #[trigger] cleared[i] == CLEARED_COLOR,
        forall|i: int| 0 <= i < before.len() && !in_box(ppsl, i) && !in_box_text(usb, ppsl, i) ==> #[trigger] cleared[i] == before[i],
{
    assert forall|i: int| 0 <= i < before.len() && in_box(ppsl, i) implies #[trigger] cleared[i] == CLEARED_COLOR by {
        assert(cleared[i] == if in_box(ppsl, i) { CLEARED_COLOR } else { drawn[i] });
    }
    assert forall|i: int| 0 <= i < before.len() && !in_box(ppsl, i) && !in_box_text(usb, ppsl, i) implies #[trigger] cleared[i] == before[i] by {
        assert(cleared[i] == if in_box(ppsl, i) { CLEARED_COLOR } else { drawn[i] });
        assert(drawn[i] == before[i]);
    }
}

/// Left column of the centred box on a screen `width` pixels wide.
pub open spec fn centred_left(width: int) -> int {
    (width - CENTRED_BOX_WIDTH) / 2
}

/// Top line of the centred box on a screen `height` pixels high.
pub open spec fn centred_top(height: int) -> int {
    (height - CENTRED_BOX_HEIGHT) / 2
}

/// Index `i` is a pixel of the centred box on a `width` by `height` screen
/// whose lines are `width` pixels apart.
pub open spec fn in_centred_box(width: int, height: int, i: int) -> bool {
    in_rect(
        width,
        centred_left(width),
        centred_left(width) + CENTRED_BOX_WIDTH,
        centred_top(height),
        centred_top(height) + CENTRED_BOX_HEIGHT,
        i,
    )
}

/// The centred box is centred: on a screen at least as large as the box, the
/// space left of it equals the space right of it, or is one pixel less when
/// the difference is odd, and likewise above and below. A pixel at column
/// `x < width`, line `y` is in the box exactly when its column is in the
/// box's 400 columns and its line in the box's 200 lines.
pub proof fn lemma_centred_box_is_centred(width: int, height: int, x: int, y: int)
    requires
        width >= CENTRED_BOX_WIDTH,
        height >= CENTRED_BOX_HEIGHT,
        0 <= x < width,
    ensures
        centred_left(width) >= 0,
        centred_top(height) >= 0,
        0 <= (width - (centred_left(width) + CENTRED_BOX_WIDTH)) - centred_left(width) <= 1,
        0 <= (height - (centred_top(height) + CENTRED_BOX_HEIGHT)) - centred_top(height) <= 1,
        in_centred_box(width, height, pixel_index(width, x, y)) == (centred_left(width) <= x < centred_left(width)
            + CENTRED_BOX_WIDTH && centred_top(height) <= y < centred_top(height) + CENTRED_BOX_HEIGHT),
{
    crate::framebuffer::lemma_in_rect_position(
        width,
        centred_left(width),
        centred_left(width) + CENTRED_BOX_WIDTH,
        centred_top(height),
        centred_top(height) + CENTRED_BOX_HEIGHT,
        x,
        y,
    );
}

/// Within the line width, the pixel at column `x`, line `y` is in the box of
/// `draw_box` and `clear_box` exactly when `100 <= x < 600` and
/// `100 <= y < 250`.
pub proof fn lemma_box_position(ppsl: int, x: int, y: int)
    requires
        ppsl >= BOX_RIGHT,
        0 <= x < ppsl,
    ensures
        in_box(ppsl, pixel_index(ppsl, x, y)) == (BOX_LEFT <= x < BOX_RIGHT && BOX_TOP <= y < BOX_BOTTOM),
{
    crate::framebuffer::lemma_in_rect_position(ppsl, BOX_LEFT as int, BOX_RIGHT as int, BOX_TOP as int, BOX_BOTTOM as int, x, y);
}

/// Declares r-efi's `Status` (a UEFI status code) to Verus as an opaque type,
/// so that it can stand in the error type of `draw_blue_box_with_text`.
#[verifier::external_type_specification]
#[verifier::external_body]
pub struct ExStatus(r_efi::efi::Status);

/// Draws a 400 by 200 blue box in the middle of a screen of the given
/// resolution, its lines taken to be `horizontal_resolution` pixels apart.
/// The screen must be at least as large as the box.
pub fn draw_blue_box_with_text(
    fb: &mut [u32],
    horizontal_resolution: u32,
    vertical_resolution: u32,
) -> (r: Result<(), r_efi::efi::Status>)
    requires
        horizontal_resolution >= CENTRED_BOX_WIDTH,
        vertical_resolution >= CENTRED_BOX_HEIGHT,
    ensures
        r is Ok,
        painted(
            old(fb)@,
            final(fb)@,
            |i: int| in_centred_box(horizontal_resolution as int, vertical_resolution as int, i),
            BOX_COLOR,
        ),
{
    let width = horizontal_resolution as usize;
    let height = vertical_resolution as usize;
    let box_x = (width - CENTRED_BOX_WIDTH) / 2;
    let box_y = (height - CENTRED_BOX_HEIGHT) / 2;
    fill_rect(fb, width, box_x, box_x + CENTRED_BOX_WIDTH, box_y, box_y + CENTRED_BOX_HEIGHT, BOX_COLOR);
    Ok(())
}

} // verus!
