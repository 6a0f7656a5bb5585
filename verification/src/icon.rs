use vstd::prelude::*;

verus! {

/// Width and height of the application icon in pixels.
pub const ICON_SIZE: usize = 32;

/// Channel `ch` (R, G, B, A) of icon pixel (`x`, `y`): a dark purple badge
/// with a two-pixel transparent margin and a light green screen in its upper
/// part.
pub open spec fn icon_channel(x: int, y: int, ch: int) -> u8 {
    let in_border = 2 <= x < 30 && 2 <= y < 30;
    let in_screen = 6 <= x < 26 && 5 <= y < 18;
    if !in_border {
        0
    } else if in_screen {
        if ch == 0 { 144 } else if ch == 1 { 200 } else if ch == 2 { 80 } else { 255 }
    } else {
        if ch == 0 { 88 } else if ch == 1 { 50 } else if ch == 2 { 168 } else { 255 }
    }
}

/// Byte `i` of the icon's RGBA data, row by row.
pub open spec fn icon_byte(i: int) -> u8 {
    icon_channel((i / 4) % 32, (i / 4) / 32, i % 4)
}

/// The application icon: 32 x 32 RGBA pixels, row by row.
pub fn icon_rgba() -> (r: Vec<u8>)
    ensures
        r@.len() == ICON_SIZE * ICON_SIZE * 4,
        forall|i: int| 0 <= i < r@.len() ==> #[trigger] r@[i] == icon_byte(i),
{
    let mut pixels: Vec<u8> = Vec::new();
    let mut i: usize = 0;
    while i < ICON_SIZE * ICON_SIZE * 4
        invariant
            i <= ICON_SIZE * ICON_SIZE * 4,
            pixels@.len() == i,
            forall|k: int| 0 <= k < i ==> #[trigger] pixels@[k] == icon_byte(k),
        decreases ICON_SIZE * ICON_SIZE * 4 - i,
    {
        let p = i / 4;
        let x = p % ICON_SIZE;
        let y = p / ICON_SIZE;
        let ch = i % 4;
        let in_border = x >= 2 && x < ICON_SIZE - 2 && y >= 2 && y < ICON_SIZE - 2;
        let in_screen = x >= 6 && x < ICON_SIZE - 6 && y >= 5 && y < 18;
        let v: u8 = if !in_border {
            0
        } else if in_screen {
            if ch == 0 { 144 } else if ch == 1 { 200 } else if ch == 2 { 80 } else { 255 }
        } else {
            if ch == 0 { 88 } else if ch == 1 { 50 } else if ch == 2 { 168 } else { 255 }
        };
        pixels.push(v);
        i = i + 1;
    }
    pixels
}

} // verus!
