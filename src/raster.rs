//! The pixel grid that a render walks.
use vstd::prelude::*;

verus! {

/// The pixel at position `k` of the walk over a grid `height` pixels tall:
/// column by column, top to bottom within a column.
pub open spec fn grid_pixel(k: int, height: u32) -> (u32, u32) {
    ((k / height as int) as u32, (k % height as int) as u32)
}

/// Every pixel `(x, y)` with `x < width` and `y < height`, column by column:
/// all of column 0 first, in increasing `y`, then column 1, and so on.
pub fn pixel_grid(width: u32, height: u32) -> (pixels: Vec<(u32, u32)>)
    requires
        width as int * height as int <= usize::MAX,
    ensures
        pixels@.len() == width as int * height as int,
        forall|k: int| 0 <= k < pixels@.len() ==> #[trigger] pixels@[k] == grid_pixel(k, height),
{
    let mut pixels: Vec<(u32, u32)> = Vec::new();
    let mut x: u32 = 0;
    while x < width
        invariant
            x <= width,
            width as int * height as int <= usize::MAX,
            pixels@.len() == x as int * height as int,
            forall|k: int| 0 <= k < pixels@.len() ==> #[trigger] pixels@[k] == grid_pixel(k, height),
        decreases width - x,
    {
        let mut y: u32 = 0;
        while y < height
            invariant
                x < width,
                y <= height,
                width as int * height as int <= usize::MAX,
                pixels@.len() == x as int * height as int + y,
                forall|k: int| 0 <= k < pixels@.len() ==> #[trigger] pixels@[k] == grid_pixel(k, height),
            decreases height - y,
        {
            proof {
                let k = x as int * height as int + y;
                assert(k / height as int == x as int && k % height as int == y as int) by (nonlinear_arith)
                    requires
                        k == x as int * height as int + y,
                        0 <= y < height,
                ;
            }
            pixels.push((x, y));
            y = y + 1;
        }
        proof {
            assert((x as int + 1) * height as int == x as int * height as int + height as int) by (nonlinear_arith);
        }
        x = x + 1;
    }
    pixels
}

} // verus!
