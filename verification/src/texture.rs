//! The colourful test pattern that untextured meshes wear.
use vstd::prelude::*;

verus! {

/// The side of the square test texture, in pixels.
pub const UV_DEBUG_TEXTURE_SIZE: u32 = 8;

/// The eight RGBA colours of one row of the pattern.
pub open spec fn palette_spec() -> Seq<u8> {
    seq![
        255u8, 102, 159, 255, 255, 159, 102, 255, 236, 255, 102, 255, 121, 255, 102, 255,
        102, 255, 198, 255, 102, 198, 255, 255, 121, 102, 255, 255, 236, 102, 255, 255,
    ]
}

/// The byte at `i` of row `y`: the palette turned right by `y` pixels.
pub open spec fn texel_byte(y: int, i: int) -> u8 {
    palette_spec()[(i - 4 * y) % 32]
}

fn palette() -> (r: Vec<u8>)
    ensures
        r@ == palette_spec(),
{
    let r = vec![
        255u8, 102, 159, 255, 255, 159, 102, 255, 236, 255, 102, 255, 121, 255, 102, 255,
        102, 255, 198, 255, 102, 198, 255, 255, 121, 102, 255, 255, 236, 102, 255, 255,
    ];
    assert(r@ =~= palette_spec());
    r
}

/// The RGBA bytes of the 8 by 8 test texture, row by row. Row `y` is the
/// palette turned right by `y` pixels, so the colours run diagonally.
pub fn uv_debug_texture_data() -> (data: Vec<u8>)
    ensures
        data.len() == 256,
        forall|y: int, i: int| 0 <= y < 8 && 0 <= i < 32 ==> #[trigger] data@[32 * y + i] == texel_byte(y, i),
{
    let p = palette();
    let mut data: Vec<u8> = Vec::new();
    let mut y: usize = 0;
    while y < 8
        invariant
            y <= 8,
            p@ == palette_spec(),
            data.len() == 32 * y,
            forall|yy: int, i: int| 0 <= yy < y && 0 <= i < 32 ==> #[trigger] data@[32 * yy + i] == texel_byte(yy, i),
        decreases 8 - y,
    {
        let mut i: usize = 0;
        while i < 32
            invariant
                y < 8,
                i <= 32,
                p@ == palette_spec(),
                data.len() == 32 * y + i,
                forall|yy: int, ii: int| 0 <= yy < y && 0 <= ii < 32 ==> #[trigger] data@[32 * yy + ii] == texel_byte(yy, ii),
                forall|ii: int| 0 <= ii < i ==> #[trigger] data@[32 * y + ii] == texel_byte(y as int, ii),
            decreases 32 - i,
        {
            let idx = (i + 32 - 4 * y) % 32;
            assert(idx as int == (i as int - 4 * y as int) % 32);
            data.push(p[idx]);
            proof {
                assert forall|yy: int, ii: int| 0 <= yy < y && 0 <= ii < 32 implies #[trigger] data@[32 * yy + ii] == texel_byte(yy, ii) by {
                    assert(32 * yy + ii < 32 * y);
                }
            }
            i = i + 1;
        }
        y = y + 1;
    }
    data
}

/// Each row of the pattern is the row above it turned right by one pixel.
pub proof fn rows_turn_by_one_pixel(y: int, i: int)
    requires
        0 <= y < 7,
        0 <= i < 32,
    ensures
        texel_byte(y + 1, i) == texel_byte(y, (i - 4) % 32),
{
    assert(((i - 4) % 32 - 4 * y) % 32 == (i - 4 * (y + 1)) % 32) by (nonlinear_arith)
        requires
            0 <= y < 7,
            0 <= i < 32,
    ;
}

} // verus!
