//! Laying a frame buffer out as terminal text: each cell becomes its glyph
//! followed by a space, and each row is closed by a newline.

use vstd::prelude::*;

verus! {

/// The text of row `y` up to column `x`: glyph, space, glyph, space, ...
pub open spec fn row_text(s: Seq<char>, w: int, y: int, x: int) -> Seq<char>
    decreases x,
{
    if x <= 0 {
        Seq::empty()
    } else {
        row_text(s, w, y, x - 1) + seq![s[y * w + (x - 1)], ' ']
    }
}

/// The text of the first `y` rows, each closed by a newline.
pub open spec fn rows_text(s: Seq<char>, w: int, y: int) -> Seq<char>
    decreases y,
{
    if y <= 0 {
        Seq::empty()
    } else {
        rows_text(s, w, y - 1) + row_text(s, w, y - 1, w) + seq!['\n']
    }
}

/// The terminal text of a whole `w` by `h` frame.
pub open spec fn frame_as_text(s: Seq<char>, w: int, h: int) -> Seq<char> {
    rows_text(s, w, h)
}

/// Lays the row-major frame buffer `chars` out as printable text, one space
/// after every cell and one newline after every row.
pub fn frame_text(chars: &Vec<char>, width: u32, height: u32) -> (r: Vec<char>)
    requires
        chars@.len() == width * height,
    ensures
        r@ == frame_as_text(chars@, width as int, height as int),
{
    let total = chars.len();
    let mut out: Vec<char> = Vec::new();
    let mut i: usize = 0;
    let mut y: u32 = 0;
    proof {
        assert(0 * width == 0) by (nonlinear_arith);
    }
    while y < height
        invariant
            y <= height,
            chars@.len() == width * height,
            width * height <= usize::MAX,
            i == y * width,
            out@ == rows_text(chars@, width as int, y as int),
        decreases height - y,
    {
        let mut x: u32 = 0;
        proof {
            assert(out@ + row_text(chars@, width as int, y as int, 0) =~= out@);
        }
        while x < width
            invariant
                x <= width,
                y < height,
                chars@.len() == width * height,
                width * height <= usize::MAX,
                i == y * width + x,
                out@ == rows_text(chars@, width as int, y as int) + row_text(
                    chars@,
                    width as int,
                    y as int,
                    x as int,
                ),
            decreases width - x,
        {
            proof {
                assert((y as int) * width + x < width * height) by (nonlinear_arith)
                    requires
                        0 <= x < width,
                        0 <= y < height,
                ;
            }
            let c = chars[i];
            let ghost before = out@;
            out.push(c);
            out.push(' ');
            proof {
                let w = width as int;
                let yy = y as int;
                assert(row_text(chars@, w, yy, x + 1) =~= row_text(chars@, w, yy, x as int)
                    + seq![chars@[yy * w + x], ' ']);
                assert(out@ =~= rows_text(chars@, w, yy) + row_text(chars@, w, yy, x + 1));
            }
            i = i + 1;
            x = x + 1;
        }
        out.push('\n');
        proof {
            let w = width as int;
            let yy = y as int;
            assert(out@ =~= rows_text(chars@, w, yy + 1));
            assert((yy + 1) * width == yy * width + width) by (nonlinear_arith);
        }
        y = y + 1;
    }
    out
}

} // verus!
