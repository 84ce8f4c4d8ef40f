use vstd::prelude::*;
use vstd::string::*;

use crate::output::ImageGenerator;

verus! {

/// A pixel buffer written out in the plain-text PPM format: a header
/// `P3\n{width} {height}\n255\n` followed by one `R G B` line per pixel, top
/// row first.
pub struct PPMGenerator {
    width: u32,
    height: u32,
    pixel_array: Vec<(u8, u8, u8)>,
}

/// Position in the row-major, top-row-first storage of the pixel `(x, y)`,
/// where `y` counts rows from the bottom.
pub open spec fn storage_index(width: int, height: int, x: int, y: int) -> int {
    x + (height - 1 - y) * width
}

/// The character of a decimal digit.
pub open spec fn digit_char(d: nat) -> char {
    if d == 0 {
        '0'
    } else if d == 1 {
        '1'
    } else if d == 2 {
        '2'
    } else if d == 3 {
        '3'
    } else if d == 4 {
        '4'
    } else if d == 5 {
        '5'
    } else if d == 6 {
        '6'
    } else if d == 7 {
        '7'
    } else if d == 8 {
        '8'
    } else {
        '9'
    }
}

/// The decimal notation of `n`, without leading zeros.
pub open spec fn decimal(n: nat) -> Seq<char>
    decreases n,
{
    if n < 10 {
        seq![digit_char(n)]
    } else {
        decimal(n / 10) + seq![digit_char(n % 10)]
    }
}

/// `P3\n{width} {height}\n255\n`
pub open spec fn ppm_header(width: nat, height: nat) -> Seq<char> {
    seq!['P', '3', '\n'] + decimal(width) + seq![' '] + decimal(height) + seq![
        '\n',
        '2',
        '5',
        '5',
        '\n',
    ]
}

/// `R G B\n`
pub open spec fn ppm_pixel_line(c: (u8, u8, u8)) -> Seq<char> {
    decimal(c.0 as nat) + seq![' '] + decimal(c.1 as nat) + seq![' '] + decimal(c.2 as nat) + seq![
        '\n',
    ]
}

/// One line per pixel, in storage order.
pub open spec fn ppm_body(pixels: Seq<(u8, u8, u8)>) -> Seq<char>
    decreases pixels.len(),
{
    if pixels.len() == 0 {
        Seq::empty()
    } else {
        ppm_body(pixels.drop_last()) + ppm_pixel_line(pixels.last())
    }
}

/// The whole PPM text of an image with the given storage.
pub open spec fn ppm_text(width: nat, height: nat, pixels: Seq<(u8, u8, u8)>) -> Seq<char> {
    ppm_header(width, height) + ppm_body(pixels)
}

proof fn lemma_index_in_bounds(w: int, h: int, x: int, y: int)
    requires
        0 <= x < w,
        0 <= y < h,
    ensures
        0 <= storage_index(w, h, x, y) < w * h,
{
    assert(0 <= (h - 1 - y) * w) by (nonlinear_arith)
        requires
            0 <= h - 1 - y,
            0 <= w,
    ;
    assert((h - 1 - y) * w + w <= h * w) by (nonlinear_arith)
        requires
            h - 1 - y <= h - 1,
            0 <= w,
    ;
    assert(h * w == w * h) by (nonlinear_arith);
}

proof fn lemma_index_injective(w: int, h: int, x1: int, y1: int, x2: int, y2: int)
    requires
        0 <= x1 < w,
        0 <= y1 < h,
        0 <= x2 < w,
        0 <= y2 < h,
        storage_index(w, h, x1, y1) == storage_index(w, h, x2, y2),
    ensures
        x1 == x2 && y1 == y2,
{
    let r1 = h - 1 - y1;
    let r2 = h - 1 - y2;
    assert(x1 + r1 * w == x2 + r2 * w);
    if r1 < r2 {
        assert(r1 * w + w <= r2 * w) by (nonlinear_arith)
            requires
                r1 + 1 <= r2,
                0 <= w,
        ;
    } else if r2 < r1 {
        assert(r2 * w + w <= r1 * w) by (nonlinear_arith)
            requires
                r2 + 1 <= r1,
                0 <= w,
        ;
    }
}

/// The text of one decimal digit.
fn digit_str(d: u32) -> (r: &'static str)
    requires
        d < 10,
    ensures
        r@ == seq![digit_char(d as nat)],
{
    proof {
        reveal_strlit("0");
        reveal_strlit("1");
        reveal_strlit("2");
        reveal_strlit("3");
        reveal_strlit("4");
        reveal_strlit("5");
        reveal_strlit("6");
        reveal_strlit("7");
        reveal_strlit("8");
        reveal_strlit("9");
    }
    if d == 0 {
        "0"
    } else if d == 1 {
        "1"
    } else if d == 2 {
        "2"
    } else if d == 3 {
        "3"
    } else if d == 4 {
        "4"
    } else if d == 5 {
        "5"
    } else if d == 6 {
        "6"
    } else if d == 7 {
        "7"
    } else if d == 8 {
        "8"
    } else {
        "9"
    }
}

/// Appends the decimal notation of `n` to `out`.
fn push_decimal(out: &mut String, n: u32)
    ensures
        final(out)@ == old(out)@ + decimal(n as nat),
    decreases n,
{
    if n >= 10 {
        push_decimal(out, n / 10);
    }
    let d = digit_str(n % 10);
    out.append(d);
    assert(out@ =~= old(out)@ + decimal(n as nat));
}

impl PPMGenerator {
    /// The pixels in storage order: rows from the top, each row from the left.
    pub closed spec fn pixels(&self) -> Seq<(u8, u8, u8)> {
        self.pixel_array@
    }

    /// How pixels are laid out in storage: row-major, top row first.
    pub proof fn lemma_storage_layout(&self)
        requires
            self.wf(),
        ensures
            self.pixels().len() == self.size().0 * self.size().1,
            forall|x: int, y: int|
                0 <= x < self.size().0 && 0 <= y < self.size().1 ==> {
                    let i = storage_index(self.size().0 as int, self.size().1 as int, x, y);
                    &&& 0 <= i < self.pixels().len()
                    &&& #[trigger] self.pixel(x, y) == self.pixels()[i]
                },
    {
        assert forall|x: int, y: int| 0 <= x < self.size().0 && 0 <= y < self.size().1 implies 0
            <= #[trigger] storage_index(self.size().0 as int, self.size().1 as int, x, y)
            < self.pixels().len() by {
            lemma_index_in_bounds(self.width as int, self.height as int, x, y);
        }
    }

    /// The PPM text of the image.
    pub fn to_string(&self) -> (r: String)
        requires
            self.wf(),
        ensures
            r@ == ppm_text(self.size().0 as nat, self.size().1 as nat, self.pixels()),
    {
        proof {
            reveal_strlit("P3\n");
            reveal_strlit(" ");
            reveal_strlit("\n255\n");
            reveal_strlit("\n");
        }
        let mut out = String::from_str("P3\n");
        push_decimal(&mut out, self.width);
        out.append(" ");
        push_decimal(&mut out, self.height);
        out.append("\n255\n");
        assert(out@ =~= ppm_header(self.width as nat, self.height as nat));
        let n = self.pixel_array.len();
        let mut i: usize = 0;
        while i < n
            invariant
                n == self.pixel_array@.len(),
                0 <= i <= n,
                out@ == ppm_header(self.width as nat, self.height as nat) + ppm_body(
                    self.pixel_array@.take(i as int),
                ),
            decreases n - i,
        {
            proof {
                reveal_strlit(" ");
                reveal_strlit("\n");
            }
            let c = self.pixel_array[i];
            let ghost before = out@;
            push_decimal(&mut out, c.0 as u32);
            out.append(" ");
            push_decimal(&mut out, c.1 as u32);
            out.append(" ");
            push_decimal(&mut out, c.2 as u32);
            out.append("\n");
            proof {
                let s = self.pixel_array@;
                assert(s.take(i as int + 1).drop_last() =~= s.take(i as int));
                assert(s.take(i as int + 1).last() == c);
                assert(out@ =~= before + ppm_pixel_line(c));
            }
            i = i + 1;
        }
        assert(self.pixel_array@.take(n as int) =~= self.pixel_array@);
        out
    }
}

impl ImageGenerator for PPMGenerator {
    closed spec fn wf(&self) -> bool {
        self.pixel_array@.len() == self.width * self.height && self.width * self.height
            <= u32::MAX
    }

    closed spec fn size(&self) -> (u32, u32) {
        (self.width, self.height)
    }

    closed spec fn pixel(&self, x: int, y: int) -> (u8, u8, u8) {
        self.pixel_array@[storage_index(self.width as int, self.height as int, x, y)]
    }

    fn new(size: (u32, u32)) -> (r: PPMGenerator) {
        let n = size.0 * size.1;
        let mut array: Vec<(u8, u8, u8)> = Vec::new();
        let mut i: u32 = 0;
        while i < n
            invariant
                i <= n,
                array@.len() == i,
                forall|j: int| 0 <= j < i ==> array@[j] == (0u8, 0u8, 0u8),
            decreases n - i,
        {
            array.push((0u8, 0u8, 0u8));
            i = i + 1;
        }
        assert forall|x: int, y: int| 0 <= x < size.0 && 0 <= y < size.1 implies array@[
            storage_index(size.0 as int, size.1 as int, x, y)] == (0u8, 0u8, 0u8) by {
            lemma_index_in_bounds(size.0 as int, size.1 as int, x, y);
        }
        PPMGenerator { width: size.0, height: size.1, pixel_array: array }
    }

    fn set_pixel(&mut self, coord: (u32, u32), color: (u8, u8, u8)) {
        proof {
            lemma_index_in_bounds(
                self.width as int,
                self.height as int,
                coord.0 as int,
                coord.1 as int,
            );
        }
        let index = coord.0 + (self.height - 1 - coord.1) * self.width;
        self.pixel_array.set(index as usize, color);
        assert forall|x: int, y: int|
            0 <= x < self.width && 0 <= y < self.height && (x != coord.0 || y != coord.1) implies
            #[trigger] self.pixel(x, y) == old(self).pixel(x, y) by {
            lemma_index_in_bounds(self.width as int, self.height as int, x, y);
            if storage_index(self.width as int, self.height as int, x, y) == index {
                lemma_index_injective(
                    self.width as int,
                    self.height as int,
                    x,
                    y,
                    coord.0 as int,
                    coord.1 as int,
                );
            }
        }
    }
}

} // verus!
