//! The plain-text image framing of the pixel buffer: a P3 header followed
//! by one decimal "R G B" line per pixel, top row first.

use vstd::prelude::*;

use crate::bitmap::le_byte;
use crate::image::Image;

verus! {

/// The character code of the decimal digit `d`.
pub open spec fn digit(d: int) -> u8
    recommends
        0 <= d <= 9,
{
    (0x30 + d) as u8
}

/// The decimal numeral of `n`, most significant digit first.
pub open spec fn decimal(n: int) -> Seq<u8>
    recommends
        n >= 0,
    decreases n,
{
    if n < 10 {
        seq![digit(n)]
    } else {
        decimal(n / 10) + seq![digit(n % 10)]
    }
}

/// One pixel as a text line: its red, green and blue channels in decimal,
/// separated by spaces and ended by a newline.
pub open spec fn ppm_pixel(p: u32) -> Seq<u8> {
    decimal(le_byte(p, 2) as int) + seq![32u8] + decimal(le_byte(p, 1) as int) + seq![32u8]
        + decimal(le_byte(p, 0) as int) + seq![10u8]
}

/// The lines of one buffer row, left to right.
pub open spec fn row_lines(row: Seq<u32>) -> Seq<u8>
    decreases row.len(),
{
    if row.len() == 0 {
        Seq::empty()
    } else {
        row_lines(row.drop_last()) + ppm_pixel(row.last())
    }
}

/// The lines of buffer rows `y - 1` down to `0`, in that order: the stream
/// lists the top row, which is the highest buffer row, first.
pub open spec fn rows_top_down(s: Seq<u32>, w: int, y: int) -> Seq<u8>
    decreases y,
{
    if y <= 0 {
        Seq::empty()
    } else {
        row_lines(s.subrange((y - 1) * w, y * w)) + rows_top_down(s, w, y - 1)
    }
}

/// The P3 header: the magic, the dimensions in decimal, and the maximum
/// channel value 255, each line newline-terminated.
pub open spec fn ppm_header(width: u32, height: u32) -> Seq<u8> {
    seq![80u8, 51u8, 10u8] + decimal(width as int) + seq![32u8] + decimal(height as int) + seq![
        10u8,
        50u8,
        53u8,
        53u8,
        10u8,
    ]
}

fn push_decimal(out: &mut Vec<u8>, n: u32)
    ensures
        final(out)@ == old(out)@ + decimal(n as int),
{
    let mut rev: Vec<u8> = Vec::new();
    let mut m: u32 = n;
    loop
        invariant_except_break
            decimal(n as int) == decimal(m as int) + rev@.reverse(),
        ensures
            decimal(n as int) == rev@.reverse(),
        decreases m,
    {
        let ghost rev0 = rev@;
        let d: u8 = 48 + (m % 10) as u8;
        rev.push(d);
        proof {
            assert(rev@.reverse() =~= seq![d] + rev0.reverse());
            if m < 10 {
                assert(decimal(m as int) == seq![d]);
                assert(decimal(n as int) =~= rev@.reverse());
            } else {
                assert(decimal(m as int) == decimal(m as int / 10) + seq![digit(m as int % 10)]);
                assert(decimal(n as int) =~= decimal(m as int / 10) + rev@.reverse());
            }
        }
        if m < 10 {
            break ;
        }
        m = m / 10;
    }
    proof {
        assert(out@ =~= out@ + rev@.reverse().subrange(0, 0));
    }
    let mut i: usize = rev.len();
    while i > 0
        invariant
            i <= rev@.len(),
            decimal(n as int) == rev@.reverse(),
            out@ == old(out)@ + rev@.reverse().subrange(0, rev@.len() - i),
        decreases i,
    {
        i = i - 1;
        let b: u8 = rev[i];
        out.push(b);
        proof {
            assert(out@ =~= old(out)@ + rev@.reverse().subrange(0, rev@.len() - i));
        }
    }
    proof {
        assert(rev@.reverse().subrange(0, rev@.len() as int) =~= rev@.reverse());
    }
}

fn push_ppm_pixel(out: &mut Vec<u8>, p: u32)
    ensures
        final(out)@ == old(out)@ + ppm_pixel(p),
{
    push_decimal(out, (p / 0x10000) % 256);
    out.push(32);
    push_decimal(out, (p / 0x100) % 256);
    out.push(32);
    push_decimal(out, p % 256);
    out.push(10);
    proof {
        assert(out@ =~= old(out)@ + ppm_pixel(p));
    }
}

impl Image {
    /// Serializes the image as a plain-text P3 stream: the header, then one
    /// "R G B" line per pixel, top row first, left to right within a row.
    pub fn ppm_bytes(&self) -> (bytes: Vec<u8>)
        requires
            self.wf(),
        ensures
            bytes@ == ppm_header(self.width, self.height) + rows_top_down(
                self.pixels@,
                self.width as int,
                self.height as int,
            ),
    {
        let mut out: Vec<u8> = Vec::new();
        out.push(80);
        out.push(51);
        out.push(10);
        push_decimal(&mut out, self.width);
        out.push(32);
        push_decimal(&mut out, self.height);
        out.push(10);
        out.push(50);
        out.push(53);
        out.push(53);
        out.push(10);
        proof {
            assert(out@ =~= ppm_header(self.width, self.height));
        }
        let ghost total = ppm_header(self.width, self.height) + rows_top_down(
            self.pixels@,
            self.width as int,
            self.height as int,
        );
        let mut y: u32 = self.height;
        while y > 0
            invariant
                y <= self.height,
                self.wf(),
                out@ + rows_top_down(self.pixels@, self.width as int, y as int) == total,
            decreases y,
        {
            y = y - 1;
            proof {
                assert(((y as int) * (self.width as int) >= 0) && ((y as int + 1) * (
                self.width as int) == (y as int) * (self.width as int) + (self.width as int)) && ((y
                    as int + 1) * (self.width as int) <= self.pixels@.len())) by (nonlinear_arith)
                    requires
                        0 <= (y as int),
                        (y as int) + 1 <= (self.height as int),
                        self.pixels@.len() == (self.width as int) * (self.height as int),
                ;
            }
            let ghost row = self.pixels@.subrange(
                y as int * self.width as int,
                (y as int + 1) * self.width as int,
            );
            let ghost out_row = out@;
            proof {
                assert(out@ =~= out@ + row_lines(row.subrange(0, 0)));
            }
            let mut x: u32 = 0;
            while x < self.width
                invariant
                    x <= self.width,
                    y < self.height,
                    self.wf(),
                    0 <= y as int * self.width as int,
                    (y as int + 1) * self.width as int == y as int * self.width as int
                        + self.width as int,
                    (y as int + 1) * self.width as int <= self.pixels@.len(),
                    row == self.pixels@.subrange(
                        y as int * self.width as int,
                        (y as int + 1) * self.width as int,
                    ),
                    out@ == out_row + row_lines(row.subrange(0, x as int)),
                decreases self.width - x,
            {
                proof {
                    assert((y as int) * (self.width as int) + (x as int) <= u64::MAX)
                        by (nonlinear_arith)
                        requires
                            0 <= (y as int) && (y as int) <= u32::MAX,
                            0 <= (x as int) && (x as int) <= u32::MAX,
                            self.width <= u32::MAX,
                    ;
                }
                let n: usize = self.pixels.len();
                let idx: u64 = y as u64 * self.width as u64 + x as u64;
                proof {
                    assert(idx < n as u64);
                }
                let p: u32 = self.pixels[idx as usize];
                proof {
                    assert(p == row[x as int]);
                }
                push_ppm_pixel(&mut out, p);
                proof {
                    assert(row.subrange(0, x as int + 1).drop_last() =~= row.subrange(0, x as int));
                    assert(out@ =~= out_row + row_lines(row.subrange(0, x as int + 1)));
                }
                x = x + 1;
            }
            proof {
                assert(row.subrange(0, self.width as int) =~= row);
                assert(rows_top_down(self.pixels@, self.width as int, y as int + 1) == row_lines(
                    row,
                ) + rows_top_down(self.pixels@, self.width as int, y as int));
                assert(out@ + rows_top_down(self.pixels@, self.width as int, y as int) =~= out_row
                    + rows_top_down(self.pixels@, self.width as int, y as int + 1));
            }
        }
        proof {
            assert(out@ =~= out@ + rows_top_down(self.pixels@, self.width as int, 0));
        }
        out
    }
}

} // verus!
