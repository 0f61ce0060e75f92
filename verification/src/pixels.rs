//! An 8-bit RGB raster and the per-pixel transforms that the retouch
//! adjustments are built from.
use vstd::prelude::*;

use crate::skin::is_skin_like;

verus! {

/// One RGB pixel.
#[derive(Clone, Copy, Debug)]
pub struct Rgb {
    pub r: u8,
    pub g: u8,
    pub b: u8,
}

/// The mathematical value of an [`RgbBuffer`]: its size and its channel
/// bytes, row by row, three per pixel.
pub struct ImageView {
    pub width: nat,
    pub height: nat,
    pub data: Seq<u8>,
}

/// Pixel number `p` (counted row by row) of the channel bytes `data`.
pub open spec fn pixel_of(data: Seq<u8>, p: int) -> Rgb {
    Rgb { r: data[3 * p], g: data[3 * p + 1], b: data[3 * p + 2] }
}

/// The number of pixels of an image.
pub open spec fn pixel_count(v: ImageView) -> nat {
    v.width * v.height
}

/// The number of skin-like pixels among the first `n` pixels of `data`.
pub open spec fn skin_pixels_among(data: Seq<u8>, n: int) -> nat
    decreases n,
{
    if n <= 0 {
        0
    } else {
        let q = pixel_of(data, n - 1);
        skin_pixels_among(data, n - 1) + if crate::skin::skin_like(q.r, q.g, q.b) {
            1nat
        } else {
            0nat
        }
    }
}

/// Pixel `p` is stored as three consecutive bytes, red, green, blue, starting at byte
/// `3 * p`; the next pixel starts right after it.
pub proof fn lemma_pixel_layout(data: Seq<u8>, p: int)
    ensures
        pixel_of(data, p).r == data[3 * p],
        pixel_of(data, p).g == data[3 * p + 1],
        pixel_of(data, p).b == data[3 * p + 2],
        pixel_of(data, p + 1).r == data[3 * p + 3],
{
}

/// The skin count of the first `n` pixels lies between 0 and `n`; it is `n` when all of
/// them are skin-like and 0 when none is.
pub proof fn lemma_skin_pixels_among_bounds(data: Seq<u8>, n: int)
    requires
        0 <= n,
    ensures
        skin_pixels_among(data, n) <= n,
        (forall|p: int|
            0 <= p < n ==> #[trigger] crate::skin::skin_like(
                pixel_of(data, p).r,
                pixel_of(data, p).g,
                pixel_of(data, p).b,
            )) ==> skin_pixels_among(data, n) == n,
        (forall|p: int|
            0 <= p < n ==> !#[trigger] crate::skin::skin_like(
                pixel_of(data, p).r,
                pixel_of(data, p).g,
                pixel_of(data, p).b,
            )) ==> skin_pixels_among(data, n) == 0,
    decreases n,
{
    if n > 0 {
        lemma_skin_pixels_among_bounds(data, n - 1);
        let q = pixel_of(data, n - 1);
        assert(crate::skin::skin_like(q.r, q.g, q.b) == crate::skin::skin_like(
            pixel_of(data, n - 1).r,
            pixel_of(data, n - 1).g,
            pixel_of(data, n - 1).b,
        ));
    }
}

/// The number of whole steps of `step` that start below `len`: `ceil(len / step)`.
pub open spec fn steps_below(len: int, step: int) -> int {
    (len + step - 1) / step
}

proof fn lemma_steps_below(len: int, step: int, c: int)
    requires
        0 <= len,
        0 < step,
        0 <= c,
    ensures
        c < steps_below(len, step) <==> c * step < len,
        0 <= steps_below(len, step),
        steps_below(len, step) * step < len + step,
{
    let q = steps_below(len, step);
    vstd::arithmetic::div_mod::lemma_fundamental_div_mod(len + step - 1, step);
    let r = (len + step - 1) % step;
    assert(len + step - 1 == step * q + r);
    assert(0 <= r < step);
    if c < q {
        assert(c * step <= (q - 1) * step) by (nonlinear_arith)
            requires
                c <= q - 1,
                0 < step,
        ;
        assert((q - 1) * step == step * q - step) by (nonlinear_arith);
    } else {
        assert(c * step >= q * step) by (nonlinear_arith)
            requires
                c >= q,
                0 < step,
        ;
        assert(q * step == step * q) by (nonlinear_arith);
    }
    assert(q >= 0) by (nonlinear_arith)
        requires
            len + step - 1 == step * q + r,
            0 <= r < step,
            0 <= len,
            0 < step,
    ;
    assert(q * step == step * q) by (nonlinear_arith);
}

/// An image of `width` by `height` pixels, its channels stored row by row.
pub struct RgbBuffer {
    width: u32,
    height: u32,
    data: Vec<u8>,
}

impl View for RgbBuffer {
    type V = ImageView;

    closed spec fn view(&self) -> ImageView {
        ImageView { width: self.width as nat, height: self.height as nat, data: self.data@ }
    }
}

proof fn lemma_pixel_in_range(width: int, height: int, x: int, y: int)
    requires
        0 <= x < width,
        0 <= y < height,
    ensures
        0 <= y * width + x < width * height,
{
    assert((y + 1) * width <= height * width) by (nonlinear_arith)
        requires
            0 <= y < height,
            0 <= width,
    ;
    assert(y * width + x < (y + 1) * width) by (nonlinear_arith)
        requires
            0 <= x < width,
    ;
    assert(0 <= y * width) by (nonlinear_arith)
        requires
            0 <= y,
            0 <= width,
    ;
}

impl RgbBuffer {
    #[verifier::type_invariant]
    closed spec fn inv(self) -> bool {
        self.data@.len() == (self.width as nat) * (self.height as nat) * 3
    }

    /// The image of `width` by `height` pixels whose channel bytes are `data`, or
    /// `None` where `data` does not hold three bytes per pixel.
    pub fn from_raw(width: u32, height: u32, data: Vec<u8>) -> (res: Option<RgbBuffer>)
        ensures
            match res {
                Some(image) => image@ == ImageView {
                    width: width as nat,
                    height: height as nat,
                    data: data@,
                },
                None => data@.len() != (width as nat) * (height as nat) * 3,
            },
    {
        assert((width as u128) * (height as u128) <= 0xffff_ffff * 0xffff_ffff) by (nonlinear_arith)
            requires
                width <= 0xffff_ffff,
                height <= 0xffff_ffff,
        ;
        let wanted: u128 = (width as u128) * (height as u128) * 3;
        if (data.len() as u128) == wanted {
            Some(RgbBuffer { width, height, data })
        } else {
            None
        }
    }

    /// The channel bytes of the image, row by row.
    pub fn into_raw(self) -> (res: Vec<u8>)
        ensures
            res@ == self@.data,
    {
        self.data
    }

    pub fn width(&self) -> (res: u32)
        ensures
            res == self@.width,
    {
        self.width
    }

    pub fn height(&self) -> (res: u32)
        ensures
            res == self@.height,
    {
        self.height
    }

    /// The pixel in column `x` of row `y`.
    pub fn pixel(&self, x: u32, y: u32) -> (res: Rgb)
        requires
            x < self@.width,
            y < self@.height,
        ensures
            res == pixel_of(self@.data, y * self@.width + x),
    {
        proof {
            use_type_invariant(self);
            lemma_pixel_in_range(self.width as int, self.height as int, x as int, y as int);
            assert(0 <= y * self.width <= y * self.width + x) by (nonlinear_arith)
                requires
                    0 <= x,
                    0 <= y,
                    0 <= self.width,
            ;
            assert((y * self.width + x) * 3 + 2 < self.data@.len());
        }
        let n = self.data.len();
        let yy = y as usize;
        let ww = self.width as usize;
        assert(yy * ww == y * self.width);
        assert(yy * ww + x < self.data@.len());
        let p: usize = yy * ww + (x as usize);
        let i: usize = 3 * p;
        Rgb { r: self.data[i], g: self.data[i + 1], b: self.data[i + 2] }
    }

    /// The image in which every channel byte `v` at byte position `i` becomes
    /// `f(i % 3, v)`: `f` sees the channel (0 red, 1 green, 2 blue) and its value.
    pub fn map_channels<F: Fn(usize, u8) -> u8>(&self, f: F) -> (res: RgbBuffer)
        requires
            forall|c: usize, v: u8| f.requires((c, v)),
        ensures
            res@.width == self@.width,
            res@.height == self@.height,
            res@.data.len() == self@.data.len(),
            forall|i: int|
                0 <= i < self@.data.len() ==> f.ensures(
                    ((i % 3) as usize, self@.data[i]),
                    #[trigger] res@.data[i],
                ),
    {
        proof {
            use_type_invariant(self);
        }
        let n = self.data.len();
        let mut out: Vec<u8> = Vec::with_capacity(n);
        for i in 0..n
            invariant
                n == self.data@.len(),
                out@.len() == i,
                forall|c: usize, v: u8| f.requires((c, v)),
                forall|j: int|
                    0 <= j < i ==> f.ensures(((j % 3) as usize, self.data@[j]), #[trigger] out@[j]),
        {
            let value = f(i % 3, self.data[i]);
            out.push(value);
        }
        RgbBuffer { width: self.width, height: self.height, data: out }
    }

    /// The image in which every pixel `q` becomes `f(q)`.
    pub fn map_pixels<F: Fn(Rgb) -> Rgb>(&self, f: F) -> (res: RgbBuffer)
        requires
            forall|q: Rgb| f.requires((q,)),
        ensures
            res@.width == self@.width,
            res@.height == self@.height,
            res@.data.len() == self@.data.len(),
            forall|p: int|
                0 <= p < pixel_count(self@) ==> f.ensures(
                    (pixel_of(self@.data, p),),
                    #[trigger] pixel_of(res@.data, p),
                ),
    {
        proof {
            use_type_invariant(self);
        }
        let n = self.data.len();
        let count = n / 3;
        let mut out: Vec<u8> = Vec::with_capacity(n);
        for p in 0..count
            invariant
                n == self.data@.len(),
                count * 3 == n,
                out@.len() == 3 * p,
                forall|q: Rgb| f.requires((q,)),
                forall|j: int|
                    0 <= j < p ==> f.ensures(
                        (pixel_of(self.data@, j),),
                        #[trigger] pixel_of(out@, j),
                    ),
        {
            let i = 3 * p;
            let q = f(Rgb { r: self.data[i], g: self.data[i + 1], b: self.data[i + 2] });
            let ghost before = out@;
            out.push(q.r);
            out.push(q.g);
            out.push(q.b);
            proof {
                assert forall|j: int| 0 <= j < p + 1 implies f.ensures(
                    (pixel_of(self.data@, j),),
                    #[trigger] pixel_of(out@, j),
                ) by {
                    if j < p {
                        assert(pixel_of(out@, j) == pixel_of(before, j));
                    }
                }
            }
        }
        RgbBuffer { width: self.width, height: self.height, data: out }
    }
    /// The image in which the pixel in column `x` of row `y`, `q`, becomes `f(x, y, q)`;
    /// pixel number `p` lies in column `p % width` of row `p / width`.
    pub fn map_pixels_at<F: Fn(u32, u32, Rgb) -> Rgb>(&self, f: F) -> (res: RgbBuffer)
        requires
            forall|x: u32, y: u32, q: Rgb| f.requires((x, y, q)),
        ensures
            res@.width == self@.width,
            res@.height == self@.height,
            res@.data.len() == self@.data.len(),
            forall|p: int|
                0 <= p < pixel_count(self@) ==> f.ensures(
                    ((p % (self@.width as int)) as u32, (p / (self@.width as int)) as u32, pixel_of(self@.data, p)),
                    #[trigger] pixel_of(res@.data, p),
                ),
    {
        proof {
            use_type_invariant(self);
        }
        let n = self.data.len();
        let count = n / 3;
        let width = self.width as usize;
        let mut out: Vec<u8> = Vec::with_capacity(n);
        for p in 0..count
            invariant
                n == self.data@.len(),
                count * 3 == n,
                count == (self.width as nat) * (self.height as nat),
                width == self.width,
                out@.len() == 3 * p,
                forall|x: u32, y: u32, q: Rgb| f.requires((x, y, q)),
                forall|j: int|
                    0 <= j < p ==> f.ensures(
                        ((j % (self.width as int)) as u32, (j / (self.width as int)) as u32, pixel_of(self.data@, j)),
                        #[trigger] pixel_of(out@, j),
                    ),
        {
            proof {
                assert(width > 0 && (p as int) / (width as int) < self.height) by (nonlinear_arith)
                    requires
                        0 <= p < count,
                        count == width * self.height,
                        0 <= width,
                ;
            }
            let x = (p % width) as u32;
            let y = (p / width) as u32;
            let i = 3 * p;
            let q = f(x, y, Rgb { r: self.data[i], g: self.data[i + 1], b: self.data[i + 2] });
            let ghost before = out@;
            out.push(q.r);
            out.push(q.g);
            out.push(q.b);
            proof {
                assert forall|j: int| 0 <= j < p + 1 implies f.ensures(
                    ((j % (self.width as int)) as u32, (j / (self.width as int)) as u32, pixel_of(self.data@, j)),
                    #[trigger] pixel_of(out@, j),
                ) by {
                    if j < p {
                        assert(pixel_of(out@, j) == pixel_of(before, j));
                    }
                }
            }
        }
        RgbBuffer { width: self.width, height: self.height, data: out }
    }

    /// The image in which every pixel `q` becomes `f(q, q2)`, where `q2` is the pixel at
    /// the same place in `other`.
    pub fn map_pixels_with<F: Fn(Rgb, Rgb) -> Rgb>(&self, other: &RgbBuffer, f: F) -> (res: RgbBuffer)
        requires
            other@.width == self@.width,
            other@.height == self@.height,
            forall|q: Rgb, q2: Rgb| f.requires((q, q2)),
        ensures
            res@.width == self@.width,
            res@.height == self@.height,
            res@.data.len() == self@.data.len(),
            forall|p: int|
                0 <= p < pixel_count(self@) ==> f.ensures(
                    (pixel_of(self@.data, p), pixel_of(other@.data, p)),
                    #[trigger] pixel_of(res@.data, p),
                ),
    {
        proof {
            use_type_invariant(self);
            use_type_invariant(other);
        }
        let n = self.data.len();
        let count = n / 3;
        let mut out: Vec<u8> = Vec::with_capacity(n);
        for p in 0..count
            invariant
                n == self.data@.len(),
                n == other.data@.len(),
                count * 3 == n,
                out@.len() == 3 * p,
                forall|q: Rgb, q2: Rgb| f.requires((q, q2)),
                forall|j: int|
                    0 <= j < p ==> f.ensures(
                        (pixel_of(self.data@, j), pixel_of(other.data@, j)),
                        #[trigger] pixel_of(out@, j),
                    ),
        {
            let i = 3 * p;
            let q = f(
                Rgb { r: self.data[i], g: self.data[i + 1], b: self.data[i + 2] },
                Rgb { r: other.data[i], g: other.data[i + 1], b: other.data[i + 2] },
            );
            let ghost before = out@;
            out.push(q.r);
            out.push(q.g);
            out.push(q.b);
            proof {
                assert forall|j: int| 0 <= j < p + 1 implies f.ensures(
                    (pixel_of(self.data@, j), pixel_of(other.data@, j)),
                    #[trigger] pixel_of(out@, j),
                ) by {
                    if j < p {
                        assert(pixel_of(out@, j) == pixel_of(before, j));
                    }
                }
            }
        }
        RgbBuffer { width: self.width, height: self.height, data: out }
    }
    /// The image in which every skin-like pixel `q` becomes `f(q)` and every other pixel
    /// stays, with the number of skin-like pixels.
    pub fn map_skin_pixels<F: Fn(Rgb) -> Rgb>(&self, f: F) -> (res: (RgbBuffer, u64))
        requires
            forall|q: Rgb| f.requires((q,)),
        ensures
            res.0@.width == self@.width,
            res.0@.height == self@.height,
            res.0@.data.len() == self@.data.len(),
            res.1 == skin_pixels_among(self@.data, pixel_count(self@) as int),
            forall|p: int|
                0 <= p < pixel_count(self@) ==> {
                    let q = pixel_of(self@.data, p);
                    if crate::skin::skin_like(q.r, q.g, q.b) {
                        f.ensures((q,), #[trigger] pixel_of(res.0@.data, p))
                    } else {
                        pixel_of(res.0@.data, p) == q
                    }
                },
    {
        proof {
            use_type_invariant(self);
        }
        let n = self.data.len();
        let count = n / 3;
        let mut skin: u64 = 0;
        let mut out: Vec<u8> = Vec::with_capacity(n);
        for p in 0..count
            invariant
                n == self.data@.len(),
                count * 3 == n,
                out@.len() == 3 * p,
                skin == skin_pixels_among(self.data@, p as int),
                skin <= p,
                forall|q: Rgb| f.requires((q,)),
                forall|j: int|
                    0 <= j < p ==> {
                        let q = pixel_of(self.data@, j);
                        if crate::skin::skin_like(q.r, q.g, q.b) {
                            f.ensures((q,), #[trigger] pixel_of(out@, j))
                        } else {
                            pixel_of(out@, j) == q
                        }
                    },
        {
            let i = 3 * p;
            let q = Rgb { r: self.data[i], g: self.data[i + 1], b: self.data[i + 2] };
            let ghost before = out@;
            let next = if is_skin_like(q.r, q.g, q.b) {
                skin = skin + 1;
                f(q)
            } else {
                q
            };
            out.push(next.r);
            out.push(next.g);
            out.push(next.b);
            proof {
                assert forall|j: int| 0 <= j < p + 1 implies {
                    let q = pixel_of(self.data@, j);
                    if crate::skin::skin_like(q.r, q.g, q.b) {
                        f.ensures((q,), #[trigger] pixel_of(out@, j))
                    } else {
                        pixel_of(out@, j) == q
                    }
                } by {
                    if j < p {
                        assert(pixel_of(out@, j) == pixel_of(before, j));
                    }
                }
            }
        }
        (RgbBuffer { width: self.width, height: self.height, data: out }, skin)
    }

    /// The pixels at every `step`-th column of every `step`-th row, starting at column 0
    /// of row 0, row by row: sample `j` is the pixel in column `(j % cols) * step` of
    /// row `(j / cols) * step`, where `cols` is the number of sampled columns.
    pub fn sample_grid(&self, step: u32) -> (res: Vec<Rgb>)
        requires
            step > 0,
        ensures
            res@.len() == steps_below(self@.height as int, step as int) * steps_below(
                self@.width as int,
                step as int,
            ),
            forall|j: int|
                0 <= j < res@.len() ==> {
                    let cols = steps_below(self@.width as int, step as int);
                    #[trigger] res@[j] == pixel_of(
                        self@.data,
                        ((j / cols) * step) * self@.width + (j % cols) * step,
                    )
                },
    {
        let ghost w = self@.width as int;
        let ghost h = self@.height as int;
        let ghost s = step as int;
        let ghost cols = steps_below(w, s);
        let ghost rows = steps_below(h, s);
        proof {
            lemma_steps_below(w, s, 0);
            lemma_steps_below(h, s, 0);
        }
        let width = self.width as u64;
        let height = self.height as u64;
        let step64 = step as u64;
        let mut out: Vec<Rgb> = Vec::new();
        let mut y: u64 = 0;
        let ghost mut row: int = 0;
        while y < height
            invariant
                w == self@.width,
                h == self@.height,
                width == w,
                height == h,
                step64 == s,
                0 < s,
                s <= 0xffff_ffff,
                w <= 0xffff_ffff,
                h <= 0xffff_ffff,
                cols == steps_below(w, s),
                rows == steps_below(h, s),
                0 <= cols,
                0 <= row <= rows,
                y == row * s,
                y <= h + s,
                out@.len() == row * cols,
                forall|j: int|
                    0 <= j < out@.len() ==> #[trigger] out@[j] == pixel_of(
                        self@.data,
                        ((j / cols) * s) * w + (j % cols) * s,
                    ),
            decreases h + s - y,
        {
            proof {
                lemma_steps_below(h, s, row);
            }
            let mut x: u64 = 0;
            let ghost mut col: int = 0;
            while x < width
                invariant
                    w == self@.width,
                    h == self@.height,
                    width == w,
                    height == h,
                    step64 == s,
                    0 < s,
                    s <= 0xffff_ffff,
                    w <= 0xffff_ffff,
                    h <= 0xffff_ffff,
                    cols == steps_below(w, s),
                    0 <= row < rows,
                    y == row * s,
                    y < h,
                    0 <= col <= cols,
                    x == col * s,
                    x <= w + s,
                    out@.len() == row * cols + col,
                    forall|j: int|
                        0 <= j < out@.len() ==> #[trigger] out@[j] == pixel_of(
                            self@.data,
                            ((j / cols) * s) * w + (j % cols) * s,
                        ),
                decreases w + s - x,
            {
                proof {
                    lemma_steps_below(w, s, col);
                }
                let q = self.pixel(x as u32, y as u32);
                proof {
                    let j = row * cols + col;
                    vstd::arithmetic::div_mod::lemma_fundamental_div_mod_converse(j, cols, row, col);
                    assert(row * cols == cols * row) by (nonlinear_arith);
                }
                out.push(q);
                x = x + step64;
                proof {
                    col = col + 1;
                    assert(x == col * s) by (nonlinear_arith)
                        requires
                            x == (col - 1) * s + s,
                    ;
                    lemma_steps_below(w, s, col - 1);
                }
            }
            proof {
                lemma_steps_below(w, s, col);
                assert(col == cols);
            }
            y = y + step64;
            proof {
                row = row + 1;
                assert(y == row * s) by (nonlinear_arith)
                    requires
                        y == (row - 1) * s + s,
                ;
                assert(out@.len() == row * cols) by (nonlinear_arith)
                    requires
                        out@.len() == (row - 1) * cols + cols,
                ;
            }
        }
        proof {
            lemma_steps_below(h, s, row);
        }
        out
    }
}

} // verus!
