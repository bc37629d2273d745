//! The pixel buffer behind the LED matrix: a fixed grid of colours,
//! addressed in display coordinates. The physical matrix is wired
//! mirrored in `x`, which the index arithmetic here accounts for.

use vstd::prelude::*;
use vstd::arithmetic::div_mod::lemma_fundamental_div_mod_converse;

verus! {

/// One pixel's colour, eight bits per channel.
#[derive(Clone, Copy, Debug, PartialEq, Eq, Structural)]
pub struct Rgb8 {
    pub r: u8,
    pub g: u8,
    pub b: u8,
}

impl Rgb8 {
    /// Black: all channels off.
    pub fn off() -> (c: Rgb8)
        ensures
            c == (Rgb8 { r: 0, g: 0, b: 0 }),
    {
        Rgb8 { r: 0, g: 0, b: 0 }
    }
}

/// The number of cells an `X` by `Y` buffer holds.
pub fn buffer_full_size<const X: usize, const Y: usize>() -> (r: usize)
    requires
        X * Y <= usize::MAX,
    ensures
        r == X * Y,
{
    X * Y
}

/// Where the cell read for display coordinate `(x, y)` lives: the row is
/// kept, the column is mirrored.
pub open spec fn get_index<const X: usize>(x: int, y: int) -> int {
    y * X + (X - 1 - x)
}

/// Where a write to display coordinate `(x, y)` lands: both the row and
/// the column are mirrored.
pub open spec fn set_index<const X: usize, const Y: usize>(x: int, y: int) -> int {
    (Y - 1 - y) * X + (X - 1 - x)
}

/// An `X` by `Y` grid of colours, stored row by row.
pub struct Buffer<const X: usize, const Y: usize> {
    cells: Vec<Rgb8>,
}

impl<const X: usize, const Y: usize> View for Buffer<X, Y> {
    type V = Seq<Rgb8>;

    closed spec fn view(&self) -> Seq<Rgb8> {
        self.cells@
    }
}

impl<const X: usize, const Y: usize> Buffer<X, Y> {
    /// The grid always holds exactly one cell per pixel.
    pub open spec fn wf(&self) -> bool {
        self@.len() == X * Y
    }

    /// The colour read for display coordinate `(x, y)`.
    pub fn get(&self, x: usize, y: usize) -> (c: Rgb8)
        requires
            self.wf(),
            x < X,
            y < Y,
            X * Y <= usize::MAX,
        ensures
            c == self@[get_index::<X>(x as int, y as int)],
    {
        proof {
            lemma_cell_index_in_range::<X, Y>(X - 1 - x as int, y as int);
        }
        self.cells[y * X + (X - 1 - x)]
    }

    /// Colour display coordinate `(x, y)`.
    pub fn set(&mut self, x: usize, y: usize, rgb: Rgb8)
        requires
            old(self).wf(),
            x < X,
            y < Y,
            X * Y <= usize::MAX,
        ensures
            final(self).wf(),
            final(self)@ == old(self)@.update(set_index::<X, Y>(x as int, y as int), rgb),
    {
        proof {
            lemma_cell_index_in_range::<X, Y>(X - 1 - x as int, Y - 1 - y as int);
        }
        self.cells.set((Y - 1 - y) * X + (X - 1 - x), rgb);
    }

    /// Write the grid out as one continuous run of LEDs: the cell read
    /// for each display coordinate lands at the strip position its
    /// mapping entry names. The mapping pairs every display coordinate
    /// with its own strip position, the way the matrix is wired.
    pub fn render_to_continuous_buffer(&self, mapping: &[usize], out: &mut Vec<Rgb8>)
        requires
            self.wf(),
            X * Y <= usize::MAX,
            mapping@.len() == X * Y,
            old(out)@.len() == X * Y,
            forall|k: int| 0 <= k < mapping@.len() ==> #[trigger] mapping@[k] < X * Y,
            forall|k: int, m: int|
                #![trigger mapping@[k], mapping@[m]]
                0 <= k < m < mapping@.len() ==> mapping@[k] != mapping@[m],
        ensures
            final(out)@.len() == X * Y,
            forall|x: int, y: int|
                #![trigger get_index::<X>(x, y)]
                0 <= x < X && 0 <= y < Y ==> final(out)@[mapping@[y * X + x] as int]
                    == self@[get_index::<X>(x, y)],
    {
        let total = X * Y;
        let mut k: usize = 0;
        while k < total
            invariant
                k <= total,
                total == X * Y,
                X * Y <= usize::MAX,
                self.wf(),
                mapping@.len() == X * Y,
                out@.len() == X * Y,
                forall|j: int| 0 <= j < mapping@.len() ==> #[trigger] mapping@[j] < X * Y,
                forall|j: int, m: int|
                    #![trigger mapping@[j], mapping@[m]]
                    0 <= j < m < mapping@.len() ==> mapping@[j] != mapping@[m],
                forall|j: int| 0 <= j < k ==> #[trigger] out@[mapping@[j] as int]
                    == self@[get_index::<X>(j % (X as int), j / (X as int))],
            decreases total - k,
        {
            proof {
                assert(X >= 1 && k / X < Y) by (nonlinear_arith)
                    requires
                        k < X * Y && 0 <= k,
                ;
            }
            let x = k % X;
            let y = k / X;
            let c = self.get(x, y);
            out.set(mapping[k], c);
            k = k + 1;
        }
        proof {
            assert forall|x: int, y: int|
                0 <= x < X && 0 <= y < Y implies final(out)@[mapping@[y * X + x] as int]
                == self@[#[trigger] get_index::<X>(x, y)] by {
                assert(0 <= y * X + x < X * Y) by (nonlinear_arith)
                    requires
                        0 <= x < X && 0 <= y < Y,
                ;
                lemma_fundamental_div_mod_converse(y * X + x, X as int, y, x);
            }
        }
    }

    /// Colour every pixel black.
    pub fn clear(&mut self)
        requires
            old(self).wf(),
        ensures
            final(self).wf(),
            final(self)@.len() == old(self)@.len(),
            forall|k: int| 0 <= k < final(self)@.len() ==> final(self)@[k] == (Rgb8 {
                r: 0,
                g: 0,
                b: 0,
            }),
    {
        let n = self.cells.len();
        let mut k: usize = 0;
        while k < n
            invariant
                k <= n,
                n == self.cells@.len(),
                self.cells@.len() == old(self).cells@.len(),
                forall|m: int| 0 <= m < k ==> self.cells@[m] == (Rgb8 { r: 0, g: 0, b: 0 }),
            decreases n - k,
        {
            self.cells.set(k, Rgb8 { r: 0, g: 0, b: 0 });
            k = k + 1;
        }
    }
}

/// A cell whose row and column are in range lies inside the grid.
proof fn lemma_cell_index_in_range<const X: usize, const Y: usize>(col: int, row: int)
    requires
        0 <= col < X,
        0 <= row < Y,
    ensures
        0 <= row * X + col < X * Y,
{
    assert(row * X + col < X * Y) by (nonlinear_arith)
        requires
            0 <= col < X && 0 <= row < Y,
    ;
    assert(row * X >= 0) by (nonlinear_arith)
        requires
            row >= 0 && X >= 0,
    ;
}

impl<const X: usize, const Y: usize> Default for Buffer<X, Y> {
    /// A grid with every pixel black. Dimensions are expected to be
    /// small enough that the cell count is representable; a degenerate
    /// choice yields an empty grid.
    fn default() -> (r: Buffer<X, Y>)
        ensures
            X * Y <= usize::MAX ==> r.wf(),
            forall|k: int| 0 <= k < r@.len() ==> r@[k] == (Rgb8 { r: 0, g: 0, b: 0 }),
    {
        let mut cells: Vec<Rgb8> = Vec::new();
        let n = buffer_full_size_checked::<X, Y>();
        let mut k: usize = 0;
        while k < n
            invariant
                k <= n,
                cells@.len() == k,
                forall|m: int| 0 <= m < k ==> cells@[m] == (Rgb8 { r: 0, g: 0, b: 0 }),
            decreases n - k,
        {
            cells.push(Rgb8 { r: 0, g: 0, b: 0 });
            k = k + 1;
        }
        Buffer { cells }
    }
}

/// The cell count, computed without overflowing even for degenerate
/// dimension choices: dimensions whose product would not fit yield an
/// empty buffer.
fn buffer_full_size_checked<const X: usize, const Y: usize>() -> (r: usize)
    ensures
        X * Y <= usize::MAX ==> r == X * Y,
        X * Y > usize::MAX ==> r == 0,
{
    if Y == 0 {
        0
    } else if X <= usize::MAX / Y {
        proof {
            lemma_div_mul_bound(X as int, Y as int, usize::MAX as int);
        }
        X * Y
    } else {
        proof {
            lemma_div_mul_bound2(X as int, Y as int, usize::MAX as int);
        }
        0
    }
}

/// If `x` is at most `m / y`, the product `x * y` is at most `m`.
proof fn lemma_div_mul_bound(x: int, y: int, m: int)
    requires
        y >= 1,
        m >= 0,
        x <= m / y,
    ensures
        x * y <= m,
{
    assert(x * y <= (m / y) * y) by (nonlinear_arith)
        requires
            y >= 1 && x <= m / y,
    ;
    assert((m / y) * y <= m) by (nonlinear_arith)
        requires
            y >= 1 && m >= 0,
    ;
}

/// If `x` exceeds `m / y`, the product `x * y` exceeds `m`.
proof fn lemma_div_mul_bound2(x: int, y: int, m: int)
    requires
        y >= 1,
        m >= 0,
        x > m / y,
    ensures
        x * y > m,
{
    assert(x * y >= (m / y + 1) * y) by (nonlinear_arith)
        requires
            y >= 1 && x >= m / y + 1,
    ;
    assert((m / y + 1) * y > m) by (nonlinear_arith)
        requires
            y >= 1 && m >= 0,
    ;
}

} // verus!
