use crate::grid::{in_grid, Point};
use vstd::arithmetic::mul::lemma_mul_is_commutative;
use vstd::arithmetic::div_mod::{lemma_fundamental_div_mod, lemma_multiply_divide_lt};
use vstd::prelude::*;

verus! {

/// The food item, at one cell of the grid.
#[derive(Clone, Copy, Debug, PartialEq, Eq, Structural)]
pub struct Apple {
    pub pos: Point,
}

impl Apple {
    /// An apple at `pos`.
    pub fn new(pos: Point) -> (r: Apple)
        ensures
            r.pos == pos,
    {
        Apple { pos }
    }

    /// Moves the apple to `pos`.
    pub fn set_pos(&mut self, pos: Point)
        ensures
            final(self).pos == pos,
    {
        self.pos = pos;
    }

    /// An apple on a random cell of a `width` by `height` grid other than
    /// `forbidden`.
    pub fn spawn(width: i32, height: i32, forbidden: Point) -> (r: Apple)
        requires
            roomy(width as int, height as int),
        ensures
            in_grid(r.pos, width as int, height as int),
            r.pos != forbidden,
    {
        let raw: u64 = rand::random::<u64>();
        Apple::new(cell_avoiding(raw, width, height, forbidden))
    }

    /// Moves the apple to a random cell of a `width` by `height` grid other
    /// than `forbidden`.
    pub fn reposition(&mut self, width: i32, height: i32, forbidden: Point)
        requires
            roomy(width as int, height as int),
        ensures
            in_grid(final(self).pos, width as int, height as int),
            final(self).pos != forbidden,
    {
        let raw: u64 = rand::random::<u64>();
        self.set_pos(cell_avoiding(raw, width, height, forbidden));
    }
}

/// Index of cell `p` when a grid `w` columns wide is read row by row.
pub open spec fn cell_index(p: Point, w: int) -> int {
    p.y * w + p.x
}

/// The cell at index `i` when a grid `w` columns wide is read row by row.
pub open spec fn cell_at(i: int, w: int) -> Point {
    Point { x: (i % w) as i32, y: (i / w) as i32 }
}

/// The index that the draw `raw` selects among the cells of a `w` by `h` grid
/// other than `forbidden`: the cells are numbered row by row, skipping
/// `forbidden` where it lies on the grid.
pub open spec fn index_avoiding(raw: int, w: int, h: int, forbidden: Point) -> int {
    if in_grid(forbidden, w, h) {
        let k = raw % (w * h - 1);
        if k >= cell_index(forbidden, w) {
            k + 1
        } else {
            k
        }
    } else {
        raw % (w * h)
    }
}

/// The grid can hold an apple beside another cell.
pub open spec fn roomy(w: int, h: int) -> bool {
    &&& 0 < w
    &&& 0 < h
    &&& w * h >= 2
}

/// The cell of a `w` by `h` grid, other than `forbidden`, that the draw `raw`
/// selects. Every such cell is selected by the same share of draws, up to the
/// bias of reducing `raw` modulo the number of cells.
pub fn cell_avoiding(raw: u64, w: i32, h: i32, forbidden: Point) -> (r: Point)
    requires
        roomy(w as int, h as int),
    ensures
        r == cell_at(index_avoiding(raw as int, w as int, h as int, forbidden), w as int),
        in_grid(r, w as int, h as int),
        r != forbidden,
{
    let wu = w as u64;
    let hu = h as u64;
    assert(wu * hu <= 0x7fff_ffff * 0x7fff_ffff) by (nonlinear_arith)
        requires
            0 < wu <= 0x7fff_ffff,
            0 < hu <= 0x7fff_ffff,
    ;
    let n: u64 = wu * hu;
    let idx: u64;
    let on_grid = 0 <= forbidden.x && forbidden.x < w && 0 <= forbidden.y && forbidden.y < h;
    if on_grid {
        let fx = forbidden.x as u64;
        let fy = forbidden.y as u64;
        assert(fy * wu + fx < wu * hu) by (nonlinear_arith)
            requires
                fx < wu,
                fy < hu,
        ;
        let fi: u64 = fy * wu + fx;
        let k = raw % (n - 1);
        if k >= fi {
            idx = k + 1;
        } else {
            idx = k;
        }
    } else {
        idx = raw % n;
    }
    assert(idx < n);
    proof {
        lemma_multiply_divide_lt(idx as int, wu as int, hu as int);
        lemma_fundamental_div_mod(idx as int, wu as int);
    }
    let x = (idx % wu) as i32;
    let y = (idx / wu) as i32;
    proof {
        assert(x as int == idx as int % wu as int);
        assert(y as int == idx as int / wu as int);
        lemma_mul_is_commutative(y as int, w as int);
    }
    assert(idx == cell_index(Point { x, y }, w as int));
    Point { x, y }
}

} // verus!
