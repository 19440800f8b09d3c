use crate::apple::Apple;
use crate::grid::{in_grid, modulo, wrap, Point};
use vstd::arithmetic::div_mod::lemma_fundamental_div_mod_converse;
use vstd::prelude::*;

verus! {

/// Direction in which the snake's head moves.
#[derive(Clone, Copy, Debug, PartialEq, Eq, Structural)]
pub enum Heading {
    Up,
    Down,
    Left,
    Right,
}

/// The reverse of a heading.
pub open spec fn opposite(h: Heading) -> Heading {
    match h {
        Heading::Up => Heading::Down,
        Heading::Down => Heading::Up,
        Heading::Left => Heading::Right,
        Heading::Right => Heading::Left,
    }
}

/// The cell one step from `p` towards `heading`, wrapping around the edges of
/// a `w` by `h` grid.
pub open spec fn step(p: Point, heading: Heading, w: int, h: int) -> Point {
    match heading {
        Heading::Up => Point { x: p.x, y: wrap(p.y - 1, h) as i32 },
        Heading::Down => Point { x: p.x, y: wrap(p.y + 1, h) as i32 },
        Heading::Left => Point { x: wrap(p.x - 1, w) as i32, y: p.y },
        Heading::Right => Point { x: wrap(p.x + 1, w) as i32, y: p.y },
    }
}

/// The body after one move: each segment takes the place of the one ahead of
/// it, the first takes the old head's, and the last one's cell is left.
pub open spec fn shifted(body: Seq<Point>, head: Point) -> Seq<Point> {
    if body.len() == 0 {
        body
    } else {
        seq![head].add(body.drop_last())
    }
}

/// Whether `b` is the reverse of `a`.
pub fn is_opposite(a: Heading, b: Heading) -> (r: bool)
    ensures
        r == (b == opposite(a)),
{
    match (a, b) {
        (Heading::Up, Heading::Down) => true,
        (Heading::Down, Heading::Up) => true,
        (Heading::Left, Heading::Right) => true,
        (Heading::Right, Heading::Left) => true,
        _ => false,
    }
}

/// A step from a cell of the grid stays on the grid, and a step left from the
/// first column lands on the last one.
pub proof fn lemma_step_in_grid(p: Point, heading: Heading, w: int, h: int)
    requires
        0 < w <= i32::MAX,
        0 < h <= i32::MAX,
        in_grid(p, w, h),
    ensures
        in_grid(step(p, heading, w, h), w, h),
        p.x == 0 ==> step(p, Heading::Left, w, h).x == w - 1,
{
    lemma_fundamental_div_mod_converse(-1, w, -1, w - 1);
}

/// The player: a head, the direction it moves in, and the trailing body
/// segments ordered from the head to the tail.
pub struct Snake {
    pub heading: Heading,
    pub pos_head: Point,
    pub pos_body: Vec<Point>,
    /// Where the head stood before the latest move.
    pub pos_prev: Point,
}

/// Moves every segment of `body` one place towards the head.
fn shift_body(body: &mut Vec<Point>, head: Point)
    ensures
        final(body)@ == shifted(old(body)@, head),
{
    let ghost body0 = body@;
    let n = body.len();
    let mut prev = head;
    let mut i: usize = 0;
    while i < n
        invariant
            n == body0.len(),
            body@.len() == n,
            0 <= i <= n,
            forall|j: int| 0 <= j < i ==> body@[j] == (if j == 0 { head } else { body0[j - 1] }),
            forall|j: int| i <= j < n ==> body@[j] == body0[j],
            prev == (if i == 0 { head } else { body0[i - 1] }),
        decreases n - i,
    {
        let cur = body[i];
        body.set(i, prev);
        prev = cur;
        i += 1;
    }
    assert(body@ =~= shifted(body0, head));
}

impl Snake {
    /// A snake heading left with no body, its head at `pos_head`.
    pub fn new(pos_head: Point) -> (r: Snake)
        ensures
            r.heading == Heading::Left,
            r.pos_head == pos_head,
            r.pos_body@.len() == 0,
            r.pos_prev == pos_head,
    {
        Snake { heading: Heading::Left, pos_head, pos_body: Vec::new(), pos_prev: pos_head }
    }

    /// Turns towards `requested`, unless that is the reverse of the current
    /// heading, in which case nothing changes.
    pub fn set_heading(&mut self, requested: Heading)
        ensures
            final(self).heading == (if requested == opposite(old(self).heading) {
                old(self).heading
            } else {
                requested
            }),
            final(self).pos_head == old(self).pos_head,
            final(self).pos_body@ == old(self).pos_body@,
            final(self).pos_prev == old(self).pos_prev,
    {
        if !is_opposite(self.heading, requested) {
            self.heading = requested;
        }
    }

    /// Moves the head one cell towards the heading on a `grid_width` by
    /// `grid_height` grid, wrapping around its edges, and drags the body after it.
    pub fn update_pos(&mut self, grid_width: i32, grid_height: i32)
        requires
            grid_width > 0,
            grid_height > 0,
            in_grid(old(self).pos_head, grid_width as int, grid_height as int),
        ensures
            final(self).pos_head == step(
                old(self).pos_head,
                old(self).heading,
                grid_width as int,
                grid_height as int,
            ),
            in_grid(final(self).pos_head, grid_width as int, grid_height as int),
            final(self).pos_body@ == shifted(old(self).pos_body@, old(self).pos_head),
            final(self).pos_prev == old(self).pos_head,
            final(self).heading == old(self).heading,
    {
        let prev_pos = self.pos_head;
        match self.heading {
            Heading::Up => {
                self.pos_head.y = modulo(self.pos_head.y - 1, grid_height);
            },
            Heading::Down => {
                self.pos_head.y = modulo(self.pos_head.y + 1, grid_height);
            },
            Heading::Left => {
                self.pos_head.x = modulo(self.pos_head.x - 1, grid_width);
            },
            Heading::Right => {
                self.pos_head.x = modulo(self.pos_head.x + 1, grid_width);
            },
        }
        self.pos_prev = prev_pos;
        shift_body(&mut self.pos_body, prev_pos);
    }

    /// Whether the head stands on the apple.
    pub fn can_eat(&self, apple: &Apple) -> (r: bool)
        ensures
            r == (self.pos_head == apple.pos),
    {
        self.pos_head == apple.pos
    }

    /// Adds a segment at the tail, in the cell the head held before its latest
    /// move.
    pub fn grow(&mut self)
        ensures
            final(self).pos_body@ == old(self).pos_body@.push(old(self).pos_prev),
            final(self).pos_head == old(self).pos_head,
            final(self).pos_prev == old(self).pos_prev,
            final(self).heading == old(self).heading,
    {
        self.pos_body.push(self.pos_prev);
    }

    /// Whether the head overlaps a segment of the body.
    pub fn is_dead(&self) -> (r: bool)
        ensures
            r == self.pos_body@.contains(self.pos_head),
    {
        let mut i: usize = 0;
        while i < self.pos_body.len()
            invariant
                0 <= i <= self.pos_body@.len(),
                forall|j: int| 0 <= j < i ==> self.pos_body@[j] != self.pos_head,
            decreases self.pos_body@.len() - i,
        {
            if self.pos_body[i] == self.pos_head {
                return true;
            }
            i += 1;
        }
        false
    }
}

/// Eating makes the body one segment longer than before the move, and the new
/// tail segment stands where the head stood before the move.
pub proof fn lemma_growth(body: Seq<Point>, head: Point)
    ensures
        shifted(body, head).push(head).len() == body.len() + 1,
        shifted(body, head).push(head).last() == head,
{
}

} // verus!
