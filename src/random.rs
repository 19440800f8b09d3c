use crate::grid::{in_grid, modulo, Point};
use vstd::prelude::*;

verus! {

/// Relies on rand::random, which draws from the thread-local generator: any
/// value of the type may come back, so nothing is stated of it.
pub assume_specification<T>[ rand::random::<T> ]() -> (r: T)
    where
        rand::distributions::Standard: rand::distributions::Distribution<T>,
;

/// A random cell of a `grid_width` by `grid_height` grid.
pub fn rand_point2(grid_width: i32, grid_height: i32) -> (r: Point)
    requires
        grid_width > 0,
        grid_height > 0,
    ensures
        in_grid(r, grid_width as int, grid_height as int),
{
    let rx: i32 = rand::random::<i32>();
    let ry: i32 = rand::random::<i32>();
    Point { x: modulo(rx, grid_width), y: modulo(ry, grid_height) }
}

} // verus!
