//! Grid addressing: the bijection between a linear cell index and (x, y)
//! coordinates, and neighbor-coordinate enumeration with boundary clipping.

use vstd::prelude::*;

verus! {

/// Splits a linear index into (x, y) coordinates: `x = index % width`,
/// `y = index / width`.
pub fn get_coord(index: usize, width: usize) -> (c: (usize, usize))
    requires
        width > 0,
    ensures
        c.0 == index as int % width as int,
        c.1 == index as int / width as int,
        c.0 < width,
{
    (index % width, index / width)
}

/// Joins (x, y) coordinates into the linear index `y * width + x`.
pub fn get_index(x: usize, y: usize, width: usize, height: usize) -> (i: usize)
    requires
        x < width,
        y < height,
        width * height <= usize::MAX,
    ensures
        i == y * width + x,
        i < width * height,
{
    proof {
        lemma_linear_index_in_range(x as int, y as int, width as int, height as int);
    }
    y * width + x
}

/// An in-bounds coordinate pair maps to an in-bounds linear index.
pub proof fn lemma_linear_index_in_range(x: int, y: int, w: int, h: int)
    by (nonlinear_arith)
    requires
        0 <= x < w,
        0 <= y < h,
    ensures
        0 <= y * w + x < w * h,
{
}

/// Coordinates survive the round trip through a linear index: decomposing
/// `y * width + x` gives back exactly (x, y).
pub proof fn lemma_coord_of_index_of(x: int, y: int, w: int)
    requires
        0 <= x < w,
        0 <= y,
    ensures
        (y * w + x) % w == x,
        (y * w + x) / w == y,
{
    vstd::arithmetic::div_mod::lemma_fundamental_div_mod_converse(y * w + x, w, y, x);
}

/// A linear index survives the round trip through coordinates: recombining
/// `i % width` and `i / width` gives back exactly `i`.
pub proof fn lemma_index_of_coord_of(i: int, w: int)
    requires
        0 < w,
        0 <= i,
    ensures
        (i / w) * w + (i % w) == i,
{
    vstd::arithmetic::div_mod::lemma_fundamental_div_mod(i, w);
    vstd::arithmetic::mul::lemma_mul_is_commutative(w, i / w);
}

/// Whether a coordinate pair lies on the grid.
pub open spec fn in_bounds(c: (usize, usize), width: usize, height: usize) -> bool {
    c.0 < width && c.1 < height
}

/// Every coordinate of `s` lies on the grid and differs from (x, y).
pub open spec fn neighbor_coords_ok(
    s: Seq<(usize, usize)>,
    x: usize,
    y: usize,
    width: usize,
    height: usize,
) -> bool {
    forall|k: int|
        0 <= k < s.len() ==> in_bounds(#[trigger] s[k], width, height) && s[k] != (x, y)
}

/// The in-bounds coordinates directly west, north, east and south of (x, y),
/// in bounds-check order.
pub open spec fn cross_neighbors(x: usize, y: usize, width: usize, height: usize) -> Seq<
    (usize, usize),
> {
    let s = Seq::<(usize, usize)>::empty();
    let s = if x > 0 {
        s.push(((x - 1) as usize, y))
    } else {
        s
    };
    let s = if y > 0 {
        s.push((x, (y - 1) as usize))
    } else {
        s
    };
    let s = if x + 1 < width {
        s.push(((x + 1) as usize, y))
    } else {
        s
    };
    let s = if y + 1 < height {
        s.push((x, (y + 1) as usize))
    } else {
        s
    };
    s
}

/// The cross neighbors of (x, y) followed by its in-bounds diagonal
/// neighbors, in bounds-check order.
pub open spec fn full_neighbors(x: usize, y: usize, width: usize, height: usize) -> Seq<
    (usize, usize),
> {
    let s = cross_neighbors(x, y, width, height);
    let s = if x > 0 && y > 0 {
        s.push(((x - 1) as usize, (y - 1) as usize))
    } else {
        s
    };
    let s = if x > 0 && y + 1 < height {
        s.push(((x - 1) as usize, (y + 1) as usize))
    } else {
        s
    };
    let s = if x + 1 < width && y > 0 {
        s.push(((x + 1) as usize, (y - 1) as usize))
    } else {
        s
    };
    let s = if x + 1 < width && y + 1 < height {
        s.push(((x + 1) as usize, (y + 1) as usize))
    } else {
        s
    };
    s
}

/// How many cross neighbors (x, y) has.
pub open spec fn cross_count(x: int, y: int, width: int, height: int) -> int {
    (if x > 0 {
        1int
    } else {
        0int
    }) + (if y > 0 {
        1int
    } else {
        0int
    }) + (if x + 1 < width {
        1int
    } else {
        0int
    }) + (if y + 1 < height {
        1int
    } else {
        0int
    })
}

/// How many full neighbors (x, y) has.
pub open spec fn full_count(x: int, y: int, width: int, height: int) -> int {
    cross_count(x, y, width, height) + (if x > 0 && y > 0 {
        1int
    } else {
        0int
    }) + (if x > 0 && y + 1 < height {
        1int
    } else {
        0int
    }) + (if x + 1 < width && y > 0 {
        1int
    } else {
        0int
    }) + (if x + 1 < width && y + 1 < height {
        1int
    } else {
        0int
    })
}

/// Enumerates the in-bounds coordinates directly north, south, east and west
/// of (x, y): 2 for a corner, 3 for an edge, 4 for an interior cell.
pub fn get_cross_neighbor_coords(x: usize, y: usize, width: usize, height: usize) -> (v: Vec<
    (usize, usize),
>)
    requires
        x < width,
        y < height,
    ensures
        v@ == cross_neighbors(x, y, width, height),
        neighbor_coords_ok(v@, x, y, width, height),
        v@.len() == cross_count(x as int, y as int, width as int, height as int),
{
    let mut v: Vec<(usize, usize)> = Vec::new();
    if x > 0 {
        v.push((x - 1, y));
    }
    if y > 0 {
        v.push((x, y - 1));
    }
    if x + 1 < width {
        v.push((x + 1, y));
    }
    if y + 1 < height {
        v.push((x, y + 1));
    }
    proof {
        assert(v@ =~= cross_neighbors(x, y, width, height));
    }
    v
}

/// Enumerates the full neighborhood of (x, y): the cross neighbors plus the
/// in-bounds diagonals, 3 for a corner, 5 for an edge, 8 for an interior cell.
pub fn get_neighbor_coords(x: usize, y: usize, width: usize, height: usize) -> (v: Vec<
    (usize, usize),
>)
    requires
        x < width,
        y < height,
    ensures
        v@ == full_neighbors(x, y, width, height),
        neighbor_coords_ok(v@, x, y, width, height),
        v@.len() == full_count(x as int, y as int, width as int, height as int),
{
    let mut v = get_cross_neighbor_coords(x, y, width, height);
    if x > 0 && y > 0 {
        v.push((x - 1, y - 1));
    }
    if x > 0 && y + 1 < height {
        v.push((x - 1, y + 1));
    }
    if x + 1 < width && y > 0 {
        v.push((x + 1, y - 1));
    }
    if x + 1 < width && y + 1 < height {
        v.push((x + 1, y + 1));
    }
    proof {
        assert(v@ =~= full_neighbors(x, y, width, height));
    }
    v
}

/// Whether (x, y) sits in a corner of the grid.
pub open spec fn is_corner(x: int, y: int, width: int, height: int) -> bool {
    (x == 0 || x + 1 == width) && (y == 0 || y + 1 == height)
}

/// Whether (x, y) sits strictly inside the grid.
pub open spec fn is_interior(x: int, y: int, width: int, height: int) -> bool {
    0 < x && x + 1 < width && 0 < y && y + 1 < height
}

/// Whether (x, y) sits on a border of the grid without being a corner.
pub open spec fn is_edge(x: int, y: int, width: int, height: int) -> bool {
    !is_corner(x, y, width, height) && !is_interior(x, y, width, height)
}

/// The neighbor counts of a cell match its position class: a corner has
/// 2 cross and 3 full neighbors, an edge cell 3 and 5, an interior cell
/// 4 and 8.
pub proof fn lemma_neighbor_count_classes(x: int, y: int, w: int, h: int)
    requires
        0 <= x < w,
        0 <= y < h,
        2 <= w,
        2 <= h,
    ensures
        is_corner(x, y, w, h) ==> cross_count(x, y, w, h) == 2 && full_count(x, y, w, h) == 3,
        is_edge(x, y, w, h) ==> cross_count(x, y, w, h) == 3 && full_count(x, y, w, h) == 5,
        is_interior(x, y, w, h) ==> cross_count(x, y, w, h) == 4 && full_count(x, y, w, h) == 8,
{
}

/// The coordinates decoded from an in-bounds linear index are in bounds.
pub proof fn lemma_coord_in_range(i: int, w: int, h: int)
    by (nonlinear_arith)
    requires
        0 < w,
        0 <= i < w * h,
    ensures
        0 <= i % w < w,
        0 <= i / w < h,
{
}

} // verus!
