use vstd::prelude::*;
use crate::components::Point;
use crate::map::GameMap;

verus! {

/// The line walk as a predicate: no wall stands strictly between
/// (x, y) and (x1, y1) along the diagonal-first walk; `first` marks
/// whether (x, y) is still the origin, which never blocks.
pub open spec fn spec_line_clear(
    m: GameMap,
    x: int,
    y: int,
    x1: int,
    y1: int,
    first: bool,
) -> bool
    decreases (if x1 > x {
        x1 - x
    } else {
        x - x1
    }) + (if y1 > y {
        y1 - y
    } else {
        y - y1
    }),
{
    if x == x1 && y == y1 {
        true
    } else if !first && m.tiles@[crate::map::spec_xy_idx(x, y)] == crate::map::TileType::WALL {
        false
    } else {
        let x2 = if x < x1 {
            x + 1
        } else if x > x1 {
            x - 1
        } else {
            x
        };
        let y2 = if y < y1 {
            y + 1
        } else if y > y1 {
            y - 1
        } else {
            y
        };
        spec_line_clear(m, x2, y2, x1, y1, false)
    }
}

/// The field of view as a predicate: the point lies in the clamped
/// range square around the origin and, unless it is the origin itself,
/// the walk from the origin to it is free of walls.
pub open spec fn spec_in_fov(m: GameMap, ox: int, oy: int, range: int, x: int, y: int) -> bool {
    let rr = if range < 0 {
        0int
    } else if range > 40 {
        40int
    } else {
        range
    };
    &&& 0 <= x < 80
    &&& 0 <= y < 43
    &&& ox - rr <= x <= ox + rr
    &&& oy - rr <= y <= oy + rr
    &&& ((x == ox && y == oy) || spec_line_clear(m, ox, oy, x, y, true))
}

/// The walk predicate reads only the tile grid: two maps with equal
/// tiles agree on it.
pub proof fn lemma_line_clear_tiles(m1: GameMap, m2: GameMap, x: int, y: int, x1: int, y1: int, first: bool)
    requires
        m1.tiles@ == m2.tiles@,
    ensures
        spec_line_clear(m1, x, y, x1, y1, first) == spec_line_clear(m2, x, y, x1, y1, first),
    decreases (if x1 > x {
        x1 - x
    } else {
        x - x1
    }) + (if y1 > y {
        y1 - y
    } else {
        y - y1
    }),
{
    if !(x == x1 && y == y1) {
        let x2 = if x < x1 {
            x + 1
        } else if x > x1 {
            x - 1
        } else {
            x
        };
        let y2 = if y < y1 {
            y + 1
        } else if y > y1 {
            y - 1
        } else {
            y
        };
        lemma_line_clear_tiles(m1, m2, x2, y2, x1, y1, false);
    }
}

/// So does the field-of-view predicate.
pub proof fn lemma_in_fov_tiles(m1: GameMap, m2: GameMap, ox: int, oy: int, range: int, x: int, y: int)
    requires
        m1.tiles@ == m2.tiles@,
    ensures
        spec_in_fov(m1, ox, oy, range, x, y) == spec_in_fov(m2, ox, oy, range, x, y),
{
    lemma_line_clear_tiles(m1, m2, ox, oy, x, y, true);
}

/// True when no wall stands strictly between the two points along the
/// diagonal-first grid line walked from (x0, y0) towards (x1, y1). The
/// endpoints themselves never block the line.
fn line_clear(map: &GameMap, x0: i32, y0: i32, x1: i32, y1: i32) -> (r: bool)
    requires
        map.wf(),
        0 <= x0 < 80,
        0 <= y0 < 43,
        0 <= x1 < 80,
        0 <= y1 < 43,
    ensures
        r == spec_line_clear(*map, x0 as int, y0 as int, x1 as int, y1 as int, true),
{
    let mut x = x0;
    let mut y = y0;
    let mut first = true;
    loop
        invariant
            map.wf(),
            0 <= x < 80,
            0 <= y < 43,
            0 <= x1 < 80,
            0 <= y1 < 43,
            spec_line_clear(*map, x as int, y as int, x1 as int, y1 as int, first)
                == spec_line_clear(*map, x0 as int, y0 as int, x1 as int, y1 as int, true),
        decreases (if x1 > x {
            x1 - x
        } else {
            x - x1
        }) + (if y1 > y {
            y1 - y
        } else {
            y - y1
        }),
    {
        if x == x1 && y == y1 {
            return true;
        }
        if !first {
            let idx = map.xy_idx(x, y);
            if map.is_opaque(idx) {
                return false;
            }
        }
        first = false;
        if x < x1 {
            x = x + 1;
        } else if x > x1 {
            x = x - 1;
        }
        if y < y1 {
            y = y + 1;
        } else if y > y1 {
            y = y - 1;
        }
    }
}

/// Compute the set of grid points visible from `origin` within `range`
/// cells: the points of the surrounding square whose connecting line is
/// free of walls. The origin itself is always first in the result, and
/// everything returned lies on the grid inside the range square.
pub fn field_of_view(map: &GameMap, origin: Point, range: i32) -> (v: Vec<Point>)
    requires
        map.wf(),
        0 <= origin.x < 80,
        0 <= origin.y < 43,
    ensures
        v@.len() >= 1,
        v@[0] == origin,
        forall|k: int|
            0 <= k < v@.len() ==> {
                let p = #[trigger] v@[k];
                &&& 0 <= p.x < 80
                &&& 0 <= p.y < 43
                &&& -40 <= p.x - origin.x <= 40
                &&& -40 <= p.y - origin.y <= 40
            },
        // The result holds exactly the points the field-of-view
        // predicate admits.
        forall|k: int|
            0 <= k < v@.len() ==> spec_in_fov(
                *map,
                origin.x as int,
                origin.y as int,
                range as int,
                (#[trigger] v@[k]).x as int,
                v@[k].y as int,
            ),
        forall|x: int, y: int|
            #![trigger spec_in_fov(*map, origin.x as int, origin.y as int, range as int, x, y)]
            spec_in_fov(*map, origin.x as int, origin.y as int, range as int, x, y)
                ==> exists|k: int|
                0 <= k < v@.len() && (#[trigger] v@[k]) == (Point { x: x as i32, y: y as i32 }),
    {
    let r = if range < 0 {
        0
    } else if range > 40 {
        40
    } else {
        range
    };
    let mut v: Vec<Point> = Vec::new();
    v.push(origin);
    let ghost mut witness: Seq<int> = Seq::new(3440, |i: int| -1);
    let x_lo = if origin.x - r < 0 {
        0
    } else {
        origin.x - r
    };
    let x_hi = if origin.x + r > 79 {
        79
    } else {
        origin.x + r
    };
    let y_lo = if origin.y - r < 0 {
        0
    } else {
        origin.y - r
    };
    let y_hi = if origin.y + r > 42 {
        42
    } else {
        origin.y + r
    };
    let mut y = y_lo;
    while y <= y_hi
        invariant
            map.wf(),
            0 <= origin.x < 80,
            0 <= origin.y < 43,
            0 <= r <= 40,
            r == (if range < 0 {
                0int
            } else if range > 40 {
                40int
            } else {
                range as int
            }),
            x_lo == (if origin.x - r < 0 {
                0int
            } else {
                origin.x - r
            }),
            x_hi == (if origin.x + r > 79 {
                79int
            } else {
                origin.x + r
            }),
            y_lo == (if origin.y - r < 0 {
                0int
            } else {
                origin.y - r
            }),
            y_hi == (if origin.y + r > 42 {
                42int
            } else {
                origin.y + r
            }),
            y_lo <= y,
            witness.len() == 3440,
            v@.len() >= 1,
            v@[0] == origin,
            forall|k: int|
                0 <= k < v@.len() ==> spec_in_fov(
                    *map,
                    origin.x as int,
                    origin.y as int,
                    range as int,
                    (#[trigger] v@[k]).x as int,
                    v@[k].y as int,
                ),
            forall|x2: int, y2: int|
                #![trigger spec_in_fov(*map, origin.x as int, origin.y as int, range as int, x2, y2)]
                spec_in_fov(*map, origin.x as int, origin.y as int, range as int, x2, y2) && y2 < y
                    && !(x2 == origin.x && y2 == origin.y) ==> 0 <= witness[crate::map::spec_xy_idx(
                    x2,
                    y2,
                )] < v@.len() && v@[witness[crate::map::spec_xy_idx(x2, y2)]] == (Point {
                    x: x2 as i32,
                    y: y2 as i32,
                }),
        decreases y_hi + 1 - y,
    {
        let mut x = x_lo;
        while x <= x_hi
            invariant
                map.wf(),
                0 <= origin.x < 80,
                0 <= origin.y < 43,
                0 <= r <= 40,
                r == (if range < 0 {
                    0int
                } else if range > 40 {
                    40int
                } else {
                    range as int
                }),
                x_lo == (if origin.x - r < 0 {
                    0int
                } else {
                    origin.x - r
                }),
                x_hi == (if origin.x + r > 79 {
                    79int
                } else {
                    origin.x + r
                }),
                y_lo == (if origin.y - r < 0 {
                    0int
                } else {
                    origin.y - r
                }),
                y_hi == (if origin.y + r > 42 {
                    42int
                } else {
                    origin.y + r
                }),
                x_lo <= x,
                y_lo <= y <= y_hi,
                witness.len() == 3440,
                v@.len() >= 1,
                v@[0] == origin,
                forall|k: int|
                    0 <= k < v@.len() ==> spec_in_fov(
                        *map,
                        origin.x as int,
                        origin.y as int,
                        range as int,
                        (#[trigger] v@[k]).x as int,
                        v@[k].y as int,
                    ),
                forall|x2: int, y2: int|
                    #![trigger spec_in_fov(*map, origin.x as int, origin.y as int, range as int, x2, y2)]
                    spec_in_fov(*map, origin.x as int, origin.y as int, range as int, x2, y2) && (
                    y2 < y || (y2 == y && x2 < x)) && !(x2 == origin.x && y2 == origin.y) ==> 0
                        <= witness[crate::map::spec_xy_idx(x2, y2)] < v@.len()
                        && v@[witness[crate::map::spec_xy_idx(x2, y2)]] == (Point {
                        x: x2 as i32,
                        y: y2 as i32,
                    }),
            decreases x_hi + 1 - x,
        {
            if !(x == origin.x && y == origin.y) {
                if line_clear(map, origin.x, origin.y, x, y) {
                    v.push(Point { x, y });
                    proof {
                        witness = witness.update(
                            crate::map::spec_xy_idx(x as int, y as int),
                            v@.len() - 1,
                        );
                    }
                }
            }
            x = x + 1;
        }
        y = y + 1;
    }
    proof {
        assert forall|x2: int, y2: int|
            #![trigger spec_in_fov(*map, origin.x as int, origin.y as int, range as int, x2, y2)]
            spec_in_fov(*map, origin.x as int, origin.y as int, range as int, x2, y2) implies exists|k: int|
            0 <= k < v@.len() && (#[trigger] v@[k]) == (Point { x: x2 as i32, y: y2 as i32 }) by {
            if x2 == origin.x && y2 == origin.y {
                assert(v@[0] == (Point { x: x2 as i32, y: y2 as i32 }));
            } else {
                assert(v@[witness[crate::map::spec_xy_idx(x2, y2)]] == (Point {
                    x: x2 as i32,
                    y: y2 as i32,
                }));
            }
        }
    }
    v
}

} // verus!