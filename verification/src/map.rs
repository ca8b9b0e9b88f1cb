use vstd::prelude::*;
use crate::rect::Rect;
use crate::rng::RandomSource;

verus! {

pub const MAPWIDTH: usize = 80;

pub const MAPHEIGHT: usize = 43;

pub const MAPCOUNT: usize = MAPWIDTH * MAPHEIGHT;

const MAX_ROOMS: i32 = 30;

const MIN_SIZE: i32 = 6;

const MAX_SIZE: i32 = 10;

#[derive(Clone, Copy, PartialEq, Eq, Structural, Debug)]
pub enum TileType {
    WALL,
    FLOOR,
}

/// Index of grid point (x, y) in the row-major tile arrays.
pub open spec fn spec_xy_idx(x: int, y: int) -> int {
    y * 80 + x
}

/// The candidate rooms the generator draws always lie inside the border
/// walls, at least six and at most nine tiles wide and high.
pub open spec fn spec_room_in_bounds(r: Rect) -> bool {
    &&& 0 <= r.x1 && r.x1 + 6 <= r.x2 && r.x2 <= r.x1 + 9 && r.x2 <= 78
    &&& 0 <= r.y1 && r.y1 + 6 <= r.y2 && r.y2 <= r.y1 + 9 && r.y2 <= 41
}

/// The carved (floor) interior of a room: everything strictly inside its
/// left and top edge, up to and including its right and bottom edge.
pub open spec fn spec_in_room(r: Rect, x: int, y: int) -> bool {
    r.x1 + 1 <= x <= r.x2 && r.y1 + 1 <= y <= r.y2
}

/// A point of the horizontal segment at row `y` between columns `xa` and
/// `xb` (either order), skipping index zero as the carving loop does.
pub open spec fn spec_on_htunnel(xa: int, xb: int, y: int, x: int, yy: int) -> bool {
    yy == y && (if xa <= xb {
        xa <= x <= xb
    } else {
        xb <= x <= xa
    }) && spec_xy_idx(x, yy) > 0
}

/// A point of the vertical segment at column `x` between rows `ya` and
/// `yb` (either order), skipping index zero as the carving loop does.
pub open spec fn spec_on_vtunnel(ya: int, yb: int, x: int, xx: int, y: int) -> bool {
    xx == x && (if ya <= yb {
        ya <= y <= yb
    } else {
        yb <= y <= ya
    }) && spec_xy_idx(xx, y) > 0
}

/// The tile grid together with the per-tile occupancy index. `blocked`
/// and `tile_content` are rebuilt from the entity store once per tick.
pub struct GameMap {
    pub tiles: Vec<TileType>,
    pub rooms: Vec<Rect>,
    pub width: i32,
    pub height: i32,
    pub revealed_tiles: Vec<bool>,
    pub visible_tiles: Vec<bool>,
    pub blocked: Vec<bool>,
    pub tile_content: Vec<Vec<usize>>,
}

impl GameMap {
    /// The two maps agree on everything but the tile grid itself.
    pub open spec fn same_but_tiles(self, other: GameMap) -> bool {
        &&& self.rooms@ == other.rooms@
        &&& self.revealed_tiles@ == other.revealed_tiles@
        &&& self.visible_tiles@ == other.visible_tiles@
        &&& self.blocked@ == other.blocked@
        &&& self.tile_content@ == other.tile_content@
        &&& self.width == other.width
        &&& self.height == other.height
    }

    pub open spec fn wf(self) -> bool {
        &&& self.width == 80
        &&& self.height == 43
        &&& self.tiles@.len() == 3440
        &&& self.revealed_tiles@.len() == 3440
        &&& self.visible_tiles@.len() == 3440
        &&& self.blocked@.len() == 3440
        &&& self.tile_content@.len() == 3440
    }

    pub open spec fn spec_in_bounds(self, x: int, y: int) -> bool {
        1 <= x <= self.width - 1 && 1 <= y <= self.height - 1
    }

    /// A tile a walker may step onto: inside the playable bounds and not
    /// occupied by a wall or a blocking entity.
    pub open spec fn spec_exit_valid(self, x: int, y: int) -> bool {
        self.spec_in_bounds(x, y) && !self.blocked@[spec_xy_idx(x, y)]
    }

    /// A legal single move on this map: `to` is one of the eight
    /// neighbours of `from` and is a valid exit tile.
    pub open spec fn spec_step_valid(self, from: int, to: int) -> bool {
        &&& 0 <= from < 3440
        &&& 0 <= to < 3440
        &&& {
            let fx = from % 80;
            let fy = from / 80;
            let tx = to % 80;
            let ty = to / 80;
            &&& !(fx == tx && fy == ty)
            &&& -1 <= tx - fx <= 1
            &&& -1 <= ty - fy <= 1
            &&& self.spec_exit_valid(tx, ty)
        }
    }

    /// Returns true if the (x, y) coordinate is within the playable
    /// bounds of the map: the outermost rows and columns are excluded.
    pub fn is_in_bounds(&self, x: i32, y: i32) -> (r: bool)
        requires
            self.wf(),
        ensures
            r == self.spec_in_bounds(x as int, y as int),
    {
        !(x < 1 || x > self.width - 1 || y < 1 || y > self.height - 1)
    }

    /// Determines if the tile at (x, y) is valid to be travelled to.
    pub fn is_exit_valid(&self, x: i32, y: i32) -> (r: bool)
        requires
            self.wf(),
        ensures
            r == self.spec_exit_valid(x as int, y as int),
    {
        if !self.is_in_bounds(x, y) {
            return false;
        }
        let idx = self.xy_idx(x, y);
        !self.blocked[idx]
    }

    /// Convert an (x, y) position into an index for the map.
    pub fn xy_idx(&self, x: i32, y: i32) -> (r: usize)
        requires
            self.wf(),
            0 <= x < self.width,
            0 <= y < self.height,
        ensures
            r == spec_xy_idx(x as int, y as int),
            r < 3440,
    {
        ((y * self.width) + x) as usize
    }

    /// Convert a usize index into an (x, y) point on the map.
    pub fn idx_to_xy(&self, idx: usize) -> (r: (i32, i32))
        requires
            self.wf(),
            idx < 3440,
        ensures
            r.0 == idx as int % 80,
            r.1 == idx as int / 80,
            spec_xy_idx(r.0 as int, r.1 as int) == idx,
            0 <= r.0 < 80,
            0 <= r.1 < 43,
    {
        ((idx as i32) % self.width, (idx as i32) / self.width)
    }

    pub fn dimensions(&self) -> (r: (i32, i32))
        ensures
            r.0 == self.width,
            r.1 == self.height,
    {
        (self.width, self.height)
    }

    pub fn is_opaque(&self, idx: usize) -> (r: bool)
        requires
            self.wf(),
            idx < 3440,
        ensures
            r == (self.tiles@[idx as int] == TileType::WALL),
    {
        self.tiles[idx] == TileType::WALL
    }

    /// Reset `blocked` to hold exactly the wall tiles.
    pub fn populate_blocked(&mut self)
        requires
            old(self).wf(),
        ensures
            final(self).wf(),
            forall|i: int|
                0 <= i < 3440 ==> final(self).blocked@[i] == (old(self).tiles@[i]
                    == TileType::WALL),
            final(self).tiles@ == old(self).tiles@,
            final(self).rooms@ == old(self).rooms@,
            final(self).revealed_tiles@ == old(self).revealed_tiles@,
            final(self).visible_tiles@ == old(self).visible_tiles@,
            final(self).tile_content@ == old(self).tile_content@,
            final(self).width == old(self).width,
            final(self).height == old(self).height,
    {
        let mut i: usize = 0;
        while i < MAPCOUNT
            invariant
                self.wf(),
                i <= 3440,
                forall|j: int| 0 <= j < i ==> self.blocked@[j] == (old(self).tiles@[j]
                    == TileType::WALL),
                self.tiles@ == old(self).tiles@,
                self.rooms@ == old(self).rooms@,
                self.revealed_tiles@ == old(self).revealed_tiles@,
                self.visible_tiles@ == old(self).visible_tiles@,
                self.tile_content@ == old(self).tile_content@,
                self.width == old(self).width,
                self.height == old(self).height,
            decreases 3440 - i,
        {
            let b = self.tiles[i] == TileType::WALL;
            self.blocked[i] = b;
            i = i + 1;
        }
    }

    /// Empty every tile's entity list.
    pub fn clear_content_index(&mut self)
        requires
            old(self).wf(),
        ensures
            final(self).wf(),
            forall|i: int| 0 <= i < 3440 ==> final(self).tile_content@[i]@.len() == 0,
            final(self).tiles@ == old(self).tiles@,
            final(self).rooms@ == old(self).rooms@,
            final(self).revealed_tiles@ == old(self).revealed_tiles@,
            final(self).visible_tiles@ == old(self).visible_tiles@,
            final(self).blocked@ == old(self).blocked@,
            final(self).width == old(self).width,
            final(self).height == old(self).height,
    {
        let mut i: usize = 0;
        while i < MAPCOUNT
            invariant
                self.wf(),
                i <= 3440,
                forall|j: int| 0 <= j < i ==> self.tile_content@[j]@.len() == 0,
                self.tiles@ == old(self).tiles@,
                self.rooms@ == old(self).rooms@,
                self.revealed_tiles@ == old(self).revealed_tiles@,
                self.visible_tiles@ == old(self).visible_tiles@,
                self.blocked@ == old(self).blocked@,
                self.width == old(self).width,
                self.height == old(self).height,
            decreases 3440 - i,
        {
            self.tile_content[i] = Vec::new();
            i = i + 1;
        }
    }

    /// Set every tile strictly inside the room's walls to floor.
    pub fn apply_room_to_map(&mut self, room: &Rect)
        requires
            old(self).wf(),
            spec_room_in_bounds(*room),
        ensures
            final(self).wf(),
            final(self).same_but_tiles(*old(self)),
            forall|xx: int, yy: int| #![trigger spec_xy_idx(xx, yy)]
                spec_in_room(*room, xx, yy) ==> final(self).tiles@[spec_xy_idx(xx, yy)]
                    == TileType::FLOOR,
            forall|xx: int, yy: int| #![trigger spec_xy_idx(xx, yy)]
                0 <= xx < 80 && 0 <= yy < 43 && !spec_in_room(*room, xx, yy) ==> final(self).tiles@[spec_xy_idx(xx, yy)] == old(self).tiles@[spec_xy_idx(xx, yy)],
    {
        let mut y: i32 = room.y1 + 1;
        while y <= room.y2
            invariant
                self.wf(),
                self.same_but_tiles(*old(self)),
                spec_room_in_bounds(*room),
                room.y1 + 1 <= y <= room.y2 + 1,
                forall|xx: int, yy: int| #![trigger spec_xy_idx(xx, yy)]
                    spec_in_room(*room, xx, yy) && yy < y ==> self.tiles@[spec_xy_idx(xx, yy)]
                        == TileType::FLOOR,
                forall|xx: int, yy: int| #![trigger spec_xy_idx(xx, yy)]
                    0 <= xx < 80 && 0 <= yy < 43 && !(spec_in_room(*room, xx, yy) && yy < y)
                        ==> self.tiles@[spec_xy_idx(xx, yy)] == old(self).tiles@[spec_xy_idx(
                        xx,
                        yy,
                    )],
            decreases room.y2 + 1 - y,
        {
            let mut x: i32 = room.x1 + 1;
            while x <= room.x2
                invariant
                    self.wf(),
                    self.same_but_tiles(*old(self)),
                    spec_room_in_bounds(*room),
                    room.y1 + 1 <= y <= room.y2,
                    room.x1 + 1 <= x <= room.x2 + 1,
                    forall|xx: int, yy: int| #![trigger spec_xy_idx(xx, yy)]
                        spec_in_room(*room, xx, yy) && (yy < y || (yy == y && xx < x))
                            ==> self.tiles@[spec_xy_idx(xx, yy)] == TileType::FLOOR,
                    forall|xx: int, yy: int| #![trigger spec_xy_idx(xx, yy)]
                        0 <= xx < 80 && 0 <= yy < 43 && !(spec_in_room(*room, xx, yy) && (yy < y
                            || (yy == y && xx < x))) ==> self.tiles@[spec_xy_idx(xx, yy)] == old(self).tiles@[spec_xy_idx(xx, yy)],
                decreases room.x2 + 1 - x,
            {
                let idx = self.xy_idx(x, y);
                self.tiles[idx] = TileType::FLOOR;
                x = x + 1;
            }
            y = y + 1;
        }
    }

    /// Carve a one-tile-high horizontal corridor at row `y` between the
    /// columns `x1` and `x2`, in either order.
    pub fn apply_horizontal_tunnel(&mut self, x1: i32, x2: i32, y: i32)
        requires
            old(self).wf(),
            0 <= x1 < 80,
            0 <= x2 < 80,
            0 <= y < 43,
        ensures
            final(self).wf(),
            final(self).same_but_tiles(*old(self)),
            forall|xx: int, yy: int| #![trigger spec_xy_idx(xx, yy)]
                spec_on_htunnel(x1 as int, x2 as int, y as int, xx, yy) ==> final(self).tiles@[spec_xy_idx(xx, yy)] == TileType::FLOOR,
            forall|xx: int, yy: int| #![trigger spec_xy_idx(xx, yy)]
                0 <= xx < 80 && 0 <= yy < 43 && !spec_on_htunnel(x1 as int, x2 as int, y as int, xx, yy)
                    ==> final(self).tiles@[spec_xy_idx(xx, yy)] == old(self).tiles@[spec_xy_idx(
                    xx,
                    yy,
                )],
    {
        let lo = if x1 < x2 { x1 } else { x2 };
        let hi = if x1 < x2 { x2 } else { x1 };
        let mut x: i32 = lo;
        while x <= hi
            invariant
                self.wf(),
                self.same_but_tiles(*old(self)),
                0 <= lo <= x,
                x <= hi + 1,
                hi < 80,
                0 <= y < 43,
                forall|xx: int, yy: int| #![trigger spec_xy_idx(xx, yy)]
                    spec_on_htunnel(lo as int, hi as int, y as int, xx, yy) && xx < x
                        ==> self.tiles@[spec_xy_idx(xx, yy)] == TileType::FLOOR,
                forall|xx: int, yy: int| #![trigger spec_xy_idx(xx, yy)]
                    0 <= xx < 80 && 0 <= yy < 43 && !(spec_on_htunnel(
                        lo as int,
                        hi as int,
                        y as int,
                        xx,
                        yy,
                    ) && xx < x) ==> self.tiles@[spec_xy_idx(xx, yy)] == old(self).tiles@[spec_xy_idx(xx, yy)],
            decreases hi + 1 - x,
        {
            let idx = self.xy_idx(x, y);
            if idx > 0 && idx < MAPCOUNT {
                self.tiles[idx] = TileType::FLOOR;
            }
            x = x + 1;
        }
    }

    /// Carve a one-tile-wide vertical corridor at column `x` between the
    /// rows `y1` and `y2`, in either order.
    pub fn apply_vertical_tunnel(&mut self, y1: i32, y2: i32, x: i32)
        requires
            old(self).wf(),
            0 <= y1 < 43,
            0 <= y2 < 43,
            0 <= x < 80,
        ensures
            final(self).wf(),
            final(self).same_but_tiles(*old(self)),
            forall|xx: int, yy: int| #![trigger spec_xy_idx(xx, yy)]
                spec_on_vtunnel(y1 as int, y2 as int, x as int, xx, yy) ==> final(self).tiles@[spec_xy_idx(xx, yy)] == TileType::FLOOR,
            forall|xx: int, yy: int| #![trigger spec_xy_idx(xx, yy)]
                0 <= xx < 80 && 0 <= yy < 43 && !spec_on_vtunnel(y1 as int, y2 as int, x as int, xx, yy)
                    ==> final(self).tiles@[spec_xy_idx(xx, yy)] == old(self).tiles@[spec_xy_idx(
                    xx,
                    yy,
                )],
    {
        let lo = if y1 < y2 { y1 } else { y2 };
        let hi = if y1 < y2 { y2 } else { y1 };
        let mut y: i32 = lo;
        while y <= hi
            invariant
                self.wf(),
                self.same_but_tiles(*old(self)),
                0 <= lo <= y,
                y <= hi + 1,
                hi < 43,
                0 <= x < 80,
                forall|xx: int, yy: int| #![trigger spec_xy_idx(xx, yy)]
                    spec_on_vtunnel(lo as int, hi as int, x as int, xx, yy) && yy < y
                        ==> self.tiles@[spec_xy_idx(xx, yy)] == TileType::FLOOR,
                forall|xx: int, yy: int| #![trigger spec_xy_idx(xx, yy)]
                    0 <= xx < 80 && 0 <= yy < 43 && !(spec_on_vtunnel(
                        lo as int,
                        hi as int,
                        x as int,
                        xx,
                        yy,
                    ) && yy < y) ==> self.tiles@[spec_xy_idx(xx, yy)] == old(self).tiles@[spec_xy_idx(xx, yy)],
            decreases hi + 1 - y,
        {
            let idx = self.xy_idx(x, y);
            if idx > 0 && idx < MAPCOUNT {
                self.tiles[idx] = TileType::FLOOR;
            }
            y = y + 1;
        }
    }

    /// An all-wall map with no rooms and an empty occupancy index.
    pub fn new() -> (m: GameMap)
        ensures
            m.wf(),
            m.rooms@.len() == 0,
            forall|i: int| 0 <= i < 3440 ==> m.tiles@[i] == TileType::WALL,
            forall|i: int| 0 <= i < 3440 ==> !(#[trigger] m.revealed_tiles@[i]),
            forall|i: int| 0 <= i < 3440 ==> !(#[trigger] m.visible_tiles@[i]),
            forall|i: int| 0 <= i < 3440 ==> !(#[trigger] m.blocked@[i]),
            forall|i: int| 0 <= i < 3440 ==> (#[trigger] m.tile_content@[i])@.len() == 0,
    {
        let mut tiles: Vec<TileType> = Vec::new();
        let mut revealed_tiles: Vec<bool> = Vec::new();
        let mut visible_tiles: Vec<bool> = Vec::new();
        let mut blocked: Vec<bool> = Vec::new();
        let mut tile_content: Vec<Vec<usize>> = Vec::new();
        let mut i: usize = 0;
        while i < MAPCOUNT
            invariant
                i <= 3440,
                tiles@.len() == i,
                revealed_tiles@.len() == i,
                visible_tiles@.len() == i,
                blocked@.len() == i,
                tile_content@.len() == i,
                forall|j: int| 0 <= j < i ==> tiles@[j] == TileType::WALL,
                forall|j: int| 0 <= j < i ==> !(#[trigger] revealed_tiles@[j]),
                forall|j: int| 0 <= j < i ==> !(#[trigger] visible_tiles@[j]),
                forall|j: int| 0 <= j < i ==> !(#[trigger] blocked@[j]),
                forall|j: int| 0 <= j < i ==> (#[trigger] tile_content@[j])@.len() == 0,
            decreases 3440 - i,
        {
            tiles.push(TileType::WALL);
            revealed_tiles.push(false);
            visible_tiles.push(false);
            blocked.push(false);
            tile_content.push(Vec::new());
            i = i + 1;
        }
        GameMap {
            tiles,
            rooms: Vec::new(),
            width: 80,
            height: 43,
            revealed_tiles,
            visible_tiles,
            blocked,
            tile_content,
        }
    }

    /// Carve up to `MAX_ROOMS` non-overlapping rooms into a fresh all-wall
    /// map and connect each new room's centre to the previous room's
    /// centre with an L-shaped corridor. The rooms that come out overlap
    /// nowhere, lie inside the border walls, and have floor at their
    /// centres; the occupancy index starts out empty.
    #[verifier::rlimit(100)]
    #[verifier::spinoff_prover]
    pub fn new_map_rooms_and_corridors(rng: &mut RandomSource) -> (m: GameMap)
        ensures
            m.wf(),
            1 <= m.rooms@.len() <= 30,
            forall|i: int, j: int|
                0 <= i < j < m.rooms@.len() ==> !(#[trigger] m.rooms@[i]).spec_intersect(
                    #[trigger] m.rooms@[j],
                ),
            forall|k: int| 0 <= k < m.rooms@.len() ==> spec_room_in_bounds(#[trigger] m.rooms@[k]),
            forall|k: int|
                0 <= k < m.rooms@.len() ==> m.tiles@[spec_xy_idx(
                    (#[trigger] m.rooms@[k]).spec_center().0,
                    m.rooms@[k].spec_center().1,
                )] == TileType::FLOOR,
            forall|i: int| 0 <= i < 3440 ==> !(#[trigger] m.revealed_tiles@[i]),
            forall|i: int| 0 <= i < 3440 ==> !(#[trigger] m.visible_tiles@[i]),
            forall|i: int| 0 <= i < 3440 ==> !(#[trigger] m.blocked@[i]),
            forall|i: int| 0 <= i < 3440 ==> (#[trigger] m.tile_content@[i])@.len() == 0,
            // Corridor connectivity: every room's centre is reachable
            // from the first room's centre over floor tiles.
            forall|k: int|
                0 <= k < m.rooms@.len() ==> spec_reachable(
                    m.tiles@,
                    m.rooms@[0].spec_center(),
                    (#[trigger] m.rooms@[k]).spec_center(),
                ),
            // The outermost rows and columns always stay walls.
            forall|x: int|
                0 <= x < 80 ==> m.tiles@[#[trigger] spec_xy_idx(x, 0)] == TileType::WALL
                    && m.tiles@[spec_xy_idx(x, 42)] == TileType::WALL,
            forall|y: int|
                0 <= y < 43 ==> m.tiles@[#[trigger] spec_xy_idx(0, y)] == TileType::WALL
                    && m.tiles@[spec_xy_idx(79, y)] == TileType::WALL,
            // The dungeon is a pure function of the random seed: two
            // equally seeded sources generate the same map.
            ({
                let g = spec_generated(spec_all_wall_tiles(), Seq::empty(), old(rng).state, 30);
                m.tiles@ == g.0 && m.rooms@ == g.1 && final(rng).state == g.2
            }),
    {
        let mut map = GameMap::new();
        proof {
            assert(map.tiles@ =~= spec_all_wall_tiles());
            assert(map.rooms@ =~= Seq::<Rect>::empty());
        }
        let mut attempt: i32 = 0;
        while attempt < MAX_ROOMS
            invariant
                map.wf(),
                attempt <= MAX_ROOMS,
                attempt >= 1 ==> map.rooms@.len() >= 1,
                map.rooms@.len() <= attempt,
                forall|i: int, j: int|
                    0 <= i < j < map.rooms@.len() ==> !(#[trigger] map.rooms@[i]).spec_intersect(
                        #[trigger] map.rooms@[j],
                    ),
                forall|k: int|
                    0 <= k < map.rooms@.len() ==> spec_room_in_bounds(#[trigger] map.rooms@[k]),
                forall|k: int|
                    0 <= k < map.rooms@.len() ==> map.tiles@[spec_xy_idx(
                        (#[trigger] map.rooms@[k]).spec_center().0,
                        map.rooms@[k].spec_center().1,
                    )] == TileType::FLOOR,
                forall|i: int| 0 <= i < 3440 ==> !(#[trigger] map.revealed_tiles@[i]),
                forall|i: int| 0 <= i < 3440 ==> !(#[trigger] map.visible_tiles@[i]),
                forall|i: int| 0 <= i < 3440 ==> !(#[trigger] map.blocked@[i]),
                forall|i: int| 0 <= i < 3440 ==> (#[trigger] map.tile_content@[i])@.len() == 0,
                forall|k: int|
                    0 <= k < map.rooms@.len() ==> spec_reachable(
                        map.tiles@,
                        map.rooms@[0].spec_center(),
                        (#[trigger] map.rooms@[k]).spec_center(),
                    ),
                forall|x: int|
                    0 <= x < 80 ==> map.tiles@[#[trigger] spec_xy_idx(x, 0)] == TileType::WALL
                        && map.tiles@[spec_xy_idx(x, 42)] == TileType::WALL,
                forall|y: int|
                    0 <= y < 43 ==> map.tiles@[#[trigger] spec_xy_idx(0, y)] == TileType::WALL
                        && map.tiles@[spec_xy_idx(79, y)] == TileType::WALL,
                spec_generated(map.tiles@, map.rooms@, rng.state, 30 - attempt) == spec_generated(
                    spec_all_wall_tiles(),
                    Seq::empty(),
                    old(rng).state,
                    30,
                ),
            decreases MAX_ROOMS - attempt,
        {
            let ghost t_cur = map.tiles@;
            let ghost r_cur = map.rooms@;
            let ghost s_cur = rng.state;
            let w = rng.range(MIN_SIZE, MAX_SIZE);
            let h = rng.range(MIN_SIZE, MAX_SIZE);
            let x = rng.roll_dice(1, map.width - w - 1) - 1;
            let y = rng.roll_dice(1, map.height - h - 1) - 1;
            let new_room = Rect::new(x, y, w, h);
            let mut ok = true;
            let mut ri: usize = 0;
            while ri < map.rooms.len()
                invariant
                    map.wf(),
                    ri <= map.rooms@.len(),
                    ok <==> forall|j: int|
                        0 <= j < ri ==> !new_room.spec_intersect(#[trigger] map.rooms@[j]),
                decreases map.rooms@.len() - ri,
            {
                if new_room.intersect(&map.rooms[ri]) {
                    ok = false;
                }
                ri = ri + 1;
            }
            if ok {
                proof {
                    lemma_center_in_room(new_room);
                }
                let ghost t0 = map.tiles@;
                let ghost rooms0 = map.rooms@;
                map.apply_room_to_map(&new_room);
                proof {
                    assert forall|i: int|
                        0 <= i < 3440 implies #[trigger] map.tiles@[i] == spec_carve_room(
                        t0,
                        new_room,
                    )[i] by {
                        let xx = i % 80;
                        let yy = i / 80;
                        assert(spec_xy_idx(xx, yy) == i);
                    }
                    assert(map.tiles@ =~= spec_carve_room(t0, new_room));
                    assert forall|i: int|
                        0 <= i < 3440 && t0[i] == TileType::FLOOR implies #[trigger] map.tiles@[i]
                        == TileType::FLOOR by {
                        let xx = i % 80;
                        let yy = i / 80;
                        assert(spec_xy_idx(xx, yy) == i);
                    }
                    assert forall|k: int|
                        0 <= k < rooms0.len() implies spec_reachable(
                        map.tiles@,
                        rooms0[0].spec_center(),
                        (#[trigger] rooms0[k]).spec_center(),
                    ) by {
                        lemma_reach_monotone(
                            t0,
                            map.tiles@,
                            rooms0[0].spec_center(),
                            rooms0[k].spec_center(),
                        );
                    }
                }
                if map.rooms.len() > 0 {
                    let (new_x, new_y) = new_room.center();
                    let prev = map.rooms[map.rooms.len() - 1];
                    proof {
                        lemma_center_in_room(prev);
                    }
                    let (prev_x, prev_y) = prev.center();
                    let ghost t1 = map.tiles@;
                    let ghost t1g = map.tiles@;
                    let ghost s4g = rng.state;
                    let coin = rng.range(0, 2);
                    if coin == 1 {
                        map.apply_horizontal_tunnel(prev_x, new_x, prev_y);
                        let ghost t2 = map.tiles@;
                        map.apply_vertical_tunnel(prev_y, new_y, new_x);
                        proof {
                            assert forall|i: int|
                                0 <= i < 3440 implies #[trigger] t2[i] == spec_carve_h(
                                t1g,
                                prev_x as int,
                                new_x as int,
                                prev_y as int,
                            )[i] by {
                                let xx = i % 80;
                                let yy = i / 80;
                                assert(spec_xy_idx(xx, yy) == i);
                            }
                            assert(t2 =~= spec_carve_h(
                                t1g,
                                prev_x as int,
                                new_x as int,
                                prev_y as int,
                            ));
                            assert forall|i: int|
                                0 <= i < 3440 implies #[trigger] map.tiles@[i] == spec_carve_v(
                                t2,
                                prev_y as int,
                                new_y as int,
                                new_x as int,
                            )[i] by {
                                let xx = i % 80;
                                let yy = i / 80;
                                assert(spec_xy_idx(xx, yy) == i);
                            }
                            assert(map.tiles@ =~= spec_carve_v(
                                t2,
                                prev_y as int,
                                new_y as int,
                                new_x as int,
                            ));
                            assert forall|i: int|
                                0 <= i < 3440 && t1[i] == TileType::FLOOR implies #[trigger] map.tiles@[i] == TileType::FLOOR by {
                                let xx = i % 80;
                                let yy = i / 80;
                                assert(spec_xy_idx(xx, yy) == i);
                                assert(t2[spec_xy_idx(xx, yy)] == TileType::FLOOR);
                            }
                            assert forall|x: int|
                                (if prev_x <= new_x {
                                    prev_x <= x <= new_x
                                } else {
                                    new_x <= x <= prev_x
                                }) implies map.tiles@[#[trigger] spec_xy_idx(x, prev_y as int)]
                                == TileType::FLOOR by {
                                assert(spec_on_htunnel(
                                    prev_x as int,
                                    new_x as int,
                                    prev_y as int,
                                    x,
                                    prev_y as int,
                                ));
                                assert(t2[spec_xy_idx(x, prev_y as int)] == TileType::FLOOR);
                            }
                            assert forall|y: int|
                                (if prev_y <= new_y {
                                    prev_y <= y <= new_y
                                } else {
                                    new_y <= y <= prev_y
                                }) implies map.tiles@[#[trigger] spec_xy_idx(new_x as int, y)]
                                == TileType::FLOOR by {
                                assert(spec_on_vtunnel(
                                    prev_y as int,
                                    new_y as int,
                                    new_x as int,
                                    new_x as int,
                                    y,
                                ));
                            }
                            lemma_hline_reachable(
                                map.tiles@,
                                prev_x as int,
                                new_x as int,
                                prev_y as int,
                            );
                            lemma_vline_reachable(
                                map.tiles@,
                                prev_y as int,
                                new_y as int,
                                new_x as int,
                            );
                            lemma_reach_trans(
                                map.tiles@,
                                (prev_x as int, prev_y as int),
                                (new_x as int, prev_y as int),
                                (new_x as int, new_y as int),
                            );
                        }
                    } else {
                        map.apply_horizontal_tunnel(prev_x, new_x, new_y);
                        let ghost t2 = map.tiles@;
                        map.apply_vertical_tunnel(prev_y, new_y, prev_x);
                        proof {
                            assert forall|i: int|
                                0 <= i < 3440 implies #[trigger] t2[i] == spec_carve_h(
                                t1g,
                                prev_x as int,
                                new_x as int,
                                new_y as int,
                            )[i] by {
                                let xx = i % 80;
                                let yy = i / 80;
                                assert(spec_xy_idx(xx, yy) == i);
                            }
                            assert(t2 =~= spec_carve_h(
                                t1g,
                                prev_x as int,
                                new_x as int,
                                new_y as int,
                            ));
                            assert forall|i: int|
                                0 <= i < 3440 implies #[trigger] map.tiles@[i] == spec_carve_v(
                                t2,
                                prev_y as int,
                                new_y as int,
                                prev_x as int,
                            )[i] by {
                                let xx = i % 80;
                                let yy = i / 80;
                                assert(spec_xy_idx(xx, yy) == i);
                            }
                            assert(map.tiles@ =~= spec_carve_v(
                                t2,
                                prev_y as int,
                                new_y as int,
                                prev_x as int,
                            ));
                            assert forall|i: int|
                                0 <= i < 3440 && t1[i] == TileType::FLOOR implies #[trigger] map.tiles@[i] == TileType::FLOOR by {
                                let xx = i % 80;
                                let yy = i / 80;
                                assert(spec_xy_idx(xx, yy) == i);
                                assert(t2[spec_xy_idx(xx, yy)] == TileType::FLOOR);
                            }
                            assert forall|x: int|
                                (if prev_x <= new_x {
                                    prev_x <= x <= new_x
                                } else {
                                    new_x <= x <= prev_x
                                }) implies map.tiles@[#[trigger] spec_xy_idx(x, new_y as int)]
                                == TileType::FLOOR by {
                                assert(spec_on_htunnel(
                                    prev_x as int,
                                    new_x as int,
                                    new_y as int,
                                    x,
                                    new_y as int,
                                ));
                                assert(t2[spec_xy_idx(x, new_y as int)] == TileType::FLOOR);
                            }
                            assert forall|y: int|
                                (if prev_y <= new_y {
                                    prev_y <= y <= new_y
                                } else {
                                    new_y <= y <= prev_y
                                }) implies map.tiles@[#[trigger] spec_xy_idx(prev_x as int, y)]
                                == TileType::FLOOR by {
                                assert(spec_on_vtunnel(
                                    prev_y as int,
                                    new_y as int,
                                    prev_x as int,
                                    prev_x as int,
                                    y,
                                ));
                            }
                            lemma_vline_reachable(
                                map.tiles@,
                                prev_y as int,
                                new_y as int,
                                prev_x as int,
                            );
                            lemma_hline_reachable(
                                map.tiles@,
                                prev_x as int,
                                new_x as int,
                                new_y as int,
                            );
                            lemma_reach_trans(
                                map.tiles@,
                                (prev_x as int, prev_y as int),
                                (prev_x as int, new_y as int),
                                (new_x as int, new_y as int),
                            );
                        }
                    }
                    proof {
                        // Lift the old connectivity into the tunnelled
                        // map and extend it to the new room's centre.
                        assert forall|k: int|
                            0 <= k < rooms0.len() implies spec_reachable(
                            map.tiles@,
                            rooms0[0].spec_center(),
                            (#[trigger] rooms0[k]).spec_center(),
                        ) by {
                            lemma_reach_monotone(
                                t1,
                                map.tiles@,
                                rooms0[0].spec_center(),
                                rooms0[k].spec_center(),
                            );
                        }
                        assert(prev == rooms0[rooms0.len() - 1]);
                        lemma_reach_trans(
                            map.tiles@,
                            rooms0[0].spec_center(),
                            (prev_x as int, prev_y as int),
                            (new_x as int, new_y as int),
                        );
                        assert(spec_reachable(
                            map.tiles@,
                            rooms0[0].spec_center(),
                            new_room.spec_center(),
                        ));
                    }
                } else {
                    proof {
                        lemma_reach_refl(
                            map.tiles@,
                            new_room.spec_center().0,
                            new_room.spec_center().1,
                        );
                    }
                }
                proof {
                    lemma_center_in_room(new_room);
                    assert forall|k: int| 0 <= k < map.rooms@.len() implies map.tiles@[spec_xy_idx(
                        (#[trigger] map.rooms@[k]).spec_center().0,
                        map.rooms@[k].spec_center().1,
                    )] == TileType::FLOOR by {
                        lemma_center_in_room(map.rooms@[k]);
                    }
                }
                map.rooms.push(new_room);
            }
            proof {
                let step = spec_gen_attempt(t_cur, r_cur, s_cur);
                assert(map.tiles@ == step.0 && map.rooms@ == step.1 && rng.state == step.2);
                assert(spec_generated(t_cur, r_cur, s_cur, (30 - attempt) as int)
                    == spec_generated(step.0, step.1, step.2, (30 - attempt - 1) as int));
            }
            attempt = attempt + 1;
        }
        map
    }

    /// The moves available from tile `idx`: exactly those of its eight
    /// neighbours that are in bounds and unblocked, cardinal steps at
    /// cost 100 and diagonal steps at cost 145 (costs scaled by one
    /// hundred).
    pub fn get_available_exits(&self, idx: usize) -> (exits: Vec<(usize, u32)>)
        requires
            self.wf(),
            idx < 3440,
        ensures
            forall|k: int|
                0 <= k < exits@.len() ==> self.spec_step_valid(
                    idx as int,
                    (#[trigger] exits@[k]).0 as int,
                ),
            forall|k: int|
                0 <= k < exits@.len() ==> ((#[trigger] exits@[k]).1 == 100 <==> (exits@[k].0 as int
                    % 80 == idx as int % 80 || exits@[k].0 as int / 80 == idx as int / 80)),
            forall|k: int|
                0 <= k < exits@.len() ==> (#[trigger] exits@[k]).1 == 100 || exits@[k].1 == 145,
            forall|d: int|
                0 <= d < 8 && self.spec_exit_valid(
                    idx as int % 80 + spec_dir_dx(d),
                    idx as int / 80 + spec_dir_dy(d),
                ) ==> spec_has_exit(
                    exits@,
                    idx as int + spec_dir_dx(d) + 80 * spec_dir_dy(d),
                    #[trigger] spec_dir_cost(d),
                ),
            // Each neighbour appears at most once.
            forall|k1: int, k2: int|
                0 <= k1 < k2 < exits@.len() ==> (#[trigger] exits@[k1]).0 != (
                #[trigger] exits@[k2]).0,
    {
        let mut exits: Vec<(usize, u32)> = Vec::new();
        let (x, y) = self.idx_to_xy(idx);
        let ghost mut witness: Seq<int> = seq![-1, -1, -1, -1, -1, -1, -1, -1];
        let ghost mut dirs: Seq<int> = Seq::empty();
        let mut d: usize = 0;
        while d < 8
            invariant
                self.wf(),
                idx < 3440,
                x == idx as int % 80,
                y == idx as int / 80,
                d <= 8,
                witness.len() == 8,
                forall|k: int|
                    0 <= k < exits@.len() ==> self.spec_step_valid(
                        idx as int,
                        (#[trigger] exits@[k]).0 as int,
                    ),
                forall|k: int|
                    0 <= k < exits@.len() ==> ((#[trigger] exits@[k]).1 == 100 <==> (exits@[k].0 as int
                        % 80 == idx as int % 80 || exits@[k].0 as int / 80 == idx as int / 80)),
                forall|k: int|
                    0 <= k < exits@.len() ==> (#[trigger] exits@[k]).1 == 100 || exits@[k].1
                        == 145,
                forall|dd: int|
                    0 <= dd < d && self.spec_exit_valid(
                        idx as int % 80 + spec_dir_dx(dd),
                        idx as int / 80 + spec_dir_dy(dd),
                    ) ==> 0 <= #[trigger] witness[dd] < exits@.len() && exits@[witness[dd]].0 as int
                        == idx as int + spec_dir_dx(dd) + 80 * spec_dir_dy(dd)
                        && exits@[witness[dd]].1 as int == spec_dir_cost(dd),
                dirs.len() == exits@.len(),
                forall|k: int| 0 <= k < dirs.len() ==> 0 <= #[trigger] dirs[k] < d,
                forall|k: int|
                    0 <= k < dirs.len() ==> (#[trigger] exits@[k]).0 as int == idx as int
                        + spec_dir_dx(dirs[k]) + 80 * spec_dir_dy(dirs[k]),
                forall|k1: int, k2: int|
                    0 <= k1 < k2 < dirs.len() ==> #[trigger] dirs[k1] < #[trigger] dirs[k2],
            decreases 8 - d,
        {
            let (dx, dy, cost): (i32, i32, u32) = match d {
                0 => (-1, 0, 100),
                1 => (1, 0, 100),
                2 => (0, -1, 100),
                3 => (0, 1, 100),
                4 => (-1, -1, 145),
                5 => (1, -1, 145),
                6 => (-1, 1, 145),
                _ => (1, 1, 145),
            };
            if self.is_exit_valid(x + dx, y + dy) {
                let to = self.xy_idx(x + dx, y + dy);
                proof {
                    lemma_xy_idx_inverse(x + dx, y + dy);
                }
                exits.push((to, cost));
                proof {
                    witness = witness.update(d as int, exits@.len() - 1);
                    dirs = dirs.push(d as int);
                    assert(dirs[dirs.len() - 1] == d as int);
                    assert(exits@[exits@.len() - 1].0 == to);
                    assert(to as int == idx as int + spec_dir_dx(d as int) + 80 * spec_dir_dy(
                        d as int,
                    ));
                }
            }
            d = d + 1;
        }
        proof {
            assert forall|dd: int|
                0 <= dd < 8 && self.spec_exit_valid(
                    idx as int % 80 + spec_dir_dx(dd),
                    idx as int / 80 + spec_dir_dy(dd),
                ) implies spec_has_exit(
                exits@,
                idx as int + spec_dir_dx(dd) + 80 * spec_dir_dy(dd),
                #[trigger] spec_dir_cost(dd),
            ) by {
                assert(exits@[witness[dd]].0 as int == idx as int + spec_dir_dx(dd) + 80
                    * spec_dir_dy(dd) && exits@[witness[dd]].1 as int == spec_dir_cost(dd));
            }
            assert forall|k1: int, k2: int|
                0 <= k1 < k2 < exits@.len() implies (#[trigger] exits@[k1]).0 != (
            #[trigger] exits@[k2]).0 by {
                assert(dirs[k1] != dirs[k2]);
                assert(spec_dir_dx(dirs[k1]) + 80 * spec_dir_dy(dirs[k1]) != spec_dir_dx(dirs[k2])
                    + 80 * spec_dir_dy(dirs[k2]));
            }
        }
        exits
    }
}

/// The eight move directions in the order the exit list scans them:
/// the four cardinals first, then the diagonals.
pub open spec fn spec_dir_dx(d: int) -> int {
    if d == 0 {
        -1
    } else if d == 1 {
        1
    } else if d == 2 {
        0
    } else if d == 3 {
        0
    } else if d == 4 {
        -1
    } else if d == 5 {
        1
    } else if d == 6 {
        -1
    } else {
        1
    }
}

pub open spec fn spec_dir_dy(d: int) -> int {
    if d == 0 {
        0
    } else if d == 1 {
        0
    } else if d == 2 {
        -1
    } else if d == 3 {
        1
    } else if d == 4 {
        -1
    } else if d == 5 {
        -1
    } else if d == 6 {
        1
    } else {
        1
    }
}

pub open spec fn spec_dir_cost(d: int) -> int {
    if 0 <= d < 4 {
        100
    } else {
        145
    }
}

/// The exit list offers a move to tile `to` at the given scaled cost.
pub open spec fn spec_has_exit(s: Seq<(usize, u32)>, to: int, cost: int) -> bool {
    exists|k: int| 0 <= k < s.len() && (#[trigger] s[k]).0 == to && s[k].1 == cost
}

/// Row-major indexing is inverted by division and remainder by the map
/// width.
pub proof fn lemma_xy_idx_inverse(x: int, y: int)
    requires
        0 <= x < 80,
        0 <= y < 43,
    ensures
        spec_xy_idx(x, y) % 80 == x,
        spec_xy_idx(x, y) / 80 == y,
{
    assert((y * 80 + x) % 80 == x) by (nonlinear_arith)
        requires
            0 <= x < 80 && 0 <= y,
    ;
    assert((y * 80 + x) / 80 == y) by (nonlinear_arith)
        requires
            0 <= x < 80 && 0 <= y,
    ;
}

/// The tile grid the generator starts from: all wall.
pub open spec fn spec_all_wall_tiles() -> Seq<TileType> {
    Seq::new(3440, |i: int| TileType::WALL)
}

/// The grid after carving one room's interior.
pub open spec fn spec_carve_room(tiles: Seq<TileType>, room: Rect) -> Seq<TileType> {
    Seq::new(
        3440,
        |i: int|
            if spec_in_room(room, i % 80, i / 80) {
                TileType::FLOOR
            } else {
                tiles[i]
            },
    )
}

/// The grid after carving one horizontal corridor.
pub open spec fn spec_carve_h(tiles: Seq<TileType>, xa: int, xb: int, y: int) -> Seq<TileType> {
    Seq::new(
        3440,
        |i: int|
            if spec_on_htunnel(xa, xb, y, i % 80, i / 80) {
                TileType::FLOOR
            } else {
                tiles[i]
            },
    )
}

/// The grid after carving one vertical corridor.
pub open spec fn spec_carve_v(tiles: Seq<TileType>, ya: int, yb: int, x: int) -> Seq<TileType> {
    Seq::new(
        3440,
        |i: int|
            if spec_on_vtunnel(ya, yb, x, i % 80, i / 80) {
                TileType::FLOOR
            } else {
                tiles[i]
            },
    )
}

/// One attempt of the generator as a pure function of the grid, the
/// rooms so far and the random state: draw a candidate, discard it on
/// overlap, otherwise carve it and its connecting corridor. Returns
/// the new grid, rooms and random state.
pub open spec fn spec_gen_attempt(tiles: Seq<TileType>, rooms: Seq<Rect>, s: u64) -> (
    Seq<TileType>,
    Seq<Rect>,
    u64,
) {
    let w = crate::rng::spec_range(s, 6, 10);
    let s1 = crate::rng::spec_next_state(s);
    let h = crate::rng::spec_range(s1, 6, 10);
    let s2 = crate::rng::spec_next_state(s1);
    let x = crate::rng::spec_roll(s2, 1, 80 - w - 1).0 - 1;
    let s3 = crate::rng::spec_roll(s2, 1, 80 - w - 1).1;
    let y = crate::rng::spec_roll(s3, 1, 43 - h - 1).0 - 1;
    let s4 = crate::rng::spec_roll(s3, 1, 43 - h - 1).1;
    let cand = Rect { x1: x as i32, y1: y as i32, x2: (x + w) as i32, y2: (y + h) as i32 };
    let ok = forall|j: int| 0 <= j < rooms.len() ==> !cand.spec_intersect(#[trigger] rooms[j]);
    if ok {
        let t1 = spec_carve_room(tiles, cand);
        if rooms.len() > 0 {
            let nx = cand.spec_center().0;
            let ny = cand.spec_center().1;
            let prev = rooms[rooms.len() - 1];
            let px = prev.spec_center().0;
            let py = prev.spec_center().1;
            let coin = crate::rng::spec_range(s4, 0, 2);
            let s5 = crate::rng::spec_next_state(s4);
            if coin == 1 {
                (spec_carve_v(spec_carve_h(t1, px, nx, py), py, ny, nx), rooms.push(cand), s5)
            } else {
                (spec_carve_v(spec_carve_h(t1, px, nx, ny), py, ny, px), rooms.push(cand), s5)
            }
        } else {
            (t1, rooms.push(cand), s4)
        }
    } else {
        (tiles, rooms, s4)
    }
}

/// The generator run to completion: `k` further attempts folded over
/// the state. The dungeon is this function of the seed alone, which is
/// what makes generation reproducible.
pub open spec fn spec_generated(tiles: Seq<TileType>, rooms: Seq<Rect>, s: u64, k: int) -> (
    Seq<TileType>,
    Seq<Rect>,
    u64,
)
    decreases (if k > 0 {
        k
    } else {
        0
    }),
{
    if k <= 0 {
        (tiles, rooms, s)
    } else {
        let step = spec_gen_attempt(tiles, rooms, s);
        spec_generated(step.0, step.1, step.2, k - 1)
    }
}

/// The centre of a generated room lies strictly inside its carved
/// interior.
pub proof fn lemma_center_in_room(r: Rect)
    requires
        spec_room_in_bounds(r),
    ensures
        r.x1 + 1 <= r.spec_center().0 <= r.x2,
        r.y1 + 1 <= r.spec_center().1 <= r.y2,
        spec_in_room(r, r.spec_center().0, r.spec_center().1),
{
    assert(r.x1 + 1 <= (r.x1 + r.x2) / 2 <= r.x2) by (nonlinear_arith)
        requires
            0 <= r.x1 && r.x1 + 6 <= r.x2,
    ;
    assert(r.y1 + 1 <= (r.y1 + r.y2) / 2 <= r.y2) by (nonlinear_arith)
        requires
            0 <= r.y1 && r.y1 + 6 <= r.y2,
    ;
}


/// A walk over floor tiles: every point is on the grid and carved, and
/// consecutive points are cardinal neighbours.
pub open spec fn spec_floor_path(tiles: Seq<TileType>, p: Seq<(int, int)>) -> bool {
    &&& p.len() >= 1
    &&& (forall|i: int|
        0 <= i < p.len() ==> {
            let q = #[trigger] p[i];
            &&& 0 <= q.0 < 80
            &&& 0 <= q.1 < 43
            &&& tiles[spec_xy_idx(q.0, q.1)] == TileType::FLOOR
        })
    &&& (forall|i: int|
        0 <= i < p.len() - 1 ==> {
            let a = #[trigger] p[i];
            let b = p[i + 1];
            ||| (a.0 == b.0 && (a.1 == b.1 + 1 || a.1 + 1 == b.1))
            ||| (a.1 == b.1 && (a.0 == b.0 + 1 || a.0 + 1 == b.0))
        })
}

/// Point `b` can be reached from point `a` without leaving the floor.
pub open spec fn spec_reachable(tiles: Seq<TileType>, a: (int, int), b: (int, int)) -> bool {
    exists|p: Seq<(int, int)>|
        spec_floor_path(tiles, p) && p[0] == a && p[p.len() - 1] == b
}

/// A floor tile reaches itself.
pub proof fn lemma_reach_refl(tiles: Seq<TileType>, x: int, y: int)
    requires
        0 <= x < 80,
        0 <= y < 43,
        tiles[spec_xy_idx(x, y)] == TileType::FLOOR,
    ensures
        spec_reachable(tiles, (x, y), (x, y)),
{
    let p = seq![(x, y)];
    assert(spec_floor_path(tiles, p) && p[0] == (x, y) && p[p.len() - 1] == (x, y));
}

/// Carving more floor never severs a floor walk.
pub proof fn lemma_reach_monotone(
    t1: Seq<TileType>,
    t2: Seq<TileType>,
    a: (int, int),
    b: (int, int),
)
    requires
        t1.len() == 3440,
        t2.len() == 3440,
        forall|i: int| 0 <= i < 3440 && t1[i] == TileType::FLOOR ==> #[trigger] t2[i] == TileType::FLOOR,
        spec_reachable(t1, a, b),
    ensures
        spec_reachable(t2, a, b),
{
    let p = choose|p: Seq<(int, int)>|
        spec_floor_path(t1, p) && p[0] == a && p[p.len() - 1] == b;
    assert forall|i: int| 0 <= i < p.len() implies {
        let q = #[trigger] p[i];
        &&& 0 <= q.0 < 80
        &&& 0 <= q.1 < 43
        &&& t2[spec_xy_idx(q.0, q.1)] == TileType::FLOOR
    } by {
        let q = p[i];
        assert(0 <= spec_xy_idx(q.0, q.1) < 3440);
        assert(t1[spec_xy_idx(q.0, q.1)] == TileType::FLOOR);
    }
    assert(spec_floor_path(t2, p) && p[0] == a && p[p.len() - 1] == b);
}

/// Floor walks chain end to end.
pub proof fn lemma_reach_trans(tiles: Seq<TileType>, a: (int, int), b: (int, int), c: (int, int))
    requires
        spec_reachable(tiles, a, b),
        spec_reachable(tiles, b, c),
    ensures
        spec_reachable(tiles, a, c),
{
    let p1 = choose|p: Seq<(int, int)>|
        spec_floor_path(tiles, p) && p[0] == a && p[p.len() - 1] == b;
    let p2 = choose|p: Seq<(int, int)>|
        spec_floor_path(tiles, p) && p[0] == b && p[p.len() - 1] == c;
    if p2.len() == 1 {
        assert(spec_floor_path(tiles, p1) && p1[0] == a && p1[p1.len() - 1] == c);
    } else {
        let q = p1 + p2.subrange(1, p2.len() as int);
        assert(q.len() == p1.len() + p2.len() - 1);
        assert forall|i: int| 0 <= i < q.len() implies {
            let pt = #[trigger] q[i];
            &&& 0 <= pt.0 < 80
            &&& 0 <= pt.1 < 43
            &&& tiles[spec_xy_idx(pt.0, pt.1)] == TileType::FLOOR
        } by {
            if i < p1.len() {
                assert(q[i] == p1[i]);
            } else {
                assert(q[i] == p2[i - p1.len() + 1]);
            }
        }
        assert forall|i: int| 0 <= i < q.len() - 1 implies {
            let s = #[trigger] q[i];
            let t = q[i + 1];
            ||| (s.0 == t.0 && (s.1 == t.1 + 1 || s.1 + 1 == t.1))
            ||| (s.1 == t.1 && (s.0 == t.0 + 1 || s.0 + 1 == t.0))
        } by {
            if i + 1 < p1.len() {
                assert(q[i] == p1[i] && q[i + 1] == p1[i + 1]);
            } else if i + 1 == p1.len() {
                assert(q[i] == p1[p1.len() - 1]);
                assert(q[i + 1] == p2[1]);
                assert(p1[p1.len() - 1] == b && p2[0] == b);
            } else {
                assert(q[i] == p2[i - p1.len() + 1] && q[i + 1] == p2[i - p1.len() + 2]);
            }
        }
        assert(spec_floor_path(tiles, q) && q[0] == a && q[q.len() - 1] == c);
    }
}

/// A fully carved row segment joins its two ends.
pub proof fn lemma_hline_reachable(tiles: Seq<TileType>, xa: int, xb: int, y: int)
    requires
        0 <= xa < 80,
        0 <= xb < 80,
        0 <= y < 43,
        forall|x: int|
            (if xa <= xb {
                xa <= x <= xb
            } else {
                xb <= x <= xa
            }) ==> tiles[#[trigger] spec_xy_idx(x, y)] == TileType::FLOOR,
    ensures
        spec_reachable(tiles, (xa, y), (xb, y)),
{
    let len = (if xa <= xb {
        xb - xa
    } else {
        xa - xb
    }) + 1;
    let p = Seq::new(len as nat, |i: int| (if xa <= xb {
        xa + i
    } else {
        xa - i
    }, y));
    assert(spec_floor_path(tiles, p));
    assert(p[0] == (xa, y) && p[p.len() - 1] == (xb, y));
}

/// A fully carved column segment joins its two ends.
pub proof fn lemma_vline_reachable(tiles: Seq<TileType>, ya: int, yb: int, x: int)
    requires
        0 <= ya < 43,
        0 <= yb < 43,
        0 <= x < 80,
        forall|y: int|
            (if ya <= yb {
                ya <= y <= yb
            } else {
                yb <= y <= ya
            }) ==> tiles[#[trigger] spec_xy_idx(x, y)] == TileType::FLOOR,
    ensures
        spec_reachable(tiles, (x, ya), (x, yb)),
{
    let len = (if ya <= yb {
        yb - ya
    } else {
        ya - yb
    }) + 1;
    let p = Seq::new(len as nat, |i: int| (x, if ya <= yb {
        ya + i
    } else {
        ya - i
    }));
    assert(spec_floor_path(tiles, p));
    assert(p[0] == (x, ya) && p[p.len() - 1] == (x, yb));
}

} // verus!
