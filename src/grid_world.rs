use std::collections::VecDeque;
use vstd::prelude::*;

verus! {

/// One of the four moves on the grid.
#[derive(Debug, Copy, Clone, PartialEq, Eq, Structural)]
pub enum Direction {
    Up,
    Down,
    Left,
    Right,
}

/// Display color of a cell; it plays no part in a cell's identity.
#[derive(Debug, Copy, Clone, PartialEq, Eq, Hash, Structural)]
pub struct Color {
    pub r: u8,
    pub g: u8,
    pub b: u8,
}

/// An integer cell of the grid, with the color it is drawn in.
#[derive(Debug, Copy, Clone)]
pub struct GridPoint {
    pub x: i32,
    pub y: i32,
    pub color: Color,
}

/// Two points name the same cell when their coordinates agree.
pub open spec fn same_cell(a: GridPoint, b: GridPoint) -> bool {
    a.x == b.x && a.y == b.y
}

impl PartialEq for GridPoint {
    fn eq(&self, other: &GridPoint) -> (r: bool) {
        self.x == other.x && self.y == other.y
    }
}

impl vstd::std_specs::cmp::PartialEqSpecImpl for GridPoint {
    open spec fn obeys_eq_spec() -> bool {
        true
    }

    open spec fn eq_spec(&self, other: &GridPoint) -> bool {
        same_cell(*self, *other)
    }
}

impl Eq for GridPoint {

}

/// The move from `p` in direction `d` stays within the range of `i32`.
pub open spec fn can_move(p: GridPoint, d: Direction) -> bool {
    match d {
        Direction::Up => p.y < i32::MAX,
        Direction::Down => p.y > i32::MIN,
        Direction::Left => p.x > i32::MIN,
        Direction::Right => p.x < i32::MAX,
    }
}

/// The point one step from `p` in direction `d`, in the same color.
pub open spec fn moved(p: GridPoint, d: Direction) -> GridPoint
    recommends
        can_move(p, d),
{
    match d {
        Direction::Up => GridPoint { y: (p.y + 1) as i32, ..p },
        Direction::Down => GridPoint { y: (p.y - 1) as i32, ..p },
        Direction::Left => GridPoint { x: (p.x - 1) as i32, ..p },
        Direction::Right => GridPoint { x: (p.x + 1) as i32, ..p },
    }
}

/// The direction that undoes a step in `d`.
pub open spec fn opposite(d: Direction) -> Direction {
    match d {
        Direction::Up => Direction::Down,
        Direction::Down => Direction::Up,
        Direction::Left => Direction::Right,
        Direction::Right => Direction::Left,
    }
}

/// Some cell of `cells` is the cell of `p`.
pub open spec fn occupies(cells: Seq<GridPoint>, p: GridPoint) -> bool {
    exists|i: int| 0 <= i < cells.len() && same_cell(#[trigger] cells[i], p)
}

/// The cells of `other`, in their order and with repetitions, whose cell
/// is occupied by `mine`.
pub open spec fn intersection(mine: Seq<GridPoint>, other: Seq<GridPoint>) -> Seq<GridPoint> {
    other.filter(|q: GridPoint| occupies(mine, q))
}

impl GridPoint {
    /// Whether a step in direction `dir` stays within the range of `i32`.
    pub fn can_move_in_dir(&self, dir: Direction) -> (r: bool)
        ensures
            r == can_move(*self, dir),
    {
        match dir {
            Direction::Up => self.y < i32::MAX,
            Direction::Down => self.y > i32::MIN,
            Direction::Left => self.x > i32::MIN,
            Direction::Right => self.x < i32::MAX,
        }
    }

    /// The point one step away in direction `dir`, keeping the color.
    pub fn move_in_dir(&self, dir: Direction) -> (r: GridPoint)
        requires
            can_move(*self, dir),
        ensures
            r == moved(*self, dir),
    {
        match dir {
            Direction::Up => GridPoint { x: self.x, y: self.y + 1, color: self.color },
            Direction::Left => GridPoint { x: self.x - 1, y: self.y, color: self.color },
            Direction::Right => GridPoint { x: self.x + 1, y: self.y, color: self.color },
            Direction::Down => GridPoint { x: self.x, y: self.y - 1, color: self.color },
        }
    }
}

/// A step changes exactly one coordinate, by one, and keeps the color; the
/// step back in the opposite direction returns to the starting cell.
pub proof fn lemma_move_in_dir(p: GridPoint, d: Direction)
    requires
        can_move(p, d),
    ensures
        moved(p, d).color == p.color,
        (moved(p, d).x == p.x) != (moved(p, d).y == p.y),
        moved(p, d).x == p.x || moved(p, d).x == p.x + 1 || moved(p, d).x == p.x - 1,
        moved(p, d).y == p.y || moved(p, d).y == p.y + 1 || moved(p, d).y == p.y - 1,
        can_move(moved(p, d), opposite(d)),
        same_cell(moved(moved(p, d), opposite(d)), p),
{
}

/// Whether some cell of `cells` is the cell of `p`.
pub fn occupied(cells: &Vec<GridPoint>, p: &GridPoint) -> (r: bool)
    ensures
        r == occupies(cells@, *p),
{
    let mut i: usize = 0;
    while i < cells.len()
        invariant
            0 <= i <= cells@.len(),
            forall|j: int| 0 <= j < i ==> !same_cell(#[trigger] cells@[j], *p),
        decreases cells@.len() - i,
    {
        if cells[i].x == p.x && cells[i].y == p.y {
            return true;
        }
        i = i + 1;
    }
    false
}

/// Something that stands on cells of the grid.
pub trait GridWorldEntity {
    /// The cells the entity stands on, in its own order.
    spec fn cells(&self) -> Seq<GridPoint>;

    fn get_grid_cells(&self) -> (r: Vec<GridPoint>)
        ensures
            r@ == self.cells(),
    ;
}

/// The cells of `other` that `mine` also stands on, in the order of `other`
/// and with its repetitions.
pub fn intersect<A: GridWorldEntity, B: GridWorldEntity>(mine: &A, other: &B) -> (r: VecDeque<
    GridPoint,
>)
    ensures
        r@ == intersection(mine.cells(), other.cells()),
{
    let mine = mine.get_grid_cells();
    let theirs = other.get_grid_cells();
    let mut r: VecDeque<GridPoint> = VecDeque::new();
    let mut i: usize = 0;
    while i < theirs.len()
        invariant
            0 <= i <= theirs@.len(),
            r@ == intersection(mine@, theirs@.subrange(0, i as int)),
        decreases theirs@.len() - i,
    {
        let q = theirs[i];
        let hit = occupied(&mine, &q);
        proof {
            let pre = theirs@.subrange(0, i as int + 1);
            assert(pre.drop_last() =~= theirs@.subrange(0, i as int));
            assert(pre.last() == q);
            reveal(Seq::filter);
        }
        if hit {
            r.push_back(q);
        }
        i = i + 1;
    }
    proof {
        assert(theirs@.subrange(0, i as int) =~= theirs@);
    }
    r
}

/// A cell of `other` is in the intersection exactly when `mine` occupies it;
/// every cell of the intersection comes from `other`.
pub proof fn lemma_intersection(mine: Seq<GridPoint>, other: Seq<GridPoint>)
    ensures
        forall|i: int|
            0 <= i < intersection(mine, other).len() ==> occupies(
                mine,
                #[trigger] intersection(mine, other)[i],
            ) && other.contains(intersection(mine, other)[i]),
        forall|j: int|
            0 <= j < other.len() && occupies(mine, other[j]) ==> #[trigger] intersection(
                mine,
                other,
            ).contains(other[j]),
{
    broadcast use vstd::seq_lib::group_filter_ensures;

    let r = intersection(mine, other);
    assert forall|i: int| 0 <= i < r.len() implies other.contains(#[trigger] r[i]) by {
        other.lemma_filter_contains_rev(|q: GridPoint| occupies(mine, q), r[i]);
    }
}

/// A world whose whole content is drawn as a list of cells.
pub trait GridWorld {
    /// Every cell of the world, in drawing order.
    spec fn world_cells(&self) -> Seq<GridPoint>;

    fn get_grid_cells(&self) -> (r: Vec<GridPoint>)
        ensures
            r@ == self.world_cells(),
    ;
}

} // verus!
