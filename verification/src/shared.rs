//! Shared vocabulary for every slice: the game flow states, tools, the build
//! grid and its cardinal directions.
use vstd::prelude::*;

verus! {

/// Top-level game flow. Gameplay fixed-step systems run only in `Playing`.
#[derive(Debug, Clone, Copy, PartialEq, Eq, Structural, Hash)]
pub enum AppState {
    Boot,
    Playing,
    Paused,
}

impl Default for AppState {
    fn default() -> (r: Self)
        ensures
            r == AppState::Boot,
    {
        AppState::Boot
    }
}

#[derive(Debug, Clone, Copy, PartialEq, Eq, Structural, Hash)]
pub enum WeaponKind {
    Rifle,
    Pump,
}

#[derive(Debug, Clone, Copy, PartialEq, Eq, Structural, Hash)]
pub enum PieceKind {
    Wall,
    Floor,
    Ramp,
}

/// What the character holds: a gun, or a piece to build.
#[derive(Debug, Clone, Copy, PartialEq, Eq, Structural, Hash)]
pub enum ActiveTool {
    Weapon(WeaponKind),
    Build(PieceKind),
}

impl Default for ActiveTool {
    fn default() -> (r: Self)
        ensures
            r == ActiveTool::Weapon(WeaponKind::Rifle),
    {
        ActiveTool::Weapon(WeaponKind::Rifle)
    }
}

impl ActiveTool {
    pub fn is_build(&self) -> (r: bool)
        ensures
            r == (*self is Build),
    {
        match self {
            ActiveTool::Build(_) => true,
            ActiveTool::Weapon(_) => false,
        }
    }
}

/// What a damage message hit.
#[derive(Debug, Clone, Copy, PartialEq, Eq, Structural)]
pub enum DamageTarget {
    Character,
    Piece,
}

/// What happened to a building piece.
#[derive(Debug, Clone, Copy, PartialEq, Eq, Structural)]
pub enum PieceChange {
    Placed,
    /// Crack stage reached: 1 at ≤66% HP, 2 at ≤33% HP.
    Cracked(u8),
    Destroyed,
}

/// Number of fixed gameplay ticks simulated so far (60 per second).
#[derive(Debug, Clone, Copy, PartialEq, Eq, Structural, Default)]
pub struct SimTick(pub u64);

/// Length of one fixed tick: the same value drives the real fixed step and the
/// headless manual step, so each headless update runs exactly one tick.
pub const TICK_NANOS: u64 = 16_666_667;

/// The arena is `ARENA_CELLS × ARENA_CELLS` cells, centered on the origin.
pub const ARENA_CELLS: i32 = 12;
/// Highest buildable level index is `MAX_LEVELS - 1`.
pub const MAX_LEVELS: i32 = 6;

/// A build-grid cell: `x`, `z` in `0..ARENA_CELLS`, `level` in `0..MAX_LEVELS`.
#[derive(Debug, Clone, Copy, PartialEq, Eq, Structural, Hash, PartialOrd, Ord)]
pub struct GridCell {
    pub x: i32,
    pub z: i32,
    pub level: i32,
}

/// The cell lies inside the buildable arena.
pub open spec fn cell_in_bounds(c: GridCell) -> bool {
    &&& 0 <= c.x < ARENA_CELLS
    &&& 0 <= c.z < ARENA_CELLS
    &&& 0 <= c.level < MAX_LEVELS
}

impl GridCell {
    pub fn new(x: i32, z: i32, level: i32) -> (r: Self)
        ensures
            r == (GridCell { x, z, level }),
    {
        GridCell { x, z, level }
    }

    pub fn in_bounds(&self) -> (r: bool)
        ensures
            r == cell_in_bounds(*self),
    {
        0 <= self.x && self.x < ARENA_CELLS && 0 <= self.z && self.z < ARENA_CELLS && 0
            <= self.level && self.level < MAX_LEVELS
    }
}

/// Cardinal direction on the grid. `North` is -Z (the default look direction).
#[derive(Debug, Clone, Copy, PartialEq, Eq, Structural, Hash, PartialOrd, Ord)]
pub enum Facing {
    North,
    East,
    South,
    West,
}

/// The grid step (x, z) one cell along a facing.
pub open spec fn offset_spec(f: Facing) -> (i32, i32) {
    match f {
        Facing::North => (0i32, -1i32),
        Facing::East => (1i32, 0i32),
        Facing::South => (0i32, 1i32),
        Facing::West => (-1i32, 0i32),
    }
}

/// The facing turned around.
pub open spec fn opposite_spec(f: Facing) -> Facing {
    match f {
        Facing::North => Facing::South,
        Facing::East => Facing::West,
        Facing::South => Facing::North,
        Facing::West => Facing::East,
    }
}

impl Facing {
    pub const ALL: [Facing; 4] = [Facing::North, Facing::East, Facing::South, Facing::West];

    /// The grid step (x, z) one cell along this facing.
    pub fn offset(self) -> (r: (i32, i32))
        ensures
            r == offset_spec(self),
    {
        match self {
            Facing::North => (0, -1),
            Facing::East => (1, 0),
            Facing::South => (0, 1),
            Facing::West => (-1, 0),
        }
    }

    pub fn opposite(self) -> (r: Self)
        ensures
            r == opposite_spec(self),
    {
        match self {
            Facing::North => Facing::South,
            Facing::East => Facing::West,
            Facing::South => Facing::North,
            Facing::West => Facing::East,
        }
    }
}

/// Turning around twice faces the starting way, the opposite facing steps the
/// opposite way, and every facing steps exactly one cell along one axis.
pub proof fn lemma_opposite_reverses(f: Facing)
    ensures
        opposite_spec(opposite_spec(f)) == f,
        opposite_spec(f) != f,
        offset_spec(opposite_spec(f)).0 == -offset_spec(f).0,
        offset_spec(opposite_spec(f)).1 == -offset_spec(f).1,
        (offset_spec(f).0 == 0) != (offset_spec(f).1 == 0),
        -1 <= offset_spec(f).0 <= 1 && -1 <= offset_spec(f).1 <= 1,
{
    match f {
        Facing::North => {},
        Facing::East => {},
        Facing::South => {},
        Facing::West => {},
    }
}

/// A buildable slot: a piece kind in a grid cell; walls and ramps face one
/// way, floors none.
#[derive(Debug, Clone, Copy, PartialEq, Eq, Structural, Hash)]
pub struct PieceSlot {
    pub kind: PieceKind,
    pub cell: GridCell,
    pub facing: Option<Facing>,
}

impl PieceSlot {
    /// A wall on the `facing` edge of `cell`.
    pub fn wall(cell: GridCell, facing: Facing) -> (r: Self)
        ensures
            r == (PieceSlot { kind: PieceKind::Wall, cell, facing: Some(facing) }),
    {
        PieceSlot { kind: PieceKind::Wall, cell, facing: Some(facing) }
    }

    /// A ramp in `cell` rising toward `facing`.
    pub fn ramp(cell: GridCell, facing: Facing) -> (r: Self)
        ensures
            r == (PieceSlot { kind: PieceKind::Ramp, cell, facing: Some(facing) }),
    {
        PieceSlot { kind: PieceKind::Ramp, cell, facing: Some(facing) }
    }

    /// A floor in `cell`.
    pub fn floor(cell: GridCell) -> (r: Self)
        ensures
            r == (PieceSlot { kind: PieceKind::Floor, cell, facing: None }),
    {
        PieceSlot { kind: PieceKind::Floor, cell, facing: None }
    }
}

} // verus!
