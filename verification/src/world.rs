//! Grid storage: one array per attribute, addressed by a cell's linear index,
//! beside the array of locks, the global tick and the boundary configuration.
//!
//! Storage checks nothing but its own shape. Whoever reads or writes a cell
//! is expected to hold its lock; the handles of `particle_data` see to that.
//! Whatever changes the grid takes it by exclusive reference, so that each
//! operation, the compare-and-exchange on a lock among them, is one step that
//! nothing else can fall into: workers that share a grid take turns at it.

use vstd::prelude::*;
use crate::fixed::Fixed;

verus! {

/// The widest grid that storage is laid out for.
pub const MAX_WIDTH: i32 = 3840;

/// The tallest grid that storage is laid out for.
pub const MAX_HEIGHT: i32 = 2160;

/// The type tag of air.
pub const AIR: u8 = 0;

/// The type tag of a wall.
pub const WALL: u8 = 1;

/// The type tag of dust.
pub const DUST: u8 = 2;

/// The value of a lock that nobody holds.
pub const FREE: i32 = 0;

/// Whether a behaviour exists for the type tag.
pub open spec fn is_known_type(type_id: u8) -> bool {
    type_id == AIR || type_id == WALL || type_id == DUST
}

/// Whether a behaviour exists for the type tag.
pub fn known_type(type_id: u8) -> (known: bool)
    ensures
        known == is_known_type(type_id),
{
    type_id == AIR || type_id == WALL || type_id == DUST
}

/// Whether the tick is an odd one.
pub open spec fn is_odd(tick: int) -> bool {
    tick % 2 == 1
}

/// What a particle that leaves the grid meets on each side: the type tag of
/// the boundary particle that stands in for every position beyond that side.
#[derive(Clone, Copy, Debug, PartialEq, Eq, Structural)]
pub struct WrappingBehaviour {
    pub top: u8,
    pub left: u8,
    pub bottom: u8,
    pub right: u8,
}

impl WrappingBehaviour {
    /// Every side names a type that has a behaviour.
    pub open spec fn wf(self) -> bool {
        &&& is_known_type(self.top)
        &&& is_known_type(self.left)
        &&& is_known_type(self.bottom)
        &&& is_known_type(self.right)
    }
}

/// Everything a cell holds but its lock.
#[derive(Clone, Copy, Debug, PartialEq, Eq, Structural)]
pub struct Attributes {
    /// Selects the behaviour.
    pub type_id: u8,
    /// Whether the last tick in which the particle was advanced was odd.
    pub tick_parity: bool,
    /// How far the particle has come within the tick.
    pub stage: u8,
    /// The budget of movement that the particle has gathered.
    pub initiative: Fixed,
    /// The colour as it is drawn, red first.
    pub rgba: u32,
    pub velocity_x: Fixed,
    pub velocity_y: Fixed,
    pub subpixel_position_x: Fixed,
    pub subpixel_position_y: Fixed,
    pub mass: Fixed,
    pub temperature: Fixed,
    /// Private to the behaviour. Dust keeps its generator's state in the lower half.
    pub scratch1: u64,
    /// Private to the behaviour.
    pub scratch2: u64,
}

/// A particle of the given type with every other attribute at zero.
pub open spec fn blank(type_id: u8) -> Attributes {
    Attributes {
        type_id,
        tick_parity: false,
        stage: 0,
        initiative: 0,
        rgba: 0,
        velocity_x: 0,
        velocity_y: 0,
        subpixel_position_x: 0,
        subpixel_position_y: 0,
        mass: 0,
        temperature: 0,
        scratch1: 0,
        scratch2: 0,
    }
}

impl Attributes {
    /// A particle of the given type with every other attribute at zero.
    pub fn blank(type_id: u8) -> (attributes: Attributes)
        ensures
            attributes == blank(type_id),
    {
        Attributes {
            type_id,
            tick_parity: false,
            stage: 0,
            initiative: 0,
            rgba: 0,
            velocity_x: 0,
            velocity_y: 0,
            subpixel_position_x: 0,
            subpixel_position_y: 0,
            mass: 0,
            temperature: 0,
            scratch1: 0,
            scratch2: 0,
        }
    }
}

/// The grid as contracts speak of it.
pub struct WorldView {
    pub width: int,
    pub height: int,
    pub tick: int,
    pub wrapping_behaviour: WrappingBehaviour,
    /// One status per worker.
    pub worker_statuses: Seq<i32>,
    /// One lock per cell: `FREE`, or the id of the worker that holds the cell.
    pub locks: Seq<i32>,
    /// One particle per cell, row after row.
    pub cells: Seq<Attributes>,
}

impl WorldView {
    /// The grid has a particle and a lock for each of its `width * height`
    /// cells, and every type tag in it has a behaviour.
    pub open spec fn wf(self) -> bool {
        &&& 0 <= self.width <= MAX_WIDTH
        &&& 0 <= self.height <= MAX_HEIGHT
        &&& i32::MIN <= self.tick <= i32::MAX
        &&& self.cells.len() == self.width * self.height
        &&& self.locks.len() == self.cells.len()
        &&& self.wrapping_behaviour.wf()
        &&& forall|i: int| 0 <= i < self.cells.len() ==> is_known_type(#[trigger] self.cells[i].type_id)
    }

    /// Whether the position is one of the grid's cells.
    pub open spec fn contains(self, x: int, y: int) -> bool {
        0 <= x < self.width && 0 <= y < self.height
    }

    /// The linear index of the cell at a position.
    pub open spec fn index_of(self, x: int, y: int) -> int {
        x + y * self.width
    }

    /// The type of the boundary particle that stands at a position outside
    /// the grid. Beyond a corner the left side goes first, then the top, then
    /// the right.
    pub open spec fn boundary_type(self, x: int, y: int) -> u8 {
        if x < 0 {
            self.wrapping_behaviour.left
        } else if y < 0 {
            self.wrapping_behaviour.top
        } else if x >= self.width {
            self.wrapping_behaviour.right
        } else {
            self.wrapping_behaviour.bottom
        }
    }

    /// What a worker reads at a position: the particle of the cell, or
    /// outside the grid the boundary particle of that side, which is of the
    /// configured type and has zero for the rest.
    pub open spec fn read_at(self, x: int, y: int) -> Attributes {
        if self.contains(x, y) {
            self.cells[self.index_of(x, y)]
        } else {
            blank(self.boundary_type(x, y))
        }
    }

    /// The grid after a worker has written a particle at a position. Outside
    /// the grid nothing is kept.
    pub open spec fn write_at(self, x: int, y: int, attributes: Attributes) -> WorldView {
        if self.contains(x, y) {
            self.with_cell(self.index_of(x, y), attributes)
        } else {
            self
        }
    }

    /// The grid with one cell's particle replaced.
    pub open spec fn with_cell(self, index: int, attributes: Attributes) -> WorldView {
        WorldView { cells: self.cells.update(index, attributes), ..self }
    }

    /// The grid with one cell's lock replaced.
    pub open spec fn with_lock(self, index: int, owner: i32) -> WorldView {
        WorldView { locks: self.locks.update(index, owner), ..self }
    }

    /// The grid at another tick.
    pub open spec fn with_tick(self, tick: int) -> WorldView {
        WorldView { tick, ..self }
    }

    /// The grid with one worker's status replaced.
    pub open spec fn with_worker_status(self, worker: int, status: i32) -> WorldView {
        WorldView { worker_statuses: self.worker_statuses.update(worker, status), ..self }
    }
}

/// A position inside a grid has its linear index inside the grid's arrays.
pub proof fn lemma_index_in_range(width: int, height: int, x: int, y: int)
    requires
        0 <= x < width,
        0 <= y < height,
    ensures
        0 <= y * width <= x + y * width < width * height,
{
    assert(0 <= y * width && y * width + width <= height * width && height * width == width
        * height) by (nonlinear_arith)
        requires
            0 <= y,
            y + 1 <= height,
            0 < width,
    ;
}

/// Two positions inside a grid have the same linear index only if they are
/// the same position.
pub proof fn lemma_index_injective(width: int, height: int, x1: int, y1: int, x2: int, y2: int)
    requires
        0 <= x1 < width,
        0 <= y1 < height,
        0 <= x2 < width,
        0 <= y2 < height,
        x1 + y1 * width == x2 + y2 * width,
    ensures
        x1 == x2,
        y1 == y2,
{
    if y1 < y2 {
        assert((y1 + 1) * width <= y2 * width) by (nonlinear_arith)
            requires
                y1 + 1 <= y2,
                0 < width,
        ;
        assert((y1 + 1) * width == y1 * width + width) by (nonlinear_arith);
    }
    if y2 < y1 {
        assert((y2 + 1) * width <= y1 * width) by (nonlinear_arith)
            requires
                y2 + 1 <= y1,
                0 < width,
        ;
        assert((y2 + 1) * width == y2 * width + width) by (nonlinear_arith);
    }
}

/// The storage of a grid.
pub struct World {
    width: i32,
    height: i32,
    tick: i32,
    wrapping_behaviour: WrappingBehaviour,
    worker_statuses: Vec<i32>,
    lock: Vec<i32>,
    type_id: Vec<u8>,
    tick_parity: Vec<bool>,
    stage: Vec<u8>,
    initiative: Vec<Fixed>,
    rgba: Vec<u32>,
    velocity_x: Vec<Fixed>,
    velocity_y: Vec<Fixed>,
    subpixel_position_x: Vec<Fixed>,
    subpixel_position_y: Vec<Fixed>,
    mass: Vec<Fixed>,
    temperature: Vec<Fixed>,
    scratch1: Vec<u64>,
    scratch2: Vec<u64>,
}

impl View for World {
    type V = WorldView;

    closed spec fn view(&self) -> WorldView {
        WorldView {
            width: self.width as int,
            height: self.height as int,
            tick: self.tick as int,
            wrapping_behaviour: self.wrapping_behaviour,
            worker_statuses: self.worker_statuses@,
            locks: self.lock@,
            cells: Seq::new(
                self.lock@.len(),
                |i: int|
                    Attributes {
                        type_id: self.type_id@[i],
                        tick_parity: self.tick_parity@[i],
                        stage: self.stage@[i],
                        initiative: self.initiative@[i],
                        rgba: self.rgba@[i],
                        velocity_x: self.velocity_x@[i],
                        velocity_y: self.velocity_y@[i],
                        subpixel_position_x: self.subpixel_position_x@[i],
                        subpixel_position_y: self.subpixel_position_y@[i],
                        mass: self.mass@[i],
                        temperature: self.temperature@[i],
                        scratch1: self.scratch1@[i],
                        scratch2: self.scratch2@[i],
                    },
            ),
        }
    }
}

/// A vector of `len` copies of `value`.
fn filled<T: Copy>(value: T, len: usize) -> (v: Vec<T>)
    ensures
        v@.len() == len,
        forall|i: int| 0 <= i < len ==> v@[i] == value,
{
    let mut v: Vec<T> = Vec::new();
    while v.len() < len
        invariant
            v@.len() <= len,
            forall|i: int| 0 <= i < v@.len() ==> v@[i] == value,
        decreases len - v@.len(),
    {
        v.push(value);
    }
    v
}

impl World {
    /// Every attribute array is as long as the array of locks.
    pub closed spec fn aligned(&self) -> bool {
        let len = self.lock@.len();
        &&& self.type_id@.len() == len
        &&& self.tick_parity@.len() == len
        &&& self.stage@.len() == len
        &&& self.initiative@.len() == len
        &&& self.rgba@.len() == len
        &&& self.velocity_x@.len() == len
        &&& self.velocity_y@.len() == len
        &&& self.subpixel_position_x@.len() == len
        &&& self.subpixel_position_y@.len() == len
        &&& self.mass@.len() == len
        &&& self.temperature@.len() == len
        &&& self.scratch1@.len() == len
        &&& self.scratch2@.len() == len
    }

    /// The storage is in one piece and describes a grid.
    pub open spec fn wf(&self) -> bool {
        self.aligned() && self@.wf()
    }

    /// A grid of the given size at tick zero, in which every cell is free and
    /// holds air with all attributes at zero, for the given number of workers,
    /// none of them running. There is none for a size beyond `MAX_WIDTH` by
    /// `MAX_HEIGHT` or below zero, nor for a boundary of an unknown type.
    pub fn new(width: i32, height: i32, wrapping_behaviour: WrappingBehaviour, workers: usize) -> (world: Option<World>)
        ensures
            world is Some <==> 0 <= width <= MAX_WIDTH && 0 <= height <= MAX_HEIGHT
                && wrapping_behaviour.wf(),
            world matches Some(w) ==> {
                &&& w.wf()
                &&& w@.width == width
                &&& w@.height == height
                &&& w@.tick == 0
                &&& w@.wrapping_behaviour == wrapping_behaviour
                &&& w@.worker_statuses == Seq::new(workers as nat, |i: int| 0i32)
                &&& w@.locks == Seq::new((width * height) as nat, |i: int| FREE)
                &&& w@.cells == Seq::new((width * height) as nat, |i: int| blank(AIR))
            },
    {
        if width < 0 || width > MAX_WIDTH || height < 0 || height > MAX_HEIGHT {
            return None;
        }
        if !(known_type(wrapping_behaviour.top) && known_type(wrapping_behaviour.left)
            && known_type(wrapping_behaviour.bottom) && known_type(wrapping_behaviour.right)) {
            return None;
        }
        assert(0 <= width * height <= MAX_WIDTH * MAX_HEIGHT) by (nonlinear_arith)
            requires
                0 <= width <= MAX_WIDTH,
                0 <= height <= MAX_HEIGHT,
        ;
        let len: usize = (width as usize) * (height as usize);
        let world = World {
            width,
            height,
            tick: 0,
            wrapping_behaviour,
            worker_statuses: filled(0i32, workers),
            lock: filled(FREE, len),
            type_id: filled(AIR, len),
            tick_parity: filled(false, len),
            stage: filled(0u8, len),
            initiative: filled(0i32, len),
            rgba: filled(0u32, len),
            velocity_x: filled(0i32, len),
            velocity_y: filled(0i32, len),
            subpixel_position_x: filled(0i32, len),
            subpixel_position_y: filled(0i32, len),
            mass: filled(0i32, len),
            temperature: filled(0i32, len),
            scratch1: filled(0u64, len),
            scratch2: filled(0u64, len),
        };
        assert(world@.worker_statuses =~= Seq::new(workers as nat, |i: int| 0i32));
        assert(world@.locks =~= Seq::new((width * height) as nat, |i: int| FREE));
        assert(world@.cells =~= Seq::new((width * height) as nat, |i: int| blank(AIR)));
        Some(world)
    }
}

impl World {
    pub fn width(&self) -> (width: i32)
        ensures
            width == self@.width,
    {
        self.width
    }

    pub fn height(&self) -> (height: i32)
        ensures
            height == self@.height,
    {
        self.height
    }

    /// The number of cells.
    pub fn len(&self) -> (len: usize)
        requires
            self.wf(),
        ensures
            len == self@.cells.len(),
            len == self@.width * self@.height,
    {
        self.lock.len()
    }

    pub fn wrapping_behaviour(&self) -> (wrapping_behaviour: WrappingBehaviour)
        ensures
            wrapping_behaviour == self@.wrapping_behaviour,
    {
        self.wrapping_behaviour
    }

    /// The global tick.
    pub fn tick(&self) -> (tick: i32)
        ensures
            tick == self@.tick,
    {
        self.tick
    }

    /// Whether the global tick is an odd one.
    pub fn tick_is_odd(&self) -> (odd: bool)
        ensures
            odd == is_odd(self@.tick),
    {
        self.tick % 2 != 0
    }

    pub fn set_tick(&mut self, tick: i32)
        requires
            old(self).wf(),
        ensures
            final(self).wf(),
            final(self)@ == old(self)@.with_tick(tick as int),
    {
        self.tick = tick;
    }

    /// Moves the global tick on by one. After the last tick that 32 bits can
    /// count comes the first, which keeps odd and even ticks alternating.
    pub fn advance_tick(&mut self)
        requires
            old(self).wf(),
        ensures
            final(self).wf(),
            final(self)@ == old(self)@.with_tick(
                if old(self)@.tick == i32::MAX {
                    i32::MIN as int
                } else {
                    old(self)@.tick + 1
                },
            ),
            is_odd(final(self)@.tick) != is_odd(old(self)@.tick),
    {
        if self.tick == i32::MAX {
            self.tick = i32::MIN;
        } else {
            self.tick = self.tick + 1;
        }
    }

    /// The number of workers that the grid keeps a status for.
    pub fn workers(&self) -> (workers: usize)
        ensures
            workers == self@.worker_statuses.len(),
    {
        self.worker_statuses.len()
    }

    pub fn worker_status(&self, worker: usize) -> (status: i32)
        requires
            worker < self@.worker_statuses.len(),
        ensures
            status == self@.worker_statuses[worker as int],
    {
        self.worker_statuses[worker]
    }

    pub fn set_worker_status(&mut self, worker: usize, status: i32)
        requires
            old(self).wf(),
            worker < old(self)@.worker_statuses.len(),
        ensures
            final(self).wf(),
            final(self)@ == old(self)@.with_worker_status(worker as int, status),
    {
        self.worker_statuses.set(worker, status);
        assert(self@.cells =~= old(self)@.cells);
    }

    /// The lock of a cell: `FREE`, or the id of its holder.
    pub fn lock(&self, index: usize) -> (owner: i32)
        requires
            self.wf(),
            index < self@.cells.len(),
        ensures
            owner == self@.locks[index as int],
    {
        self.lock[index]
    }

    /// Writes `new` into the lock of a cell if the lock holds `expected`, as
    /// one step, and returns what the lock held before.
    pub fn lock_compare_exchange(&mut self, index: usize, expected: i32, new: i32) -> (previous: i32)
        requires
            old(self).wf(),
            index < old(self)@.cells.len(),
        ensures
            final(self).wf(),
            previous == old(self)@.locks[index as int],
            previous == expected ==> final(self)@ == old(self)@.with_lock(index as int, new),
            previous != expected ==> final(self)@ == old(self)@,
    {
        let previous: i32 = self.lock[index];
        if previous == expected {
            self.lock.set(index, new);
            assert(self@.cells =~= old(self)@.cells);
        }
        previous
    }

    /// Writes into the lock of a cell, whatever it held.
    pub fn lock_store(&mut self, index: usize, owner: i32)
        requires
            old(self).wf(),
            index < old(self)@.cells.len(),
        ensures
            final(self).wf(),
            final(self)@ == old(self)@.with_lock(index as int, owner),
    {
        self.lock.set(index, owner);
        assert(self@.cells =~= old(self)@.cells);
    }

    /// All attributes of a cell at once.
    pub fn get(&self, index: usize) -> (attributes: Attributes)
        requires
            self.wf(),
            index < self@.cells.len(),
        ensures
            attributes == self@.cells[index as int],
    {
        Attributes {
            type_id: self.type_id[index],
            tick_parity: self.tick_parity[index],
            stage: self.stage[index],
            initiative: self.initiative[index],
            rgba: self.rgba[index],
            velocity_x: self.velocity_x[index],
            velocity_y: self.velocity_y[index],
            subpixel_position_x: self.subpixel_position_x[index],
            subpixel_position_y: self.subpixel_position_y[index],
            mass: self.mass[index],
            temperature: self.temperature[index],
            scratch1: self.scratch1[index],
            scratch2: self.scratch2[index],
        }
    }

    /// Overwrites all attributes of a cell at once.
    pub fn set(&mut self, index: usize, attributes: Attributes)
        requires
            old(self).wf(),
            index < old(self)@.cells.len(),
            is_known_type(attributes.type_id),
        ensures
            final(self).wf(),
            final(self)@ == old(self)@.with_cell(index as int, attributes),
    {
        self.type_id.set(index, attributes.type_id);
        self.tick_parity.set(index, attributes.tick_parity);
        self.stage.set(index, attributes.stage);
        self.initiative.set(index, attributes.initiative);
        self.rgba.set(index, attributes.rgba);
        self.velocity_x.set(index, attributes.velocity_x);
        self.velocity_y.set(index, attributes.velocity_y);
        self.subpixel_position_x.set(index, attributes.subpixel_position_x);
        self.subpixel_position_y.set(index, attributes.subpixel_position_y);
        self.mass.set(index, attributes.mass);
        self.temperature.set(index, attributes.temperature);
        self.scratch1.set(index, attributes.scratch1);
        self.scratch2.set(index, attributes.scratch2);
        assert(self@.cells =~= old(self)@.cells.update(index as int, attributes));
    }

    /// The type tag of a cell.
    pub fn type_id(&self, index: usize) -> (value: u8)
        requires
            self.wf(),
            index < self@.cells.len(),
        ensures
            value == self@.cells[index as int].type_id,
    {
        self.type_id[index]
    }

    /// Writes the type tag of a cell.
    pub fn set_type_id(&mut self, index: usize, value: u8)
        requires
            old(self).wf(),
            index < old(self)@.cells.len(),
            is_known_type(value),
        ensures
            final(self).wf(),
            final(self)@ == old(self)@.with_cell(
                index as int,
                (Attributes { type_id: value, ..old(self)@.cells[index as int] }),
            ),
    {
        self.type_id.set(index, value);
        assert(self@.cells =~= old(self)@.cells.update(
            index as int,
            (Attributes { type_id: value, ..old(self)@.cells[index as int] }),
        ));
    }

    /// The tick parity of a cell.
    pub fn tick_parity(&self, index: usize) -> (value: bool)
        requires
            self.wf(),
            index < self@.cells.len(),
        ensures
            value == self@.cells[index as int].tick_parity,
    {
        self.tick_parity[index]
    }

    /// Writes the tick parity of a cell.
    pub fn set_tick_parity(&mut self, index: usize, value: bool)
        requires
            old(self).wf(),
            index < old(self)@.cells.len(),
        ensures
            final(self).wf(),
            final(self)@ == old(self)@.with_cell(
                index as int,
                (Attributes { tick_parity: value, ..old(self)@.cells[index as int] }),
            ),
    {
        self.tick_parity.set(index, value);
        assert(self@.cells =~= old(self)@.cells.update(
            index as int,
            (Attributes { tick_parity: value, ..old(self)@.cells[index as int] }),
        ));
    }

    /// The stage of a cell.
    pub fn stage(&self, index: usize) -> (value: u8)
        requires
            self.wf(),
            index < self@.cells.len(),
        ensures
            value == self@.cells[index as int].stage,
    {
        self.stage[index]
    }

    /// Writes the stage of a cell.
    pub fn set_stage(&mut self, index: usize, value: u8)
        requires
            old(self).wf(),
            index < old(self)@.cells.len(),
        ensures
            final(self).wf(),
            final(self)@ == old(self)@.with_cell(
                index as int,
                (Attributes { stage: value, ..old(self)@.cells[index as int] }),
            ),
    {
        self.stage.set(index, value);
        assert(self@.cells =~= old(self)@.cells.update(
            index as int,
            (Attributes { stage: value, ..old(self)@.cells[index as int] }),
        ));
    }

    /// The initiative of a cell.
    pub fn initiative(&self, index: usize) -> (value: Fixed)
        requires
            self.wf(),
            index < self@.cells.len(),
        ensures
            value == self@.cells[index as int].initiative,
    {
        self.initiative[index]
    }

    /// Writes the initiative of a cell.
    pub fn set_initiative(&mut self, index: usize, value: Fixed)
        requires
            old(self).wf(),
            index < old(self)@.cells.len(),
        ensures
            final(self).wf(),
            final(self)@ == old(self)@.with_cell(
                index as int,
                (Attributes { initiative: value, ..old(self)@.cells[index as int] }),
            ),
    {
        self.initiative.set(index, value);
        assert(self@.cells =~= old(self)@.cells.update(
            index as int,
            (Attributes { initiative: value, ..old(self)@.cells[index as int] }),
        ));
    }

    /// The colour of a cell.
    pub fn rgba(&self, index: usize) -> (value: u32)
        requires
            self.wf(),
            index < self@.cells.len(),
        ensures
            value == self@.cells[index as int].rgba,
    {
        self.rgba[index]
    }

    /// Writes the colour of a cell.
    pub fn set_rgba(&mut self, index: usize, value: u32)
        requires
            old(self).wf(),
            index < old(self)@.cells.len(),
        ensures
            final(self).wf(),
            final(self)@ == old(self)@.with_cell(
                index as int,
                (Attributes { rgba: value, ..old(self)@.cells[index as int] }),
            ),
    {
        self.rgba.set(index, value);
        assert(self@.cells =~= old(self)@.cells.update(
            index as int,
            (Attributes { rgba: value, ..old(self)@.cells[index as int] }),
        ));
    }

    /// The horizontal velocity of a cell.
    pub fn velocity_x(&self, index: usize) -> (value: Fixed)
        requires
            self.wf(),
            index < self@.cells.len(),
        ensures
            value == self@.cells[index as int].velocity_x,
    {
        self.velocity_x[index]
    }

    /// Writes the horizontal velocity of a cell.
    pub fn set_velocity_x(&mut self, index: usize, value: Fixed)
        requires
            old(self).wf(),
            index < old(self)@.cells.len(),
        ensures
            final(self).wf(),
            final(self)@ == old(self)@.with_cell(
                index as int,
                (Attributes { velocity_x: value, ..old(self)@.cells[index as int] }),
            ),
    {
        self.velocity_x.set(index, value);
        assert(self@.cells =~= old(self)@.cells.update(
            index as int,
            (Attributes { velocity_x: value, ..old(self)@.cells[index as int] }),
        ));
    }

    /// The vertical velocity of a cell.
    pub fn velocity_y(&self, index: usize) -> (value: Fixed)
        requires
            self.wf(),
            index < self@.cells.len(),
        ensures
            value == self@.cells[index as int].velocity_y,
    {
        self.velocity_y[index]
    }

    /// Writes the vertical velocity of a cell.
    pub fn set_velocity_y(&mut self, index: usize, value: Fixed)
        requires
            old(self).wf(),
            index < old(self)@.cells.len(),
        ensures
            final(self).wf(),
            final(self)@ == old(self)@.with_cell(
                index as int,
                (Attributes { velocity_y: value, ..old(self)@.cells[index as int] }),
            ),
    {
        self.velocity_y.set(index, value);
        assert(self@.cells =~= old(self)@.cells.update(
            index as int,
            (Attributes { velocity_y: value, ..old(self)@.cells[index as int] }),
        ));
    }

    /// The horizontal position within the cell of a cell.
    pub fn subpixel_position_x(&self, index: usize) -> (value: Fixed)
        requires
            self.wf(),
            index < self@.cells.len(),
        ensures
            value == self@.cells[index as int].subpixel_position_x,
    {
        self.subpixel_position_x[index]
    }

    /// Writes the horizontal position within the cell of a cell.
    pub fn set_subpixel_position_x(&mut self, index: usize, value: Fixed)
        requires
            old(self).wf(),
            index < old(self)@.cells.len(),
        ensures
            final(self).wf(),
            final(self)@ == old(self)@.with_cell(
                index as int,
                (Attributes { subpixel_position_x: value, ..old(self)@.cells[index as int] }),
            ),
    {
        self.subpixel_position_x.set(index, value);
        assert(self@.cells =~= old(self)@.cells.update(
            index as int,
            (Attributes { subpixel_position_x: value, ..old(self)@.cells[index as int] }),
        ));
    }

    /// The vertical position within the cell of a cell.
    pub fn subpixel_position_y(&self, index: usize) -> (value: Fixed)
        requires
            self.wf(),
            index < self@.cells.len(),
        ensures
            value == self@.cells[index as int].subpixel_position_y,
    {
        self.subpixel_position_y[index]
    }

    /// Writes the vertical position within the cell of a cell.
    pub fn set_subpixel_position_y(&mut self, index: usize, value: Fixed)
        requires
            old(self).wf(),
            index < old(self)@.cells.len(),
        ensures
            final(self).wf(),
            final(self)@ == old(self)@.with_cell(
                index as int,
                (Attributes { subpixel_position_y: value, ..old(self)@.cells[index as int] }),
            ),
    {
        self.subpixel_position_y.set(index, value);
        assert(self@.cells =~= old(self)@.cells.update(
            index as int,
            (Attributes { subpixel_position_y: value, ..old(self)@.cells[index as int] }),
        ));
    }

    /// The mass of a cell.
    pub fn mass(&self, index: usize) -> (value: Fixed)
        requires
            self.wf(),
            index < self@.cells.len(),
        ensures
            value == self@.cells[index as int].mass,
    {
        self.mass[index]
    }

    /// Writes the mass of a cell.
    pub fn set_mass(&mut self, index: usize, value: Fixed)
        requires
            old(self).wf(),
            index < old(self)@.cells.len(),
        ensures
            final(self).wf(),
            final(self)@ == old(self)@.with_cell(
                index as int,
                (Attributes { mass: value, ..old(self)@.cells[index as int] }),
            ),
    {
        self.mass.set(index, value);
        assert(self@.cells =~= old(self)@.cells.update(
            index as int,
            (Attributes { mass: value, ..old(self)@.cells[index as int] }),
        ));
    }

    /// The temperature of a cell.
    pub fn temperature(&self, index: usize) -> (value: Fixed)
        requires
            self.wf(),
            index < self@.cells.len(),
        ensures
            value == self@.cells[index as int].temperature,
    {
        self.temperature[index]
    }

    /// Writes the temperature of a cell.
    pub fn set_temperature(&mut self, index: usize, value: Fixed)
        requires
            old(self).wf(),
            index < old(self)@.cells.len(),
        ensures
            final(self).wf(),
            final(self)@ == old(self)@.with_cell(
                index as int,
                (Attributes { temperature: value, ..old(self)@.cells[index as int] }),
            ),
    {
        self.temperature.set(index, value);
        assert(self@.cells =~= old(self)@.cells.update(
            index as int,
            (Attributes { temperature: value, ..old(self)@.cells[index as int] }),
        ));
    }

    /// The first scratch word of a cell.
    pub fn scratch1(&self, index: usize) -> (value: u64)
        requires
            self.wf(),
            index < self@.cells.len(),
        ensures
            value == self@.cells[index as int].scratch1,
    {
        self.scratch1[index]
    }

    /// Writes the first scratch word of a cell.
    pub fn set_scratch1(&mut self, index: usize, value: u64)
        requires
            old(self).wf(),
            index < old(self)@.cells.len(),
        ensures
            final(self).wf(),
            final(self)@ == old(self)@.with_cell(
                index as int,
                (Attributes { scratch1: value, ..old(self)@.cells[index as int] }),
            ),
    {
        self.scratch1.set(index, value);
        assert(self@.cells =~= old(self)@.cells.update(
            index as int,
            (Attributes { scratch1: value, ..old(self)@.cells[index as int] }),
        ));
    }

    /// The second scratch word of a cell.
    pub fn scratch2(&self, index: usize) -> (value: u64)
        requires
            self.wf(),
            index < self@.cells.len(),
        ensures
            value == self@.cells[index as int].scratch2,
    {
        self.scratch2[index]
    }

    /// Writes the second scratch word of a cell.
    pub fn set_scratch2(&mut self, index: usize, value: u64)
        requires
            old(self).wf(),
            index < old(self)@.cells.len(),
        ensures
            final(self).wf(),
            final(self)@ == old(self)@.with_cell(
                index as int,
                (Attributes { scratch2: value, ..old(self)@.cells[index as int] }),
            ),
    {
        self.scratch2.set(index, value);
        assert(self@.cells =~= old(self)@.cells.update(
            index as int,
            (Attributes { scratch2: value, ..old(self)@.cells[index as int] }),
        ));
    }
}

} // verus!
