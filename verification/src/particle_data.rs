//! Handles on cells, and the protocol by which a worker gets one.
//!
//! A worker reads and writes a cell only through a handle, and gets the
//! handle by writing its id into the cell's lock while the lock is free.
//! Whoever finds the lock taken goes without the cell for this tick. A
//! position outside the grid has no cell and no lock: its handle stands for a
//! boundary particle that reads as zero and swallows every write.
//!
//! A handle does not borrow the grid, so that a worker can hold two at a
//! time. It must be handed back with `release` once, whichever way the worker
//! leaves.
//!
//! A worker's id is any number but `FREE`, the value of a lock that nobody
//! holds: no handle is ever made for `FREE`.

use vstd::prelude::*;
use crate::fixed::Fixed;
use crate::world::{
    blank, is_odd, lemma_index_in_range, Attributes, World, WorldView, FREE, MAX_HEIGHT, MAX_WIDTH,
    is_known_type,
};

verus! {

/// The seed that a cell has at a tick: the tick, with the cell's column laid
/// over its upper half and the cell's row over its lower half.
pub open spec fn seed_at(tick: i32, x: i32, y: i32) -> u32 {
    (tick as u32) | ((x as u32) << 16) | (y as u32)
}

/// The handle on a cell of the grid.
#[derive(Debug)]
#[must_use]
pub struct RealParticle {
    thread_id: i32,
    x: i32,
    y: i32,
    w: i32,
    h: i32,
}

/// The handle on a position outside the grid.
#[derive(Debug)]
pub struct FakeParticle {
    thread_id: i32,
    x: i32,
    y: i32,
    type_id: u8,
}

/// A handle of either kind.
#[derive(Debug)]
#[must_use]
pub enum BaseParticle {
    Real(RealParticle),
    Fake(FakeParticle),
}

impl RealParticle {
    #[verifier::type_invariant]
    spec fn inside(&self) -> bool {
        &&& 0 <= self.x < self.w <= MAX_WIDTH
        &&& 0 <= self.y < self.h <= MAX_HEIGHT
        &&& self.thread_id != FREE
    }

    /// The worker that the handle was made for.
    pub closed spec fn spec_thread_id(&self) -> i32 {
        self.thread_id
    }

    pub closed spec fn spec_x(&self) -> i32 {
        self.x
    }

    pub closed spec fn spec_y(&self) -> i32 {
        self.y
    }

    /// The width of the grid that the handle was made on.
    pub closed spec fn spec_w(&self) -> i32 {
        self.w
    }

    /// The height of the grid that the handle was made on.
    pub closed spec fn spec_h(&self) -> i32 {
        self.h
    }

    /// The linear index of the handle's cell.
    pub open spec fn spec_index(&self) -> int {
        self.spec_x() + self.spec_y() * self.spec_w()
    }

    /// The handle is for a cell of this grid.
    pub open spec fn fits(&self, world: WorldView) -> bool {
        &&& self.spec_w() == world.width
        &&& self.spec_h() == world.height
        &&& world.contains(self.spec_x() as int, self.spec_y() as int)
    }

    /// The handle is for a cell of this grid, and the cell's lock names the
    /// handle's worker.
    pub open spec fn held(&self, world: WorldView) -> bool {
        self.fits(world) && world.locks[self.spec_index()] == self.spec_thread_id()
    }

    /// What the handle reads.
    pub open spec fn attributes(&self, world: WorldView) -> Attributes {
        world.cells[self.spec_index()]
    }

    /// The grid after the handle has written `attributes`.
    pub open spec fn put(&self, world: WorldView, attributes: Attributes) -> WorldView {
        world.with_cell(self.spec_index(), attributes)
    }

    /// A handle on a cell of a well-formed grid has its index in the grid.
    pub proof fn lemma_index(&self, world: WorldView)
        requires
            world.wf(),
            self.fits(world),
        ensures
            0 <= self.spec_index() < world.cells.len(),
    {
        lemma_index_in_range(world.width, world.height, self.spec_x() as int, self.spec_y() as int);
    }

    /// The worker that the handle was made for, which is never `FREE`.
    #[verifier::when_used_as_spec(spec_thread_id)]
    pub fn thread_id(&self) -> (thread_id: i32)
        ensures
            thread_id == self.spec_thread_id(),
            thread_id != FREE,
    {
        proof {
            use_type_invariant(self);
        }
        self.thread_id
    }

    #[verifier::when_used_as_spec(spec_x)]
    pub fn x(&self) -> (x: i32)
        ensures
            x == self.spec_x(),
    {
        self.x
    }

    #[verifier::when_used_as_spec(spec_y)]
    pub fn y(&self) -> (y: i32)
        ensures
            y == self.spec_y(),
    {
        self.y
    }

    /// The width of the grid that the handle was made on.
    #[verifier::when_used_as_spec(spec_w)]
    pub fn w(&self) -> (w: i32)
        ensures
            w == self.spec_w(),
    {
        self.w
    }

    /// The height of the grid that the handle was made on.
    #[verifier::when_used_as_spec(spec_h)]
    pub fn h(&self) -> (h: i32)
        ensures
            h == self.spec_h(),
    {
        self.h
    }

    pub fn index(&self) -> (index: u32)
        ensures
            index == self.spec_index(),
    {
        proof {
            use_type_invariant(self);
            lemma_index_in_range(self.w as int, self.h as int, self.x as int, self.y as int);
            assert(self.w * self.h <= MAX_WIDTH * MAX_HEIGHT) by (nonlinear_arith)
                requires
                    0 <= self.w <= MAX_WIDTH,
                    0 <= self.h <= MAX_HEIGHT,
            ;
        }
        (self.x + self.y * self.w) as u32
    }

    /// Whether this is the first call for the cell in the current tick. The
    /// cell remembers the tick's parity, so every later call in the same tick
    /// says no.
    pub fn is_new_tick(&self, world: &mut World) -> (new: bool)
        requires
            old(world).wf(),
            self.held(old(world)@),
        ensures
            final(world).wf(),
            new == (self.attributes(old(world)@).tick_parity != is_odd(old(world)@.tick)),
            final(world)@ == self.put(
                old(world)@,
                (Attributes {
                    tick_parity: is_odd(old(world)@.tick),
                    ..self.attributes(old(world)@)
                }),
            ),
    {
        proof {
            self.lemma_index(world@);
        }
        let index: usize = self.index() as usize;
        let parity: bool = world.tick_is_odd();
        let new: bool = world.tick_parity(index) != parity;
        world.set_tick_parity(index, parity);
        new
    }

    /// A seed for the cell's generator that differs from tick to tick and
    /// from cell to cell.
    pub fn get_random_seed(&self, world: &World) -> (seed: u32)
        ensures
            seed == seed_at(world@.tick as i32, self.spec_x(), self.spec_y()),
    {
        (world.tick() as u32) | ((self.x as u32) << 16) | (self.y as u32)
    }

    /// Gives the cell back: its lock becomes free, whatever it held.
    pub fn release(self, world: &mut World)
        requires
            old(world).wf(),
            self.fits(old(world)@),
        ensures
            final(world).wf(),
            final(world)@ == old(world)@.with_lock(self.spec_index(), FREE),
    {
        proof {
            self.lemma_index(world@);
        }
        let index: usize = self.index() as usize;
        world.lock_store(index, FREE);
    }
}

impl FakeParticle {
    #[verifier::type_invariant]
    spec fn owned(&self) -> bool {
        self.thread_id != FREE
    }

    /// The boundary particle is of a type that has a behaviour.
    pub open spec fn wf(&self) -> bool {
        is_known_type(self.spec_type_id())
    }

    /// The worker that the handle was made for.
    pub closed spec fn spec_thread_id(&self) -> i32 {
        self.thread_id
    }

    pub closed spec fn spec_x(&self) -> i32 {
        self.x
    }

    pub closed spec fn spec_y(&self) -> i32 {
        self.y
    }

    /// The type that the boundary was configured with on this side.
    pub closed spec fn spec_type_id(&self) -> u8 {
        self.type_id
    }

    /// What the handle reads: its type, and zero for the rest.
    pub open spec fn attributes(&self) -> Attributes {
        blank(self.spec_type_id())
    }

    /// The worker that the handle was made for, which is never `FREE`.
    #[verifier::when_used_as_spec(spec_thread_id)]
    pub fn thread_id(&self) -> (thread_id: i32)
        ensures
            thread_id == self.spec_thread_id(),
            thread_id != FREE,
    {
        proof {
            use_type_invariant(self);
        }
        self.thread_id
    }

    #[verifier::when_used_as_spec(spec_x)]
    pub fn x(&self) -> (x: i32)
        ensures
            x == self.spec_x(),
    {
        self.x
    }

    #[verifier::when_used_as_spec(spec_y)]
    pub fn y(&self) -> (y: i32)
        ensures
            y == self.spec_y(),
    {
        self.y
    }

    /// Never: a boundary particle is not advanced.
    pub fn is_new_tick(&self) -> (new: bool)
        ensures
            !new,
    {
        false
    }

    /// The seed of the position at the grid's tick.
    pub fn get_random_seed(&self, world: &World) -> (seed: u32)
        ensures
            seed == seed_at(world@.tick as i32, self.spec_x(), self.spec_y()),
    {
        (world.tick() as u32) | ((self.x as u32) << 16) | (self.y as u32)
    }
}

impl RealParticle {
    /// All attributes of the cell at once.
    pub fn read(&self, world: &World) -> (attributes: Attributes)
        requires
            world.wf(),
            self.held(world@),
        ensures
            attributes == self.attributes(world@),
    {
        proof {
            self.lemma_index(world@);
        }
        world.get(self.index() as usize)
    }

    /// Overwrites all attributes of the cell at once.
    pub fn write(&self, world: &mut World, attributes: Attributes)
        requires
            old(world).wf(),
            self.held(old(world)@),
            is_known_type(attributes.type_id),
        ensures
            final(world).wf(),
            final(world)@ == self.put(old(world)@, attributes),
    {
        proof {
            self.lemma_index(world@);
        }
        world.set(self.index() as usize, attributes);
    }

    /// The type tag of the cell.
    pub fn type_id(&self, world: &World) -> (value: u8)
        requires
            world.wf(),
            self.held(world@),
        ensures
            value == self.attributes(world@).type_id,
    {
        proof {
            self.lemma_index(world@);
        }
        world.type_id(self.index() as usize)
    }

    /// Writes the type tag of the cell.
    pub fn set_type_id(&self, world: &mut World, value: u8)
        requires
            old(world).wf(),
            self.held(old(world)@),
            is_known_type(value),
        ensures
            final(world).wf(),
            final(world)@ == self.put(
                old(world)@,
                (Attributes { type_id: value, ..self.attributes(old(world)@) }),
            ),
    {
        proof {
            self.lemma_index(world@);
        }
        world.set_type_id(self.index() as usize, value);
    }

    /// The stage of the cell.
    pub fn stage(&self, world: &World) -> (value: u8)
        requires
            world.wf(),
            self.held(world@),
        ensures
            value == self.attributes(world@).stage,
    {
        proof {
            self.lemma_index(world@);
        }
        world.stage(self.index() as usize)
    }

    /// Writes the stage of the cell.
    pub fn set_stage(&self, world: &mut World, value: u8)
        requires
            old(world).wf(),
            self.held(old(world)@),
        ensures
            final(world).wf(),
            final(world)@ == self.put(
                old(world)@,
                (Attributes { stage: value, ..self.attributes(old(world)@) }),
            ),
    {
        proof {
            self.lemma_index(world@);
        }
        world.set_stage(self.index() as usize, value);
    }

    /// The initiative of the cell.
    pub fn initiative(&self, world: &World) -> (value: Fixed)
        requires
            world.wf(),
            self.held(world@),
        ensures
            value == self.attributes(world@).initiative,
    {
        proof {
            self.lemma_index(world@);
        }
        world.initiative(self.index() as usize)
    }

    /// Writes the initiative of the cell.
    pub fn set_initiative(&self, world: &mut World, value: Fixed)
        requires
            old(world).wf(),
            self.held(old(world)@),
        ensures
            final(world).wf(),
            final(world)@ == self.put(
                old(world)@,
                (Attributes { initiative: value, ..self.attributes(old(world)@) }),
            ),
    {
        proof {
            self.lemma_index(world@);
        }
        world.set_initiative(self.index() as usize, value);
    }

    /// The colour of the cell.
    pub fn rgba(&self, world: &World) -> (value: u32)
        requires
            world.wf(),
            self.held(world@),
        ensures
            value == self.attributes(world@).rgba,
    {
        proof {
            self.lemma_index(world@);
        }
        world.rgba(self.index() as usize)
    }

    /// Writes the colour of the cell.
    pub fn set_rgba(&self, world: &mut World, value: u32)
        requires
            old(world).wf(),
            self.held(old(world)@),
        ensures
            final(world).wf(),
            final(world)@ == self.put(
                old(world)@,
                (Attributes { rgba: value, ..self.attributes(old(world)@) }),
            ),
    {
        proof {
            self.lemma_index(world@);
        }
        world.set_rgba(self.index() as usize, value);
    }

    /// The horizontal velocity of the cell.
    pub fn velocity_x(&self, world: &World) -> (value: Fixed)
        requires
            world.wf(),
            self.held(world@),
        ensures
            value == self.attributes(world@).velocity_x,
    {
        proof {
            self.lemma_index(world@);
        }
        world.velocity_x(self.index() as usize)
    }

    /// Writes the horizontal velocity of the cell.
    pub fn set_velocity_x(&self, world: &mut World, value: Fixed)
        requires
            old(world).wf(),
            self.held(old(world)@),
        ensures
            final(world).wf(),
            final(world)@ == self.put(
                old(world)@,
                (Attributes { velocity_x: value, ..self.attributes(old(world)@) }),
            ),
    {
        proof {
            self.lemma_index(world@);
        }
        world.set_velocity_x(self.index() as usize, value);
    }

    /// The vertical velocity of the cell.
    pub fn velocity_y(&self, world: &World) -> (value: Fixed)
        requires
            world.wf(),
            self.held(world@),
        ensures
            value == self.attributes(world@).velocity_y,
    {
        proof {
            self.lemma_index(world@);
        }
        world.velocity_y(self.index() as usize)
    }

    /// Writes the vertical velocity of the cell.
    pub fn set_velocity_y(&self, world: &mut World, value: Fixed)
        requires
            old(world).wf(),
            self.held(old(world)@),
        ensures
            final(world).wf(),
            final(world)@ == self.put(
                old(world)@,
                (Attributes { velocity_y: value, ..self.attributes(old(world)@) }),
            ),
    {
        proof {
            self.lemma_index(world@);
        }
        world.set_velocity_y(self.index() as usize, value);
    }

    /// The horizontal position within the cell of the cell.
    pub fn subpixel_position_x(&self, world: &World) -> (value: Fixed)
        requires
            world.wf(),
            self.held(world@),
        ensures
            value == self.attributes(world@).subpixel_position_x,
    {
        proof {
            self.lemma_index(world@);
        }
        world.subpixel_position_x(self.index() as usize)
    }

    /// Writes the horizontal position within the cell of the cell.
    pub fn set_subpixel_position_x(&self, world: &mut World, value: Fixed)
        requires
            old(world).wf(),
            self.held(old(world)@),
        ensures
            final(world).wf(),
            final(world)@ == self.put(
                old(world)@,
                (Attributes { subpixel_position_x: value, ..self.attributes(old(world)@) }),
            ),
    {
        proof {
            self.lemma_index(world@);
        }
        world.set_subpixel_position_x(self.index() as usize, value);
    }

    /// The vertical position within the cell of the cell.
    pub fn subpixel_position_y(&self, world: &World) -> (value: Fixed)
        requires
            world.wf(),
            self.held(world@),
        ensures
            value == self.attributes(world@).subpixel_position_y,
    {
        proof {
            self.lemma_index(world@);
        }
        world.subpixel_position_y(self.index() as usize)
    }

    /// Writes the vertical position within the cell of the cell.
    pub fn set_subpixel_position_y(&self, world: &mut World, value: Fixed)
        requires
            old(world).wf(),
            self.held(old(world)@),
        ensures
            final(world).wf(),
            final(world)@ == self.put(
                old(world)@,
                (Attributes { subpixel_position_y: value, ..self.attributes(old(world)@) }),
            ),
    {
        proof {
            self.lemma_index(world@);
        }
        world.set_subpixel_position_y(self.index() as usize, value);
    }

    /// The mass of the cell.
    pub fn mass(&self, world: &World) -> (value: Fixed)
        requires
            world.wf(),
            self.held(world@),
        ensures
            value == self.attributes(world@).mass,
    {
        proof {
            self.lemma_index(world@);
        }
        world.mass(self.index() as usize)
    }

    /// Writes the mass of the cell.
    pub fn set_mass(&self, world: &mut World, value: Fixed)
        requires
            old(world).wf(),
            self.held(old(world)@),
        ensures
            final(world).wf(),
            final(world)@ == self.put(
                old(world)@,
                (Attributes { mass: value, ..self.attributes(old(world)@) }),
            ),
    {
        proof {
            self.lemma_index(world@);
        }
        world.set_mass(self.index() as usize, value);
    }

    /// The temperature of the cell.
    pub fn temperature(&self, world: &World) -> (value: Fixed)
        requires
            world.wf(),
            self.held(world@),
        ensures
            value == self.attributes(world@).temperature,
    {
        proof {
            self.lemma_index(world@);
        }
        world.temperature(self.index() as usize)
    }

    /// Writes the temperature of the cell.
    pub fn set_temperature(&self, world: &mut World, value: Fixed)
        requires
            old(world).wf(),
            self.held(old(world)@),
        ensures
            final(world).wf(),
            final(world)@ == self.put(
                old(world)@,
                (Attributes { temperature: value, ..self.attributes(old(world)@) }),
            ),
    {
        proof {
            self.lemma_index(world@);
        }
        world.set_temperature(self.index() as usize, value);
    }

    /// The first scratch word of the cell.
    pub fn scratch1(&self, world: &World) -> (value: u64)
        requires
            world.wf(),
            self.held(world@),
        ensures
            value == self.attributes(world@).scratch1,
    {
        proof {
            self.lemma_index(world@);
        }
        world.scratch1(self.index() as usize)
    }

    /// Writes the first scratch word of the cell.
    pub fn set_scratch1(&self, world: &mut World, value: u64)
        requires
            old(world).wf(),
            self.held(old(world)@),
        ensures
            final(world).wf(),
            final(world)@ == self.put(
                old(world)@,
                (Attributes { scratch1: value, ..self.attributes(old(world)@) }),
            ),
    {
        proof {
            self.lemma_index(world@);
        }
        world.set_scratch1(self.index() as usize, value);
    }

    /// The second scratch word of the cell.
    pub fn scratch2(&self, world: &World) -> (value: u64)
        requires
            world.wf(),
            self.held(world@),
        ensures
            value == self.attributes(world@).scratch2,
    {
        proof {
            self.lemma_index(world@);
        }
        world.scratch2(self.index() as usize)
    }

    /// Writes the second scratch word of the cell.
    pub fn set_scratch2(&self, world: &mut World, value: u64)
        requires
            old(world).wf(),
            self.held(old(world)@),
        ensures
            final(world).wf(),
            final(world)@ == self.put(
                old(world)@,
                (Attributes { scratch2: value, ..self.attributes(old(world)@) }),
            ),
    {
        proof {
            self.lemma_index(world@);
        }
        world.set_scratch2(self.index() as usize, value);
    }
}

impl FakeParticle {

    /// The type tag that the boundary was configured with.
    pub fn type_id(&self) -> (value: u8)
        ensures
            value == self.attributes().type_id,
    {
        self.type_id
    }

    /// Nothing: a boundary particle keeps no type tag.
    pub fn set_type_id(&self, value: u8) {
    }

    /// Zero: a boundary particle has no stage.
    pub fn stage(&self) -> (value: u8)
        ensures
            value == self.attributes().stage,
    {
        0
    }

    /// Nothing: a boundary particle keeps no stage.
    pub fn set_stage(&self, value: u8) {
    }

    /// Zero: a boundary particle has no initiative.
    pub fn initiative(&self) -> (value: Fixed)
        ensures
            value == self.attributes().initiative,
    {
        0
    }

    /// Nothing: a boundary particle keeps no initiative.
    pub fn set_initiative(&self, value: Fixed) {
    }

    /// Zero: a boundary particle has no colour.
    pub fn rgba(&self) -> (value: u32)
        ensures
            value == self.attributes().rgba,
    {
        0
    }

    /// Nothing: a boundary particle keeps no colour.
    pub fn set_rgba(&self, value: u32) {
    }

    /// Zero: a boundary particle has no horizontal velocity.
    pub fn velocity_x(&self) -> (value: Fixed)
        ensures
            value == self.attributes().velocity_x,
    {
        0
    }

    /// Nothing: a boundary particle keeps no horizontal velocity.
    pub fn set_velocity_x(&self, value: Fixed) {
    }

    /// Zero: a boundary particle has no vertical velocity.
    pub fn velocity_y(&self) -> (value: Fixed)
        ensures
            value == self.attributes().velocity_y,
    {
        0
    }

    /// Nothing: a boundary particle keeps no vertical velocity.
    pub fn set_velocity_y(&self, value: Fixed) {
    }

    /// Zero: a boundary particle has no horizontal position within the cell.
    pub fn subpixel_position_x(&self) -> (value: Fixed)
        ensures
            value == self.attributes().subpixel_position_x,
    {
        0
    }

    /// Nothing: a boundary particle keeps no horizontal position within the cell.
    pub fn set_subpixel_position_x(&self, value: Fixed) {
    }

    /// Zero: a boundary particle has no vertical position within the cell.
    pub fn subpixel_position_y(&self) -> (value: Fixed)
        ensures
            value == self.attributes().subpixel_position_y,
    {
        0
    }

    /// Nothing: a boundary particle keeps no vertical position within the cell.
    pub fn set_subpixel_position_y(&self, value: Fixed) {
    }

    /// Zero: a boundary particle has no mass.
    pub fn mass(&self) -> (value: Fixed)
        ensures
            value == self.attributes().mass,
    {
        0
    }

    /// Nothing: a boundary particle keeps no mass.
    pub fn set_mass(&self, value: Fixed) {
    }

    /// Zero: a boundary particle has no temperature.
    pub fn temperature(&self) -> (value: Fixed)
        ensures
            value == self.attributes().temperature,
    {
        0
    }

    /// Nothing: a boundary particle keeps no temperature.
    pub fn set_temperature(&self, value: Fixed) {
    }

    /// Zero: a boundary particle has no first scratch word.
    pub fn scratch1(&self) -> (value: u64)
        ensures
            value == self.attributes().scratch1,
    {
        0
    }

    /// Nothing: a boundary particle keeps no first scratch word.
    pub fn set_scratch1(&self, value: u64) {
    }

    /// Zero: a boundary particle has no second scratch word.
    pub fn scratch2(&self) -> (value: u64)
        ensures
            value == self.attributes().scratch2,
    {
        0
    }

    /// Nothing: a boundary particle keeps no second scratch word.
    pub fn set_scratch2(&self, value: u64) {
    }
}

/// Whether a worker that asks for the position gets a handle: always outside
/// the grid, and inside it while the cell's lock is free.
pub open spec fn is_available(world: WorldView, x: int, y: int) -> bool {
    world.contains(x, y) ==> world.locks[world.index_of(x, y)] == FREE
}

/// The grid after a worker has asked for the position: the cell's lock names
/// the worker if the position is a cell whose lock was free, and nothing has
/// changed otherwise.
pub open spec fn after_acquire(world: WorldView, thread_id: i32, x: int, y: int) -> WorldView {
    if world.contains(x, y) && world.locks[world.index_of(x, y)] == FREE {
        world.with_lock(world.index_of(x, y), thread_id)
    } else {
        world
    }
}

/// The grid after the cell at the position has been given back.
pub open spec fn after_release(world: WorldView, x: int, y: int) -> WorldView {
    if world.contains(x, y) {
        world.with_lock(world.index_of(x, y), FREE)
    } else {
        world
    }
}

/// `particle` is the handle that the worker gets for the position: on the
/// cell if the position is in the grid, and else on the boundary particle of
/// that side.
pub open spec fn is_handle_at(particle: BaseParticle, world: WorldView, thread_id: i32, x: i32, y: i32) -> bool {
    match particle {
        BaseParticle::Real(p) => {
            &&& world.contains(x as int, y as int)
            &&& p.spec_thread_id() == thread_id
            &&& p.spec_x() == x
            &&& p.spec_y() == y
            &&& p.spec_w() == world.width
            &&& p.spec_h() == world.height
        },
        BaseParticle::Fake(p) => {
            &&& !world.contains(x as int, y as int)
            &&& p.spec_thread_id() == thread_id
            &&& p.spec_x() == x
            &&& p.spec_y() == y
            &&& p.spec_type_id() == world.boundary_type(x as int, y as int)
        },
    }
}

/// A cell has one holder at a time. Once a worker has got a cell, whoever
/// asks for it gets none and changes nothing, the holder included, until the
/// cell is given back; then it can be had again.
pub proof fn lemma_one_holder(world: WorldView, holder: i32, other: i32, x: int, y: int)
    requires
        world.wf(),
        world.contains(x, y),
        is_available(world, x, y),
        holder != FREE,
    ensures
        !is_available(after_acquire(world, holder, x, y), x, y),
        after_acquire(after_acquire(world, holder, x, y), other, x, y) == after_acquire(
            world,
            holder,
            x,
            y,
        ),
        is_available(after_release(after_acquire(world, holder, x, y), x, y), x, y),
        after_release(after_acquire(world, holder, x, y), x, y) == world,
{
    lemma_index_in_range(world.width, world.height, x, y);
    assert(after_release(after_acquire(world, holder, x, y), x, y).locks =~= world.locks);
}

/// A particle is new once in a tick. After it has been seen, it is not new
/// and seeing it again changes nothing, for as long as the tick stays. Once
/// the tick is one of the other parity, the particle of a cell is new again.
pub proof fn lemma_new_once(handle: BaseParticle, world: WorldView, later: int)
    requires
        world.wf(),
        handle.held(world),
    ensures
        !handle.is_new(handle.seen(world)),
        handle.seen(handle.seen(world)) == handle.seen(world),
        handle is Real && is_odd(later) != is_odd(world.tick) ==> handle.is_new(
            handle.seen(world).with_tick(later),
        ),
{
    let seen = Attributes { tick_parity: is_odd(world.tick), ..handle.attributes(world) };
    handle.lemma_put(world, seen, seen);
}

/// Asks for the position on behalf of the worker `thread_id`, which is not
/// `FREE`.
///
/// Outside the grid the worker always gets a handle on the boundary particle
/// of that side, and the grid is not touched. Inside it gets a handle on the
/// cell if the cell's lock was free, and the lock then names the worker. If
/// the lock was taken, by this worker or another, there is no handle and
/// nothing has changed: the worker does without the cell for now.
pub fn new_particle_data(world: &mut World, thread_id: i32, x: i32, y: i32) -> (result: Result<
    BaseParticle,
    (),
>)
    requires
        old(world).wf(),
        thread_id != FREE,
    ensures
        final(world).wf(),
        final(world)@ == after_acquire(old(world)@, thread_id, x as int, y as int),
        result is Ok <==> is_available(old(world)@, x as int, y as int),
        result matches Ok(p) ==> is_handle_at(p, old(world)@, thread_id, x, y) && p.held(
            final(world)@,
        ),
        !old(world)@.contains(x as int, y as int) ==> {
            &&& final(world)@ == old(world)@
            &&& result matches Ok(BaseParticle::Fake(p))
            &&& p.spec_type_id() == old(world)@.boundary_type(x as int, y as int)
        },
{
    let wrapping_behaviour = world.wrapping_behaviour();
    if x < 0 {
        return Ok(BaseParticle::Fake(FakeParticle { thread_id, x, y, type_id: wrapping_behaviour.left }));
    }
    if y < 0 {
        return Ok(BaseParticle::Fake(FakeParticle { thread_id, x, y, type_id: wrapping_behaviour.top }));
    }
    let w: i32 = world.width();
    let h: i32 = world.height();
    if x >= w {
        return Ok(BaseParticle::Fake(FakeParticle { thread_id, x, y, type_id: wrapping_behaviour.right }));
    }
    if y >= h {
        return Ok(
            BaseParticle::Fake(FakeParticle { thread_id, x, y, type_id: wrapping_behaviour.bottom }),
        );
    }
    let p = RealParticle { thread_id, x, y, w, h };
    proof {
        p.lemma_index(world@);
    }
    let index: usize = p.index() as usize;
    if world.lock_compare_exchange(index, FREE, thread_id) == FREE {
        Ok(BaseParticle::Real(p))
    } else {
        Err(())
    }
}

/// As `new_particle_data`, for callers that tell a handle from none.
pub fn new_particle(world: &mut World, thread_id: i32, x: i32, y: i32) -> (result: Option<BaseParticle>)
    requires
        old(world).wf(),
        thread_id != FREE,
    ensures
        final(world).wf(),
        final(world)@ == after_acquire(old(world)@, thread_id, x as int, y as int),
        result is Some <==> is_available(old(world)@, x as int, y as int),
        result matches Some(p) ==> is_handle_at(p, old(world)@, thread_id, x, y) && p.held(
            final(world)@,
        ),
{
    match new_particle_data(world, thread_id, x, y) {
        Ok(p) => Some(p),
        Err(_) => None,
    }
}

impl BaseParticle {
    /// The worker that the handle was made for.
    pub open spec fn spec_thread_id(&self) -> i32 {
        match self {
            BaseParticle::Real(p) => p.spec_thread_id(),
            BaseParticle::Fake(p) => p.spec_thread_id(),
        }
    }

    pub open spec fn spec_x(&self) -> i32 {
        match self {
            BaseParticle::Real(p) => p.spec_x(),
            BaseParticle::Fake(p) => p.spec_x(),
        }
    }

    pub open spec fn spec_y(&self) -> i32 {
        match self {
            BaseParticle::Real(p) => p.spec_y(),
            BaseParticle::Fake(p) => p.spec_y(),
        }
    }

    /// The handle may be used on this grid: it holds its cell, or stands for a
    /// boundary particle.
    pub open spec fn held(&self, world: WorldView) -> bool {
        match self {
            BaseParticle::Real(p) => p.held(world),
            BaseParticle::Fake(p) => p.wf(),
        }
    }

    /// The handle may be given back on this grid.
    pub open spec fn fits(&self, world: WorldView) -> bool {
        match self {
            BaseParticle::Real(p) => p.fits(world),
            BaseParticle::Fake(p) => true,
        }
    }

    /// What the handle reads.
    pub open spec fn attributes(&self, world: WorldView) -> Attributes {
        match self {
            BaseParticle::Real(p) => p.attributes(world),
            BaseParticle::Fake(p) => p.attributes(),
        }
    }

    /// The grid after the handle has written `attributes`: a boundary
    /// particle keeps nothing.
    pub open spec fn put(&self, world: WorldView, attributes: Attributes) -> WorldView {
        match self {
            BaseParticle::Real(p) => p.put(world, attributes),
            BaseParticle::Fake(p) => world,
        }
    }

    /// Whether the particle behind the handle has not been seen in the
    /// grid's tick yet: a cell's particle whose tick parity is not the
    /// tick's. A boundary particle is never new.
    pub open spec fn is_new(&self, world: WorldView) -> bool {
        self is Real && self.attributes(world).tick_parity != is_odd(world.tick)
    }

    /// The grid after the particle behind the handle has been seen in the
    /// grid's tick: its tick parity is the tick's.
    pub open spec fn seen(&self, world: WorldView) -> WorldView {
        self.put(
            world,
            Attributes { tick_parity: is_odd(world.tick), ..self.attributes(world) },
        )
    }

    /// The grid after the handle has been given back.
    pub open spec fn released(&self, world: WorldView) -> WorldView {
        match self {
            BaseParticle::Real(p) => world.with_lock(p.spec_index(), FREE),
            BaseParticle::Fake(p) => world,
        }
    }

    /// The handle that a worker got for a position reads and writes what
    /// stands at that position, on every grid of the same size and boundary.
    pub proof fn lemma_at(
        &self,
        origin: WorldView,
        world: WorldView,
        thread_id: i32,
        x: i32,
        y: i32,
        attributes: Attributes,
    )
        requires
            is_handle_at(*self, origin, thread_id, x, y),
            world.width == origin.width,
            world.height == origin.height,
            world.wrapping_behaviour == origin.wrapping_behaviour,
        ensures
            self.attributes(world) == world.read_at(x as int, y as int),
            self.put(world, attributes) == world.write_at(x as int, y as int, attributes),
            self.fits(world),
            self.released(world) == after_release(world, x as int, y as int),
    {
    }

    /// What a handle reads on a well-formed grid is of a type that has a
    /// behaviour.
    pub proof fn lemma_known_type(&self, world: WorldView)
        requires
            world.wf(),
            self.held(world),
        ensures
            is_known_type(self.attributes(world).type_id),
    {
        match self {
            BaseParticle::Real(p) => p.lemma_index(world),
            BaseParticle::Fake(_) => {},
        }
    }

    /// Of two writes through one handle the later one counts, a write is
    /// read back as it was made unless a boundary particle swallowed it, and
    /// no write changes who holds what.
    pub proof fn lemma_put(&self, world: WorldView, first: Attributes, second: Attributes)
        requires
            world.wf(),
            self.fits(world),
        ensures
            self.put(self.put(world, first), second) == self.put(world, second),
            self.put(world, self.attributes(world)) == world,
            self is Real ==> self.attributes(self.put(world, first)) == first,
            self is Fake ==> self.attributes(self.put(world, first)) == self.attributes(world),
            self.put(world, first).locks == world.locks,
            self.fits(self.put(world, first)),
            self.held(world) ==> self.held(self.put(world, first)),
            is_known_type(first.type_id) ==> self.put(world, first).wf(),
    {
        match self {
            BaseParticle::Real(p) => {
                p.lemma_index(world);
                assert(self.put(self.put(world, first), second).cells =~= self.put(
                    world,
                    second,
                ).cells);
                assert(self.put(world, self.attributes(world)).cells =~= world.cells);
            },
            BaseParticle::Fake(_) => {},
        }
    }

    /// The worker that the handle was made for, which is never `FREE`.
    #[verifier::when_used_as_spec(spec_thread_id)]
    pub fn thread_id(&self) -> (thread_id: i32)
        ensures
            thread_id == self.spec_thread_id(),
            thread_id != FREE,
    {
        match self {
            BaseParticle::Real(p) => p.thread_id(),
            BaseParticle::Fake(p) => p.thread_id(),
        }
    }

    #[verifier::when_used_as_spec(spec_x)]
    pub fn x(&self) -> (x: i32)
        ensures
            x == self.spec_x(),
    {
        match self {
            BaseParticle::Real(p) => p.x(),
            BaseParticle::Fake(p) => p.x(),
        }
    }

    #[verifier::when_used_as_spec(spec_y)]
    pub fn y(&self) -> (y: i32)
        ensures
            y == self.spec_y(),
    {
        match self {
            BaseParticle::Real(p) => p.y(),
            BaseParticle::Fake(p) => p.y(),
        }
    }

    /// Gives the handle back. The lock of a cell becomes free, whatever it
    /// held; a boundary particle has none.
    pub fn release(self, world: &mut World)
        requires
            old(world).wf(),
            self.fits(old(world)@),
        ensures
            final(world).wf(),
            final(world)@ == self.released(old(world)@),
    {
        match self {
            BaseParticle::Real(p) => p.release(world),
            BaseParticle::Fake(_) => {},
        }
    }

    /// Whether this is the first call for the particle in the current tick.
    /// A cell remembers the tick's parity, so every later call in the same
    /// tick says no. A boundary particle always says no.
    pub fn is_new_tick(&self, world: &mut World) -> (new: bool)
        requires
            old(world).wf(),
            self.held(old(world)@),
        ensures
            final(world).wf(),
            new == self.is_new(old(world)@),
            final(world)@ == self.seen(old(world)@),
    {
        match self {
            BaseParticle::Real(p) => p.is_new_tick(world),
            BaseParticle::Fake(p) => p.is_new_tick(),
        }
    }

    /// A seed for the particle's generator that differs from tick to tick and
    /// from position to position.
    pub fn get_random_seed(&self, world: &World) -> (seed: u32)
        ensures
            seed == seed_at(world@.tick as i32, self.spec_x(), self.spec_y()),
    {
        match self {
            BaseParticle::Real(p) => p.get_random_seed(world),
            BaseParticle::Fake(p) => p.get_random_seed(world),
        }
    }

    /// Asks for the position that lies `delta_x` columns and `delta_y` rows
    /// from this one, on behalf of the same worker. The two must not both be
    /// zero: a worker cannot get its own cell a second time.
    pub fn neighbour(&self, world: &mut World, delta_x: i32, delta_y: i32) -> (result: Result<
        BaseParticle,
        (),
    >)
        requires
            old(world).wf(),
            delta_x != 0 || delta_y != 0,
            i32::MIN <= self.spec_x() + delta_x <= i32::MAX,
            i32::MIN <= self.spec_y() + delta_y <= i32::MAX,
        ensures
            final(world).wf(),
            final(world)@ == after_acquire(
                old(world)@,
                self.spec_thread_id(),
                self.spec_x() + delta_x,
                self.spec_y() + delta_y,
            ),
            result is Ok <==> is_available(
                old(world)@,
                self.spec_x() + delta_x,
                self.spec_y() + delta_y,
            ),
            result matches Ok(p) ==> is_handle_at(
                p,
                old(world)@,
                self.spec_thread_id(),
                (self.spec_x() + delta_x) as i32,
                (self.spec_y() + delta_y) as i32,
            ) && p.held(final(world)@),
    {
        new_particle_data(world, self.thread_id(), self.x() + delta_x, self.y() + delta_y)
    }

    /// All attributes that the handle reads, at once.
    pub fn read(&self, world: &World) -> (attributes: Attributes)
        requires
            world.wf(),
            self.held(world@),
        ensures
            attributes == self.attributes(world@),
            is_known_type(attributes.type_id),
    {
        match self {
            BaseParticle::Real(p) => {
                proof {
                    p.lemma_index(world@);
                }
                p.read(world)
            },
            BaseParticle::Fake(p) => Attributes::blank(p.type_id()),
        }
    }

    /// Overwrites all attributes through the handle, at once.
    pub fn write(&self, world: &mut World, attributes: Attributes)
        requires
            old(world).wf(),
            self.held(old(world)@),
            is_known_type(attributes.type_id),
        ensures
            final(world).wf(),
            final(world)@ == self.put(old(world)@, attributes),
    {
        match self {
            BaseParticle::Real(p) => p.write(world, attributes),
            BaseParticle::Fake(_) => {},
        }
    }

    /// Overwrites the particle behind `dest` with this one. This one stays
    /// as it is.
    pub fn replace(&self, world: &mut World, dest: &BaseParticle)
        requires
            old(world).wf(),
            self.held(old(world)@),
            dest.held(old(world)@),
            self.spec_thread_id() == dest.spec_thread_id(),
        ensures
            final(world).wf(),
            final(world)@ == dest.put(old(world)@, self.attributes(old(world)@)),
    {
        let attributes = self.read(world);
        dest.write(world, attributes);
    }

    /// Exchanges the particle behind this handle with the one behind `dest`:
    /// every attribute changes places, the locks stay. What goes to a
    /// boundary particle is lost, and what comes from one is of the
    /// boundary's type with zero for the rest.
    pub fn swap(&self, world: &mut World, dest: &BaseParticle)
        requires
            old(world).wf(),
            self.held(old(world)@),
            dest.held(old(world)@),
            self.spec_thread_id() == dest.spec_thread_id(),
        ensures
            final(world).wf(),
            final(world)@ == dest.put(
                self.put(old(world)@, dest.attributes(old(world)@)),
                self.attributes(old(world)@),
            ),
    {
        let mine = self.read(world);
        let theirs = dest.read(world);
        self.write(world, theirs);
        dest.write(world, mine);
    }
}

impl BaseParticle {

    /// The type tag that the handle reads.
    pub fn type_id(&self, world: &World) -> (value: u8)
        requires
            world.wf(),
            self.held(world@),
        ensures
            value == self.attributes(world@).type_id,
    {
        match self {
            BaseParticle::Real(p) => p.type_id(world),
            BaseParticle::Fake(p) => p.type_id(),
        }
    }

    /// Writes the type tag through the handle.
    pub fn set_type_id(&self, world: &mut World, value: u8)
        requires
            old(world).wf(),
            self.held(old(world)@),
            is_known_type(value),
        ensures
            final(world).wf(),
            final(world)@ == self.put(
                old(world)@,
                (Attributes { type_id: value, ..self.attributes(old(world)@) }),
            ),
    {
        match self {
            BaseParticle::Real(p) => p.set_type_id(world, value),
            BaseParticle::Fake(p) => p.set_type_id(value),
        }
    }

    /// The stage that the handle reads.
    pub fn stage(&self, world: &World) -> (value: u8)
        requires
            world.wf(),
            self.held(world@),
        ensures
            value == self.attributes(world@).stage,
    {
        match self {
            BaseParticle::Real(p) => p.stage(world),
            BaseParticle::Fake(p) => p.stage(),
        }
    }

    /// Writes the stage through the handle.
    pub fn set_stage(&self, world: &mut World, value: u8)
        requires
            old(world).wf(),
            self.held(old(world)@),
        ensures
            final(world).wf(),
            final(world)@ == self.put(
                old(world)@,
                (Attributes { stage: value, ..self.attributes(old(world)@) }),
            ),
    {
        match self {
            BaseParticle::Real(p) => p.set_stage(world, value),
            BaseParticle::Fake(p) => p.set_stage(value),
        }
    }

    /// The initiative that the handle reads.
    pub fn initiative(&self, world: &World) -> (value: Fixed)
        requires
            world.wf(),
            self.held(world@),
        ensures
            value == self.attributes(world@).initiative,
    {
        match self {
            BaseParticle::Real(p) => p.initiative(world),
            BaseParticle::Fake(p) => p.initiative(),
        }
    }

    /// Writes the initiative through the handle.
    pub fn set_initiative(&self, world: &mut World, value: Fixed)
        requires
            old(world).wf(),
            self.held(old(world)@),
        ensures
            final(world).wf(),
            final(world)@ == self.put(
                old(world)@,
                (Attributes { initiative: value, ..self.attributes(old(world)@) }),
            ),
    {
        match self {
            BaseParticle::Real(p) => p.set_initiative(world, value),
            BaseParticle::Fake(p) => p.set_initiative(value),
        }
    }

    /// The colour that the handle reads.
    pub fn rgba(&self, world: &World) -> (value: u32)
        requires
            world.wf(),
            self.held(world@),
        ensures
            value == self.attributes(world@).rgba,
    {
        match self {
            BaseParticle::Real(p) => p.rgba(world),
            BaseParticle::Fake(p) => p.rgba(),
        }
    }

    /// Writes the colour through the handle.
    pub fn set_rgba(&self, world: &mut World, value: u32)
        requires
            old(world).wf(),
            self.held(old(world)@),
        ensures
            final(world).wf(),
            final(world)@ == self.put(
                old(world)@,
                (Attributes { rgba: value, ..self.attributes(old(world)@) }),
            ),
    {
        match self {
            BaseParticle::Real(p) => p.set_rgba(world, value),
            BaseParticle::Fake(p) => p.set_rgba(value),
        }
    }

    /// The horizontal velocity that the handle reads.
    pub fn velocity_x(&self, world: &World) -> (value: Fixed)
        requires
            world.wf(),
            self.held(world@),
        ensures
            value == self.attributes(world@).velocity_x,
    {
        match self {
            BaseParticle::Real(p) => p.velocity_x(world),
            BaseParticle::Fake(p) => p.velocity_x(),
        }
    }

    /// Writes the horizontal velocity through the handle.
    pub fn set_velocity_x(&self, world: &mut World, value: Fixed)
        requires
            old(world).wf(),
            self.held(old(world)@),
        ensures
            final(world).wf(),
            final(world)@ == self.put(
                old(world)@,
                (Attributes { velocity_x: value, ..self.attributes(old(world)@) }),
            ),
    {
        match self {
            BaseParticle::Real(p) => p.set_velocity_x(world, value),
            BaseParticle::Fake(p) => p.set_velocity_x(value),
        }
    }

    /// The vertical velocity that the handle reads.
    pub fn velocity_y(&self, world: &World) -> (value: Fixed)
        requires
            world.wf(),
            self.held(world@),
        ensures
            value == self.attributes(world@).velocity_y,
    {
        match self {
            BaseParticle::Real(p) => p.velocity_y(world),
            BaseParticle::Fake(p) => p.velocity_y(),
        }
    }

    /// Writes the vertical velocity through the handle.
    pub fn set_velocity_y(&self, world: &mut World, value: Fixed)
        requires
            old(world).wf(),
            self.held(old(world)@),
        ensures
            final(world).wf(),
            final(world)@ == self.put(
                old(world)@,
                (Attributes { velocity_y: value, ..self.attributes(old(world)@) }),
            ),
    {
        match self {
            BaseParticle::Real(p) => p.set_velocity_y(world, value),
            BaseParticle::Fake(p) => p.set_velocity_y(value),
        }
    }

    /// The horizontal position within the cell that the handle reads.
    pub fn subpixel_position_x(&self, world: &World) -> (value: Fixed)
        requires
            world.wf(),
            self.held(world@),
        ensures
            value == self.attributes(world@).subpixel_position_x,
    {
        match self {
            BaseParticle::Real(p) => p.subpixel_position_x(world),
            BaseParticle::Fake(p) => p.subpixel_position_x(),
        }
    }

    /// Writes the horizontal position within the cell through the handle.
    pub fn set_subpixel_position_x(&self, world: &mut World, value: Fixed)
        requires
            old(world).wf(),
            self.held(old(world)@),
        ensures
            final(world).wf(),
            final(world)@ == self.put(
                old(world)@,
                (Attributes { subpixel_position_x: value, ..self.attributes(old(world)@) }),
            ),
    {
        match self {
            BaseParticle::Real(p) => p.set_subpixel_position_x(world, value),
            BaseParticle::Fake(p) => p.set_subpixel_position_x(value),
        }
    }

    /// The vertical position within the cell that the handle reads.
    pub fn subpixel_position_y(&self, world: &World) -> (value: Fixed)
        requires
            world.wf(),
            self.held(world@),
        ensures
            value == self.attributes(world@).subpixel_position_y,
    {
        match self {
            BaseParticle::Real(p) => p.subpixel_position_y(world),
            BaseParticle::Fake(p) => p.subpixel_position_y(),
        }
    }

    /// Writes the vertical position within the cell through the handle.
    pub fn set_subpixel_position_y(&self, world: &mut World, value: Fixed)
        requires
            old(world).wf(),
            self.held(old(world)@),
        ensures
            final(world).wf(),
            final(world)@ == self.put(
                old(world)@,
                (Attributes { subpixel_position_y: value, ..self.attributes(old(world)@) }),
            ),
    {
        match self {
            BaseParticle::Real(p) => p.set_subpixel_position_y(world, value),
            BaseParticle::Fake(p) => p.set_subpixel_position_y(value),
        }
    }

    /// The mass that the handle reads.
    pub fn mass(&self, world: &World) -> (value: Fixed)
        requires
            world.wf(),
            self.held(world@),
        ensures
            value == self.attributes(world@).mass,
    {
        match self {
            BaseParticle::Real(p) => p.mass(world),
            BaseParticle::Fake(p) => p.mass(),
        }
    }

    /// Writes the mass through the handle.
    pub fn set_mass(&self, world: &mut World, value: Fixed)
        requires
            old(world).wf(),
            self.held(old(world)@),
        ensures
            final(world).wf(),
            final(world)@ == self.put(
                old(world)@,
                (Attributes { mass: value, ..self.attributes(old(world)@) }),
            ),
    {
        match self {
            BaseParticle::Real(p) => p.set_mass(world, value),
            BaseParticle::Fake(p) => p.set_mass(value),
        }
    }

    /// The temperature that the handle reads.
    pub fn temperature(&self, world: &World) -> (value: Fixed)
        requires
            world.wf(),
            self.held(world@),
        ensures
            value == self.attributes(world@).temperature,
    {
        match self {
            BaseParticle::Real(p) => p.temperature(world),
            BaseParticle::Fake(p) => p.temperature(),
        }
    }

    /// Writes the temperature through the handle.
    pub fn set_temperature(&self, world: &mut World, value: Fixed)
        requires
            old(world).wf(),
            self.held(old(world)@),
        ensures
            final(world).wf(),
            final(world)@ == self.put(
                old(world)@,
                (Attributes { temperature: value, ..self.attributes(old(world)@) }),
            ),
    {
        match self {
            BaseParticle::Real(p) => p.set_temperature(world, value),
            BaseParticle::Fake(p) => p.set_temperature(value),
        }
    }

    /// The first scratch word that the handle reads.
    pub fn scratch1(&self, world: &World) -> (value: u64)
        requires
            world.wf(),
            self.held(world@),
        ensures
            value == self.attributes(world@).scratch1,
    {
        match self {
            BaseParticle::Real(p) => p.scratch1(world),
            BaseParticle::Fake(p) => p.scratch1(),
        }
    }

    /// Writes the first scratch word through the handle.
    pub fn set_scratch1(&self, world: &mut World, value: u64)
        requires
            old(world).wf(),
            self.held(old(world)@),
        ensures
            final(world).wf(),
            final(world)@ == self.put(
                old(world)@,
                (Attributes { scratch1: value, ..self.attributes(old(world)@) }),
            ),
    {
        match self {
            BaseParticle::Real(p) => p.set_scratch1(world, value),
            BaseParticle::Fake(p) => p.set_scratch1(value),
        }
    }

    /// The second scratch word that the handle reads.
    pub fn scratch2(&self, world: &World) -> (value: u64)
        requires
            world.wf(),
            self.held(world@),
        ensures
            value == self.attributes(world@).scratch2,
    {
        match self {
            BaseParticle::Real(p) => p.scratch2(world),
            BaseParticle::Fake(p) => p.scratch2(),
        }
    }

    /// Writes the second scratch word through the handle.
    pub fn set_scratch2(&self, world: &mut World, value: u64)
        requires
            old(world).wf(),
            self.held(old(world)@),
        ensures
            final(world).wf(),
            final(world)@ == self.put(
                old(world)@,
                (Attributes { scratch2: value, ..self.attributes(old(world)@) }),
            ),
    {
        match self {
            BaseParticle::Real(p) => p.set_scratch2(world, value),
            BaseParticle::Fake(p) => p.set_scratch2(value),
        }
    }
}

} // verus!
