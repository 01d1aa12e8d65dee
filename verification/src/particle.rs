//! The particle in a cell that a worker has taken: a handle that holds the
//! cell's lock from the moment it is made until it is given back with
//! `release`, and through which the worker reads the particle and makes it
//! change places with another that it holds.

use vstd::prelude::*;
use crate::fixed::Fixed;
use crate::particle_data::{after_acquire, new_particle_data, BaseParticle, RealParticle};
use crate::world::{lemma_index_in_range, Attributes, World, WorldView, FREE};

verus! {

/// The handle on the particle in a cell of the grid.
#[derive(Debug)]
#[must_use]
pub struct Particle {
    cell: RealParticle,
}

impl Particle {
    /// The handle on the cell.
    pub closed spec fn handle(&self) -> RealParticle {
        self.cell
    }

    /// The column and the row of the cell, and the width and the height of
    /// the grid.
    pub open spec fn place(&self) -> (i32, i32, i32, i32) {
        (
            self.handle().spec_x(),
            self.handle().spec_y(),
            self.handle().spec_w(),
            self.handle().spec_h(),
        )
    }

    /// The worker that holds the cell.
    pub open spec fn owner(&self) -> i32 {
        self.handle().spec_thread_id()
    }

    /// The linear index of the cell.
    pub open spec fn spec_index(&self) -> int {
        self.handle().spec_index()
    }

    /// The cell is one of this grid, and its lock names the handle's worker.
    pub open spec fn held(&self, world: WorldView) -> bool {
        self.handle().held(world)
    }

    /// What the cell holds.
    pub open spec fn attributes(&self, world: WorldView) -> Attributes {
        self.handle().attributes(world)
    }

    /// Takes the cell at `(x, y)` for the worker `thread_id`, which is not
    /// `FREE`. The cell's lock then names the worker, until `release`. There
    /// is no handle, and nothing has changed, for a cell that someone holds
    /// and for a position outside the grid.
    pub fn new(world: &mut World, thread_id: i32, x: i32, y: i32) -> (particle: Option<Particle>)
        requires
            old(world).wf(),
            thread_id != FREE,
        ensures
            final(world).wf(),
            final(world)@ == if old(world)@.contains(x as int, y as int) {
                after_acquire(old(world)@, thread_id, x as int, y as int)
            } else {
                old(world)@
            },
            particle is Some <==> old(world)@.contains(x as int, y as int) && old(world)@.locks[old(
                world,
            )@.index_of(x as int, y as int)] == FREE,
            particle matches Some(p) ==> {
                &&& p.place() == (x, y, old(world)@.width as i32, old(world)@.height as i32)
                &&& p.owner() == thread_id
                &&& p.held(final(world)@)
                &&& final(world)@.locks[old(world)@.index_of(x as int, y as int)] == thread_id
                &&& p.attributes(final(world)@) == old(world)@.read_at(x as int, y as int)
            },
    {
        proof {
            if world@.contains(x as int, y as int) {
                lemma_index_in_range(world@.width, world@.height, x as int, y as int);
            }
        }
        match new_particle_data(world, thread_id, x, y) {
            Ok(BaseParticle::Real(cell)) => Some(Particle { cell }),
            Ok(BaseParticle::Fake(_)) => None,
            Err(_) => None,
        }
    }

    /// Gives the cell back: its lock becomes free.
    pub fn release(self, world: &mut World)
        requires
            old(world).wf(),
            self.handle().fits(old(world)@),
        ensures
            final(world).wf(),
            final(world)@ == old(world)@.with_lock(self.spec_index(), FREE),
    {
        self.cell.release(world);
    }

    /// The column of the cell.
    pub fn x(&self) -> (x: i32)
        ensures
            x == self.place().0,
    {
        self.cell.x()
    }

    /// The row of the cell.
    pub fn y(&self) -> (y: i32)
        ensures
            y == self.place().1,
    {
        self.cell.y()
    }

    /// The width of the grid.
    pub fn w(&self) -> (w: i32)
        ensures
            w == self.place().2,
    {
        self.cell.w()
    }

    /// The height of the grid.
    pub fn h(&self) -> (h: i32)
        ensures
            h == self.place().3,
    {
        self.cell.h()
    }

    /// The linear index of the cell.
    pub fn index(&self) -> (index: u32)
        ensures
            index == self.spec_index(),
            index == self.place().0 + self.place().1 * self.place().2,
    {
        self.cell.index()
    }

    /// Overwrites the particle in the cell of `dest` with the one in this
    /// cell. This cell, every other cell and every lock stay as they were.
    pub fn replace(&mut self, world: &mut World, dest: &mut Particle)
        requires
            old(world).wf(),
            old(self).held(old(world)@),
            old(dest).held(old(world)@),
            old(self).owner() == old(dest).owner(),
        ensures
            final(world).wf(),
            *final(self) == *old(self),
            *final(dest) == *old(dest),
            final(world)@ == old(world)@.with_cell(
                old(dest).spec_index(),
                old(self).attributes(old(world)@),
            ),
            final(dest).attributes(final(world)@) == old(self).attributes(old(world)@),
            final(self).attributes(final(world)@) == old(self).attributes(old(world)@),
            final(world)@.locks == old(world)@.locks,
    {
        proof {
            self.cell.lemma_index(world@);
            dest.cell.lemma_index(world@);
        }
        let mine = self.cell.read(world);
        dest.cell.write(world, mine);
    }

    /// Makes the particle in this cell and the one in the cell of `dest`
    /// change places: each cell afterwards holds every attribute that the
    /// other held. Every other cell and every lock stay as they were.
    pub fn swap(&mut self, world: &mut World, dest: &mut Particle)
        requires
            old(world).wf(),
            old(self).held(old(world)@),
            old(dest).held(old(world)@),
            old(self).owner() == old(dest).owner(),
        ensures
            final(world).wf(),
            *final(self) == *old(self),
            *final(dest) == *old(dest),
            final(world)@ == old(world)@.with_cell(
                old(self).spec_index(),
                old(dest).attributes(old(world)@),
            ).with_cell(old(dest).spec_index(), old(self).attributes(old(world)@)),
            final(self).attributes(final(world)@) == old(dest).attributes(old(world)@),
            final(dest).attributes(final(world)@) == old(self).attributes(old(world)@),
            final(world)@.locks == old(world)@.locks,
    {
        proof {
            self.cell.lemma_index(world@);
            dest.cell.lemma_index(world@);
        }
        let mine = self.cell.read(world);
        let theirs = dest.cell.read(world);
        self.cell.write(world, theirs);
        dest.cell.write(world, mine);
    }

    /// The type tag of the particle in the cell.
    pub fn get_type(&self, world: &World) -> (value: u8)
        requires
            world.wf(),
            self.held(world@),
        ensures
            value == self.attributes(world@).type_id,
    {
        self.cell.type_id(world)
    }

    /// The stage of the particle in the cell.
    pub fn get_stage(&self, world: &World) -> (value: u8)
        requires
            world.wf(),
            self.held(world@),
        ensures
            value == self.attributes(world@).stage,
    {
        self.cell.stage(world)
    }

    /// The initiative of the particle in the cell.
    pub fn get_initiative(&self, world: &World) -> (value: Fixed)
        requires
            world.wf(),
            self.held(world@),
        ensures
            value == self.attributes(world@).initiative,
    {
        self.cell.initiative(world)
    }

    /// The colour of the particle in the cell.
    pub fn get_rgba(&self, world: &World) -> (value: u32)
        requires
            world.wf(),
            self.held(world@),
        ensures
            value == self.attributes(world@).rgba,
    {
        self.cell.rgba(world)
    }

    /// The horizontal velocity of the particle in the cell.
    pub fn get_velocity_x(&self, world: &World) -> (value: Fixed)
        requires
            world.wf(),
            self.held(world@),
        ensures
            value == self.attributes(world@).velocity_x,
    {
        self.cell.velocity_x(world)
    }

    /// The vertical velocity of the particle in the cell.
    pub fn get_velocity_y(&self, world: &World) -> (value: Fixed)
        requires
            world.wf(),
            self.held(world@),
        ensures
            value == self.attributes(world@).velocity_y,
    {
        self.cell.velocity_y(world)
    }

    /// The horizontal position within the cell of the particle in the cell.
    pub fn get_subpixel_position_x(&self, world: &World) -> (value: Fixed)
        requires
            world.wf(),
            self.held(world@),
        ensures
            value == self.attributes(world@).subpixel_position_x,
    {
        self.cell.subpixel_position_x(world)
    }

    /// The vertical position within the cell of the particle in the cell.
    pub fn get_subpixel_position_y(&self, world: &World) -> (value: Fixed)
        requires
            world.wf(),
            self.held(world@),
        ensures
            value == self.attributes(world@).subpixel_position_y,
    {
        self.cell.subpixel_position_y(world)
    }

    /// The mass of the particle in the cell.
    pub fn get_mass(&self, world: &World) -> (value: Fixed)
        requires
            world.wf(),
            self.held(world@),
        ensures
            value == self.attributes(world@).mass,
    {
        self.cell.mass(world)
    }

    /// The temperature of the particle in the cell.
    pub fn get_temperature(&self, world: &World) -> (value: Fixed)
        requires
            world.wf(),
            self.held(world@),
        ensures
            value == self.attributes(world@).temperature,
    {
        self.cell.temperature(world)
    }

    /// The first scratch word of the particle in the cell.
    pub fn get_scratch1(&self, world: &World) -> (value: u64)
        requires
            world.wf(),
            self.held(world@),
        ensures
            value == self.attributes(world@).scratch1,
    {
        self.cell.scratch1(world)
    }

    /// The second scratch word of the particle in the cell.
    pub fn get_scratch2(&self, world: &World) -> (value: u64)
        requires
            world.wf(),
            self.held(world@),
        ensures
            value == self.attributes(world@).scratch2,
    {
        self.cell.scratch2(world)
    }
}

} // verus!
