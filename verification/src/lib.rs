//! A falling-sand cellular automaton: a grid of particles that several
//! workers advance tick by tick, each cell guarded by its own lock.
//!
//! `world` stores the grid, `particle_data` hands out the handles through
//! which a worker reads and writes a cell, `particles` gives each type of
//! particle its behaviour, and `sim` drives a worker over its share of the
//! grid. The functions below are what a host calls for a single cell.

use vstd::prelude::*;

pub mod fixed;
pub mod particle;
pub mod particle_data;
pub mod particles;
pub mod rand;
pub mod sim;
pub mod world;

use crate::particle_data::{is_available, new_particle_data, seed_at};
use crate::particles::{
    after_reset, colour_of, hydrate_with_data, lemma_dust_step_own_lock, step, Outcome,
};
use crate::world::{is_known_type, lemma_index_in_range, Attributes, World, WorldView, FREE};

verus! {

/// How a call for a single cell ended.
#[derive(Clone, Copy, Debug, PartialEq, Eq, Structural)]
pub enum Status {
    /// The particle has changed places with a neighbour.
    Moved,
    /// The particle was looked at and stays where it is.
    Blocked,
    /// Someone holds the cell. Nothing was done; the caller may come back.
    Busy,
}

/// What `process_particle` does at `(x, y)`: nothing while someone holds the
/// cell, and else one step of the particle that stands there.
#[verifier::opaque]
pub open spec fn processed(world: WorldView, x: int, y: int) -> (WorldView, Status) {
    if !is_available(world, x, y) {
        (world, Status::Busy)
    } else {
        let (after, outcome) = step(world, world.read_at(x, y).type_id, world.contains(x, y), x, y);
        (
            after,
            if outcome == Outcome::Moved {
                Status::Moved
            } else {
                Status::Blocked
            },
        )
    }
}

/// What `reset_to_type` does at `(x, y)`: nothing while someone holds the
/// cell and nothing outside the grid, and else it leaves a particle of the
/// new type there, reset by the behaviour of that type.
pub open spec fn retyped(world: WorldView, x: int, y: int, new_type: u8) -> WorldView {
    if is_available(world, x, y) {
        world.write_at(
            x,
            y,
            after_reset(
                new_type,
                (Attributes { type_id: new_type, ..world.read_at(x, y) }),
                seed_at(world.tick as i32, x as i32, y as i32),
            ),
        )
    } else {
        world
    }
}

/// Takes the cell at `(x, y)` for the worker `thread_id`, which is not
/// `FREE`, lets the particle there take one step, and gives the cell back.
/// Every lock is afterwards as it was.
pub fn process_particle(world: &mut World, thread_id: i32, x: i32, y: i32) -> (status: Status)
    requires
        old(world).wf(),
        thread_id != FREE,
    ensures
        final(world).wf(),
        (final(world)@, status) == processed(old(world)@, x as int, y as int),
        final(world)@.locks == old(world)@.locks,
        final(world)@.width == old(world)@.width,
        final(world)@.height == old(world)@.height,
        final(world)@.tick == old(world)@.tick,
        final(world)@.wrapping_behaviour == old(world)@.wrapping_behaviour,
        final(world)@.worker_statuses == old(world)@.worker_statuses,
{
    let ghost before = world@;
    proof {
        if before.contains(x as int, y as int) {
            lemma_index_in_range(before.width, before.height, x as int, y as int);
        }
    }
    let base = match new_particle_data(world, thread_id, x, y) {
        Ok(base) => base,
        Err(_) => {
            proof {
                reveal(processed);
            }
            return Status::Busy;
        },
    };
    let ghost taken = world@;
    proof {
        base.lemma_at(before, taken, thread_id, x, y, before.read_at(x as int, y as int));
        if before.contains(x as int, y as int) {
            lemma_dust_step_own_lock(before, thread_id, x as int, y as int);
        }
    }
    let particle = hydrate_with_data(world, base);
    let outcome = particle.run(world);
    proof {
        base.lemma_at(before, world@, thread_id, x, y, before.read_at(x as int, y as int));
    }
    particle.into_base().release(world);
    proof {
        reveal(processed);
        let goal = processed(before, x as int, y as int).0;
        assert(world@.locks =~= before.locks);
        assert(world@.cells =~= goal.cells);
    }
    match outcome {
        Outcome::Moved => Status::Moved,
        Outcome::Blocked => Status::Blocked,
    }
}

/// Takes the cell at `(x, y)` for the worker, turns the particle there into
/// one of the type `new_type`, and gives the cell back. Says whether it got
/// the cell. Every lock is afterwards as it was.
pub fn reset_to_type(world: &mut World, thread_id: i32, x: i32, y: i32, new_type: u8) -> (done: bool)
    requires
        old(world).wf(),
        thread_id != FREE,
        is_known_type(new_type),
    ensures
        final(world).wf(),
        done == is_available(old(world)@, x as int, y as int),
        final(world)@ == retyped(old(world)@, x as int, y as int, new_type),
        done && old(world)@.contains(x as int, y as int) ==> {
            let after = final(world)@.read_at(x as int, y as int);
            &&& after.type_id == new_type
            &&& after.initiative == 0
            &&& after.velocity_x == 0
            &&& after.velocity_y == 0
            &&& after.subpixel_position_x == 0
            &&& after.subpixel_position_y == 0
            &&& after.mass == 0
            &&& after.temperature == 0
            &&& after.rgba == colour_of(new_type)
        },
{
    let ghost before = world@;
    proof {
        if before.contains(x as int, y as int) {
            lemma_index_in_range(before.width, before.height, x as int, y as int);
        }
    }
    let base = match new_particle_data(world, thread_id, x, y) {
        Ok(base) => base,
        Err(_) => {
            return false;
        },
    };
    let ghost taken = world@;
    let ghost after = after_reset(
        new_type,
        (Attributes { type_id: new_type, ..before.read_at(x as int, y as int) }),
        seed_at(before.tick as i32, x, y),
    );
    proof {
        base.lemma_at(before, taken, thread_id, x, y, after);
    }
    let particle = crate::particles::reset_to_type(world, base, new_type);
    proof {
        base.lemma_at(before, world@, thread_id, x, y, after);
    }
    particle.into_base().release(world);
    proof {
        let goal = retyped(before, x as int, y as int, new_type);
        assert(world@.locks =~= before.locks);
        assert(world@.cells =~= goal.cells);
    }
    true
}

/// Takes the cell at `(x, y)` for the worker, reads the colour in which the
/// particle there is drawn, and gives the cell back. There is no colour while
/// someone holds the cell. The grid is afterwards as it was.
pub fn render_particle(world: &mut World, thread_id: i32, x: i32, y: i32) -> (rgba: Option<u32>)
    requires
        old(world).wf(),
        thread_id != FREE,
    ensures
        final(world).wf(),
        final(world)@ == old(world)@,
        rgba == if is_available(old(world)@, x as int, y as int) {
            Some(old(world)@.read_at(x as int, y as int).rgba)
        } else {
            None
        },
{
    let ghost before = world@;
    proof {
        if before.contains(x as int, y as int) {
            lemma_index_in_range(before.width, before.height, x as int, y as int);
        }
    }
    let base = match new_particle_data(world, thread_id, x, y) {
        Ok(base) => base,
        Err(_) => {
            return None;
        },
    };
    proof {
        base.lemma_at(before, world@, thread_id, x, y, before.read_at(x as int, y as int));
    }
    let particle = hydrate_with_data(world, base);
    let rgba: u32 = particle.render(world);
    particle.into_base().release(world);
    proof {
        assert(world@.locks =~= before.locks);
    }
    Some(rgba)
}

} // verus!
