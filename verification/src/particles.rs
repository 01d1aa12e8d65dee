//! What each type of particle is and does.
//!
//! A cell's type tag selects one of a closed set of behaviours. Each has a
//! phase and a weight, knows how to reset a cell to its own type, and takes
//! one step of the simulation when it is run.

use vstd::prelude::*;
use crate::fixed::{clamped, minus, plus, speed, speed_of, Fixed, DIAGONAL_COST, ONE};
use crate::particle_data::{after_release, is_available, seed_at, BaseParticle};
use crate::rand::{drawn, scaled, seeded, stepped, Rand, DENOMINATOR};
use crate::world::{
    is_known_type, is_odd, lemma_index_in_range, lemma_index_injective, Attributes, World,
    WorldView, AIR, DUST, WALL,
};

verus! {

/// A density in grams per cubic metre.
pub type Weight = u32;

/// Air at sea level.
pub const AIR_WEIGHT: Weight = 1_185;

/// Quartz sand.
pub const DUST_WEIGHT: Weight = 1_201_000;

pub const AIR_COLOUR: u32 = 0x0000FF44;

pub const WALL_COLOUR: u32 = 0xAC844AFF;

pub const DUST_COLOUR: u32 = 0xAC844AFF;

/// The coarse physical state of a particle.
#[derive(Clone, Copy, Debug, PartialEq, Eq, Structural)]
pub enum Phase {
    Solid,
    Liquid,
    Gas,
}

/// How a step ended.
#[derive(Clone, Copy, Debug, PartialEq, Eq, Structural)]
pub enum Outcome {
    /// The particle has changed places with a neighbour.
    Moved,
    /// The particle stays where it is.
    Blocked,
}

/// The phase of the particles of a type.
pub open spec fn phase_of(type_id: u8) -> Phase {
    if type_id == AIR {
        Phase::Gas
    } else {
        Phase::Solid
    }
}

/// The weight of the particles of a type. What has none cannot be moved, nor
/// moved through.
pub open spec fn weight_of(type_id: u8) -> Option<Weight> {
    if type_id == AIR {
        Some(AIR_WEIGHT)
    } else if type_id == DUST {
        Some(DUST_WEIGHT)
    } else {
        None
    }
}

/// The colour in which the particles of a type are drawn.
pub open spec fn colour_of(type_id: u8) -> u32 {
    if type_id == AIR {
        AIR_COLOUR
    } else if type_id == WALL {
        WALL_COLOUR
    } else {
        DUST_COLOUR
    }
}

/// The particle at rest: initiative, velocity, position within the cell, mass
/// and temperature at zero, the rest as it was.
pub open spec fn at_rest(attributes: Attributes) -> Attributes {
    Attributes {
        initiative: 0,
        velocity_x: 0,
        velocity_y: 0,
        subpixel_position_x: 0,
        subpixel_position_y: 0,
        mass: 0,
        temperature: 0,
        ..attributes
    }
}

/// The particle after a reset by the behaviour of a type: at rest and in the
/// type's colour. The behaviour of dust also puts `seed` by for its
/// generator.
pub open spec fn after_reset(type_id: u8, attributes: Attributes, seed: u32) -> Attributes {
    let rested = Attributes { rgba: colour_of(type_id), ..at_rest(attributes) };
    if type_id == DUST {
        Attributes { scratch1: seed as u64, ..rested }
    } else {
        rested
    }
}

/// Brings the particle behind the handle to rest.
fn reset_common(world: &mut World, bp: &BaseParticle)
    requires
        old(world).wf(),
        bp.held(old(world)@),
    ensures
        final(world).wf(),
        final(world)@ == bp.put(old(world)@, at_rest(bp.attributes(old(world)@))),
{
    let attributes = bp.read(world);
    bp.write(
        world,
        Attributes {
            initiative: 0,
            velocity_x: 0,
            velocity_y: 0,
            subpixel_position_x: 0,
            subpixel_position_y: 0,
            mass: 0,
            temperature: 0,
            ..attributes
        },
    );
}

/// The behaviour of air.
#[derive(Debug)]
#[must_use]
pub struct Air {
    base: BaseParticle,
}

/// The behaviour of a wall.
#[derive(Debug)]
#[must_use]
pub struct Wall {
    base: BaseParticle,
}

impl Air {
    /// The handle that the particle was made from.
    pub closed spec fn handle(&self) -> BaseParticle {
        self.base
    }

    pub fn base(&self) -> (base: &BaseParticle)
        ensures
            *base == self.handle(),
    {
        &self.base
    }

    pub fn phase(&self) -> (phase: Phase)
        ensures
            phase == phase_of(AIR),
    {
        Phase::Gas
    }

    pub fn weight(&self) -> (weight: Option<Weight>)
        ensures
            weight == weight_of(AIR),
    {
        Some(AIR_WEIGHT)
    }

    /// Brings the particle to rest and gives it the colour of air.
    pub fn reset(&self, world: &mut World)
        requires
            old(world).wf(),
            self.handle().held(old(world)@),
        ensures
            final(world).wf(),
            final(world)@ == self.handle().put(
                old(world)@,
                (Attributes { rgba: AIR_COLOUR, ..at_rest(self.handle().attributes(old(world)@)) }),
            ),
    {
        reset_common(world, &self.base);
        proof {
            let rested = at_rest(self.base.attributes(old(world)@));
            self.base.lemma_put(old(world)@, rested, (Attributes { rgba: AIR_COLOUR, ..rested }));
        }
        self.base.set_rgba(world, AIR_COLOUR);
    }

    /// Air does nothing of its own.
    pub fn run(&self) -> (outcome: Outcome)
        ensures
            outcome == Outcome::Blocked,
    {
        Outcome::Blocked
    }
}

impl Wall {
    /// The handle that the particle was made from.
    pub closed spec fn handle(&self) -> BaseParticle {
        self.base
    }

    pub fn base(&self) -> (base: &BaseParticle)
        ensures
            *base == self.handle(),
    {
        &self.base
    }

    pub fn phase(&self) -> (phase: Phase)
        ensures
            phase == phase_of(WALL),
    {
        Phase::Solid
    }

    /// None: a wall cannot be moved, nor moved through.
    pub fn weight(&self) -> (weight: Option<Weight>)
        ensures
            weight == weight_of(WALL),
    {
        None
    }

    /// Brings the particle to rest and gives it the colour of a wall.
    pub fn reset(&self, world: &mut World)
        requires
            old(world).wf(),
            self.handle().held(old(world)@),
        ensures
            final(world).wf(),
            final(world)@ == self.handle().put(
                old(world)@,
                (Attributes { rgba: WALL_COLOUR, ..at_rest(self.handle().attributes(old(world)@)) }),
            ),
    {
        reset_common(world, &self.base);
        proof {
            let rested = at_rest(self.base.attributes(old(world)@));
            self.base.lemma_put(old(world)@, rested, (Attributes { rgba: WALL_COLOUR, ..rested }));
        }
        self.base.set_rgba(world, WALL_COLOUR);
    }

    /// A wall stays where it is.
    pub fn run(&self) -> (outcome: Outcome)
        ensures
            outcome == Outcome::Blocked,
    {
        Outcome::Blocked
    }
}

/// The seed of dust's generator: the lower half of the first scratch word.
pub open spec fn generator_seed(scratch1: u64) -> u32 {
    (scratch1 & 0xFFFF_FFFF) as u32
}

/// The first scratch word with a state of the generator in its lower half.
pub open spec fn with_generator(scratch1: u64, state: u32) -> u64 {
    (scratch1 & 0xFFFF_FFFF_0000_0000) | (state as u64)
}

/// The vertical velocity of a grain after gravity has pulled at it for one
/// more step.
pub open spec fn fallen(dust: Attributes) -> int {
    clamped(dust.velocity_y + ONE)
}

/// What a grain has to spend on a step: its initiative, and in its first step
/// of a tick its speed on top.
pub open spec fn budget(dust: Attributes, new_tick: bool) -> int {
    if new_tick {
        clamped(dust.initiative + speed(dust.velocity_x as int, fallen(dust)))
    } else {
        dust.initiative as int
    }
}

/// The state of a grain's generator after its first draw.
pub open spec fn first_state(dust: Attributes) -> int {
    stepped(seeded(generator_seed(dust.scratch1)))
}

/// The state of a grain's generator after its second draw.
pub open spec fn second_state(dust: Attributes) -> int {
    stepped(first_state(dust))
}

/// The column that a grain drifts by in its step: one to the left, none, or
/// one to the right, as its first draw has it.
pub open spec fn drift(dust: Attributes) -> int {
    scaled(drawn(first_state(dust)), 0, 3) - 1
}

/// Whether dust can sink into a particle of the type: into what is not
/// solid, has a weight, and is lighter than dust.
pub open spec fn gives_way(type_id: u8) -> bool {
    &&& phase_of(type_id) != Phase::Solid
    &&& weight_of(type_id) matches Some(weight)
    &&& weight < DUST_WEIGHT
}

/// Whether a particle of the type holds a grain up at a draw: it does where
/// its weight, as a fraction of dust's, is below the draw's fraction.
pub open spec fn resists(type_id: u8, draw: int) -> bool {
    weight_of(type_id) matches Some(weight) && weight * DENOMINATOR < draw * DUST_WEIGHT
}

/// The grain as it arrives in its new cell: seen in this tick, at a
/// standstill, with what is left of its budget and with its generator's state
/// put by.
pub open spec fn settled(dust: Attributes, tick_is_odd: bool, new_tick: bool) -> Attributes {
    Attributes {
        tick_parity: tick_is_odd,
        velocity_x: 0,
        velocity_y: 0,
        initiative: clamped(
            budget(dust, new_tick) - if drift(dust) != 0 {
                DIAGONAL_COST as int
            } else {
                0
            },
        ) as i32,
        scratch1: with_generator(dust.scratch1, second_state(dust) as u32),
        ..dust
    }
}

/// One step of the grain of dust in the cell at `(x, y)`.
///
/// The grain is marked as seen in this tick. With a budget below `ONE` it
/// stays, and keeps the budget and its velocity after gravity. Otherwise it
/// aims at the cell one row up and `drift` columns across. It moves if no one
/// holds that cell, the particle there gives way and does not resist the
/// grain's second draw: the two particles then change places. In every other
/// case the grain stays and nothing else of it changes.
pub open spec fn dust_step(world: WorldView, x: int, y: int) -> (WorldView, Outcome) {
    let dust = world.read_at(x, y);
    let tick_is_odd = is_odd(world.tick);
    let new_tick = dust.tick_parity != tick_is_odd;
    let seen = Attributes { tick_parity: tick_is_odd, ..dust };
    if budget(dust, new_tick) < ONE {
        (
            world.write_at(
                x,
                y,
                Attributes {
                    initiative: budget(dust, new_tick) as i32,
                    velocity_y: fallen(dust) as i32,
                    ..seen
                },
            ),
            Outcome::Blocked,
        )
    } else {
        let target_x = x + drift(dust);
        let target_y = y - 1;
        let target = world.read_at(target_x, target_y);
        if is_available(world, target_x, target_y) && gives_way(target.type_id) && !resists(
            target.type_id,
            drawn(second_state(dust)),
        ) {
            (
                world.write_at(x, y, target).write_at(
                    target_x,
                    target_y,
                    settled(dust, tick_is_odd, new_tick),
                ),
                Outcome::Moved,
            )
        } else {
            (world.write_at(x, y, seen), Outcome::Blocked)
        }
    }
}

/// The behaviour of dust.
#[derive(Debug)]
#[must_use]
pub struct Dust {
    base: BaseParticle,
}

impl Dust {
    /// The handle that the particle was made from.
    pub closed spec fn handle(&self) -> BaseParticle {
        self.base
    }

    pub fn base(&self) -> (base: &BaseParticle)
        ensures
            *base == self.handle(),
    {
        &self.base
    }

    pub fn phase(&self) -> (phase: Phase)
        ensures
            phase == phase_of(DUST),
    {
        Phase::Solid
    }

    pub fn weight(&self) -> (weight: Option<Weight>)
        ensures
            weight == weight_of(DUST),
    {
        Some(DUST_WEIGHT)
    }

    /// Brings the particle to rest, gives it the colour of dust and seeds its
    /// generator for the position and the tick.
    pub fn reset(&self, world: &mut World)
        requires
            old(world).wf(),
            self.handle().held(old(world)@),
        ensures
            final(world).wf(),
            final(world)@ == self.handle().put(
                old(world)@,
                (Attributes {
                    rgba: DUST_COLOUR,
                    scratch1: seed_at(
                        old(world)@.tick as i32,
                        self.handle().spec_x(),
                        self.handle().spec_y(),
                    ) as u64,
                    ..at_rest(self.handle().attributes(old(world)@))
                }),
            ),
    {
        reset_common(world, &self.base);
        let ghost rested = at_rest(self.base.attributes(old(world)@));
        let ghost coloured = Attributes { rgba: DUST_COLOUR, ..rested };
        proof {
            self.base.lemma_put(old(world)@, rested, coloured);
        }
        self.base.set_rgba(world, DUST_COLOUR);
        let seed: u32 = self.base.get_random_seed(world);
        proof {
            self.base.lemma_put(old(world)@, coloured, (Attributes { scratch1: seed as u64, ..coloured }));
        }
        self.base.set_scratch1(world, seed as u64);
    }

    /// One step of the grain, as `dust_step` has it. A grain that stands for
    /// the boundary never moves. Whatever the outcome, every lock is as it
    /// was before: the cell that the grain aimed at has been given back.
    pub fn run(&self, world: &mut World) -> (outcome: Outcome)
        requires
            old(world).wf(),
            self.handle().held(old(world)@),
        ensures
            final(world).wf(),
            self.handle() is Real ==> (final(world)@, outcome) == dust_step(
                old(world)@,
                self.handle().spec_x() as int,
                self.handle().spec_y() as int,
            ),
            self.handle() is Fake ==> final(world)@ == old(world)@ && outcome == Outcome::Blocked,
            final(world)@.locks == old(world)@.locks,
            outcome == Outcome::Moved ==> {
                let dust = self.handle().attributes(old(world)@);
                let target = old(world)@.read_at(
                    self.handle().spec_x() + drift(dust),
                    self.handle().spec_y() - 1,
                );
                &&& phase_of(target.type_id) != Phase::Solid
                &&& weight_of(target.type_id) matches Some(weight)
                &&& weight < DUST_WEIGHT
            },
    {
        let ghost before = world@;
        let dust = self.base.read(world);
        let rng = Rand::new((dust.scratch1 & 0xFFFF_FFFF) as u32);
        let velocity_y: Fixed = plus(dust.velocity_y, ONE);
        let tick_is_odd: bool = world.tick_is_odd();
        let new_tick: bool = self.base.is_new_tick(world);
        let initiative: Fixed = if new_tick {
            plus(dust.initiative, speed_of(dust.velocity_x, velocity_y))
        } else {
            dust.initiative
        };
        let ghost seen = Attributes { tick_parity: tick_is_odd, ..dust };
        proof {
            self.base.lemma_put(before, seen, seen);
        }
        if initiative < ONE {
            let stayed = Attributes { tick_parity: tick_is_odd, initiative, velocity_y, ..dust };
            proof {
                self.base.lemma_put(before, seen, stayed);
            }
            self.base.write(world, stayed);
            return Outcome::Blocked;
        }
        self.attempt(world, rng, dust, initiative, new_tick, Ghost(before))
    }

    /// The part of a step that follows once the budget is found to suffice:
    /// the grain aims at a neighbour and changes places with it if it can.
    fn attempt(
        &self,
        world: &mut World,
        rng: Rand,
        dust: Attributes,
        initiative: Fixed,
        new_tick: bool,
        before: Ghost<WorldView>,
    ) -> (outcome: Outcome)
        requires
            before@.wf(),
            old(world).wf(),
            self.base is Real,
            self.base.held(before@),
            dust == self.base.attributes(before@),
            new_tick == (dust.tick_parity != is_odd(before@.tick)),
            old(world)@ == self.base.put(
                before@,
                (Attributes { tick_parity: is_odd(before@.tick), ..dust }),
            ),
            rng.state() == seeded(generator_seed(dust.scratch1)),
            initiative == budget(dust, new_tick),
            initiative >= ONE,
        ensures
            final(world).wf(),
            (final(world)@, outcome) == dust_step(
                before@,
                self.base.spec_x() as int,
                self.base.spec_y() as int,
            ),
            final(world)@.locks == before@.locks,
            outcome == Outcome::Moved ==> gives_way(
                before@.read_at(self.base.spec_x() + drift(dust), self.base.spec_y() - 1).type_id,
            ),
    {
        let mut rng = rng;
        let ghost x = self.base.spec_x();
        let ghost y = self.base.spec_y();
        let ghost seen_world = world@;
        let ghost owner = self.base.spec_thread_id();
        let tick_is_odd: bool = world.tick_is_odd();
        let drift: i32 = rng.range(0, 3) - 1;
        let ghost target_x = (x + drift) as i32;
        let ghost target_y = (y - 1) as i32;
        proof {
            self.base.lemma_put(before@, dust, dust);
            lemma_apart(before@, x as int, y as int, target_x as int, target_y as int);
        }
        let next = match self.base.neighbour(world, drift, -1) {
            Ok(next) => next,
            Err(_) => {
                return Outcome::Blocked;
            },
        };
        let ghost taken_world = world@;
        proof {
            next.lemma_at(seen_world, taken_world, owner, target_x, target_y, dust);
            assert(after_release(taken_world, target_x as int, target_y as int).locks
                =~= seen_world.locks);
        }
        let next_loc = hydrate_with_data(world, next);
        let weight: Weight = match next_loc.weight() {
            Some(weight) => weight,
            None => {
                next_loc.into_base().release(world);
                return Outcome::Blocked;
            },
        };
        if next_loc.phase() == Phase::Solid || weight >= DUST_WEIGHT {
            next_loc.into_base().release(world);
            return Outcome::Blocked;
        }
        let draw: u32 = rng.float();
        assert((weight as u64) * (DENOMINATOR as u64) <= 0xffff_ffff * 0xffff_ffff && (draw as u64)
            * (DUST_WEIGHT as u64) <= 0xffff_ffff * 0xffff_ffff) by (nonlinear_arith);
        if (weight as u64) * (DENOMINATOR as u64) < (draw as u64) * (DUST_WEIGHT as u64) {
            next_loc.into_base().release(world);
            return Outcome::Blocked;
        }
        let cost: Fixed = if drift != 0 {
            DIAGONAL_COST
        } else {
            0
        };
        let arrived = Attributes {
            tick_parity: tick_is_odd,
            velocity_x: 0,
            velocity_y: 0,
            initiative: minus(initiative, cost),
            scratch1: (dust.scratch1 & 0xFFFF_FFFF_0000_0000) | (rng.seed() as u64),
            ..dust
        };
        proof {
            self.base.lemma_known_type(before@);
        }
        self.change_places(world, next_loc.into_base(), arrived);
        proof {
            let target = before@.read_at(target_x as int, target_y as int);
            let goal = before@.write_at(x as int, y as int, target).write_at(
                target_x as int,
                target_y as int,
                arrived,
            );
            assert(world@.cells =~= goal.cells);
            assert(world@.locks =~= goal.locks);
        }
        Outcome::Moved
    }

    /// Puts the grain, as it arrives, where the neighbour is, and the
    /// neighbour where the grain was, and gives the neighbour's cell back.
    fn change_places(&self, world: &mut World, next: BaseParticle, arrived: Attributes)
        requires
            old(world).wf(),
            self.base is Real,
            self.base.held(old(world)@),
            next.held(old(world)@),
            next.spec_thread_id() == self.base.spec_thread_id(),
            next is Real ==> next->Real_0.spec_index() != self.base->Real_0.spec_index(),
            is_known_type(arrived.type_id),
        ensures
            final(world).wf(),
            final(world)@ == next.released(
                next.put(
                    self.base.put(old(world)@, next.attributes(old(world)@)),
                    arrived,
                ),
            ),
    {
        let ghost taken = world@;
        proof {
            self.base.lemma_put(taken, arrived, arrived);
            next.lemma_put(taken, arrived, arrived);
            if next is Real {
                next->Real_0.lemma_index(taken);
            }
            self.base->Real_0.lemma_index(taken);
        }
        self.base.write(world, arrived);
        self.base.swap(world, &next);
        next.release(world);
        proof {
            let goal = next.released(
                next.put(self.base.put(taken, next.attributes(taken)), arrived),
            );
            assert(world@.cells =~= goal.cells);
            assert(world@.locks =~= goal.locks);
        }
    }
}

/// A cell and the cell that its grain aims at, one row up, are two cells.
proof fn lemma_apart(world: WorldView, x: int, y: int, target_x: int, target_y: int)
    requires
        world.wf(),
        world.contains(x, y),
        target_y != y,
    ensures
        0 <= world.index_of(x, y) < world.cells.len(),
        world.contains(target_x, target_y) ==> 0 <= world.index_of(target_x, target_y)
            < world.cells.len() && world.index_of(target_x, target_y) != world.index_of(x, y),
{
    lemma_index_in_range(world.width, world.height, x, y);
    if world.contains(target_x, target_y) {
        lemma_index_in_range(world.width, world.height, target_x, target_y);
        if world.index_of(target_x, target_y) == world.index_of(x, y) {
            lemma_index_injective(world.width, world.height, target_x, target_y, x, y);
        }
    }
}

/// Cells are taken in one order: a grain holds its own cell when it asks for
/// the cell it aims at, and that cell always comes before its own in the
/// order of the linear index.
pub proof fn lemma_target_comes_first(world: WorldView, x: int, y: int)
    requires
        world.wf(),
        world.contains(x, y),
        world.contains(x + drift(world.read_at(x, y)), y - 1),
    ensures
        world.index_of(x + drift(world.read_at(x, y)), y - 1) < world.index_of(x, y),
{
    let across = drift(world.read_at(x, y));
    assert((y - 1) * world.width == y * world.width - world.width) by (nonlinear_arith);
}

/// Dust never sinks into what is solid, has no weight, or is as heavy as
/// dust or heavier: a grain that has moved has changed places with a
/// particle that gives way.
pub proof fn lemma_dust_sinks_into_lighter(world: WorldView, x: int, y: int)
    requires
        dust_step(world, x, y).1 == Outcome::Moved,
    ensures
        ({
            let target = world.read_at(x + drift(world.read_at(x, y)), y - 1);
            &&& phase_of(target.type_id) != Phase::Solid
            &&& weight_of(target.type_id) matches Some(weight)
            &&& weight < DUST_WEIGHT
        }),
{
}

/// A step of dust does not look at the lock of the grain's own cell: with
/// another holder of that cell it ends the same way, the lock aside.
pub proof fn lemma_dust_step_own_lock(world: WorldView, owner: i32, x: int, y: int)
    requires
        world.wf(),
        world.contains(x, y),
    ensures
        dust_step(world.with_lock(world.index_of(x, y), owner), x, y) == (
            dust_step(world, x, y).0.with_lock(world.index_of(x, y), owner),
            dust_step(world, x, y).1,
        ),
        dust_step(world, x, y).0.locks == world.locks,
{
    let dust = world.read_at(x, y);
    lemma_apart(world, x, y, x + drift(dust), y - 1);
}

/// One step of a particle with the behaviour of the type `type_id` at
/// `(x, y)`: that of dust if it is dust in a cell of the grid, and nothing
/// for anything else.
pub open spec fn step(world: WorldView, type_id: u8, in_grid: bool, x: int, y: int) -> (
    WorldView,
    Outcome,
) {
    if type_id == DUST && in_grid {
        dust_step(world, x, y)
    } else {
        (world, Outcome::Blocked)
    }
}

/// A particle with the behaviour of its type.
#[derive(Debug)]
#[must_use]
pub enum Particle {
    Air(Air),
    Wall(Wall),
    Dust(Dust),
}

impl Particle {
    /// The handle that the particle was made from.
    pub open spec fn handle(&self) -> BaseParticle {
        match self {
            Particle::Air(p) => p.handle(),
            Particle::Wall(p) => p.handle(),
            Particle::Dust(p) => p.handle(),
        }
    }

    /// The type tag that the particle's behaviour belongs to.
    pub open spec fn type_id(&self) -> u8 {
        match self {
            Particle::Air(_) => AIR,
            Particle::Wall(_) => WALL,
            Particle::Dust(_) => DUST,
        }
    }

    pub fn base(&self) -> (base: &BaseParticle)
        ensures
            *base == self.handle(),
    {
        match self {
            Particle::Air(p) => p.base(),
            Particle::Wall(p) => p.base(),
            Particle::Dust(p) => p.base(),
        }
    }

    /// Takes the behaviour off again and hands the handle out.
    pub fn into_base(self) -> (base: BaseParticle)
        ensures
            base == self.handle(),
    {
        match self {
            Particle::Air(p) => p.base,
            Particle::Wall(p) => p.base,
            Particle::Dust(p) => p.base,
        }
    }

    pub fn phase(&self) -> (phase: Phase)
        ensures
            phase == phase_of(self.type_id()),
    {
        match self {
            Particle::Air(p) => p.phase(),
            Particle::Wall(p) => p.phase(),
            Particle::Dust(p) => p.phase(),
        }
    }

    pub fn weight(&self) -> (weight: Option<Weight>)
        ensures
            weight == weight_of(self.type_id()),
    {
        match self {
            Particle::Air(p) => p.weight(),
            Particle::Wall(p) => p.weight(),
            Particle::Dust(p) => p.weight(),
        }
    }

    /// Resets the particle behind the handle as the behaviour has it: to
    /// rest and to the colour of the behaviour's type, and for dust with a
    /// fresh seed for the position and the tick.
    pub fn reset(&self, world: &mut World)
        requires
            old(world).wf(),
            self.handle().held(old(world)@),
        ensures
            final(world).wf(),
            final(world)@ == self.handle().put(
                old(world)@,
                after_reset(
                    self.type_id(),
                    self.handle().attributes(old(world)@),
                    seed_at(
                        old(world)@.tick as i32,
                        self.handle().spec_x(),
                        self.handle().spec_y(),
                    ),
                ),
            ),
    {
        match self {
            Particle::Air(p) => p.reset(world),
            Particle::Wall(p) => p.reset(world),
            Particle::Dust(p) => p.reset(world),
        }
    }

    /// One step of the particle. Only dust in a cell of the grid does
    /// anything; see `step`. Every lock is afterwards as it was before.
    pub fn run(&self, world: &mut World) -> (outcome: Outcome)
        requires
            old(world).wf(),
            self.handle().held(old(world)@),
        ensures
            final(world).wf(),
            (final(world)@, outcome) == step(
                old(world)@,
                self.type_id(),
                self.handle() is Real,
                self.handle().spec_x() as int,
                self.handle().spec_y() as int,
            ),
            final(world)@.locks == old(world)@.locks,
    {
        match self {
            Particle::Air(p) => p.run(),
            Particle::Wall(p) => p.run(),
            Particle::Dust(p) => p.run(world),
        }
    }

    /// The colour in which the particle is drawn.
    pub fn render(&self, world: &World) -> (rgba: u32)
        requires
            world.wf(),
            self.handle().held(world@),
        ensures
            rgba == self.handle().attributes(world@).rgba,
    {
        self.base().rgba(world)
    }
}

/// Gives the particle behind a handle the behaviour that its type tag
/// selects.
pub fn hydrate_with_data(world: &World, base: BaseParticle) -> (particle: Particle)
    requires
        world.wf(),
        base.held(world@),
    ensures
        particle.handle() == base,
        particle.type_id() == base.attributes(world@).type_id,
{
    let type_id: u8 = base.type_id(world);
    proof {
        base.lemma_known_type(world@);
    }
    if type_id == AIR {
        Particle::Air(Air { base })
    } else if type_id == WALL {
        Particle::Wall(Wall { base })
    } else {
        Particle::Dust(Dust { base })
    }
}

/// Turns the particle behind a handle into one of another type: writes the
/// type tag and lets the behaviour of the new type reset the rest. A boundary
/// particle stays what it is.
pub fn reset_to_type(world: &mut World, base: BaseParticle, new_type: u8) -> (particle: Particle)
    requires
        old(world).wf(),
        base.held(old(world)@),
        is_known_type(new_type),
    ensures
        final(world).wf(),
        particle.handle() == base,
        particle.type_id() == base.attributes(final(world)@).type_id,
        final(world)@ == base.put(
            old(world)@,
            after_reset(
                new_type,
                (Attributes { type_id: new_type, ..base.attributes(old(world)@) }),
                seed_at(old(world)@.tick as i32, base.spec_x(), base.spec_y()),
            ),
        ),
        base is Real ==> {
            let after = base.attributes(final(world)@);
            &&& after.type_id == new_type
            &&& after.initiative == 0
            &&& after.velocity_x == 0
            &&& after.velocity_y == 0
            &&& after.subpixel_position_x == 0
            &&& after.subpixel_position_y == 0
            &&& after.mass == 0
            &&& after.temperature == 0
            &&& after.rgba == colour_of(new_type)
        },
{
    let ghost before = base.attributes(old(world)@);
    let ghost typed = Attributes { type_id: new_type, ..before };
    base.set_type_id(world, new_type);
    proof {
        base.lemma_put(old(world)@, typed, typed);
    }
    let particle = hydrate_with_data(world, base);
    proof {
        let seed = seed_at(old(world)@.tick as i32, base.spec_x(), base.spec_y());
        base.lemma_put(old(world)@, typed, after_reset(new_type, typed, seed));
        base.lemma_put(old(world)@, after_reset(new_type, typed, seed), typed);
    }
    particle.reset(world);
    particle
}

} // verus!
