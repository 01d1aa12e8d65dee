//! The driver of a worker: which cells are a worker's share of the grid, and
//! one pass over them.
//!
//! The workers split the grid's cells, in the order of their linear index,
//! into runs of equal length, one run each. When the host moves the global
//! tick on is the host's affair; a worker marks itself as running for the
//! time of its pass, so that the host can tell when all have finished.

use vstd::prelude::*;
use crate::{process_particle, processed};
use crate::world::{World, WorldView, FREE, MAX_HEIGHT, MAX_WIDTH};

verus! {

/// The status of a worker that is not in a pass.
pub const IDLE: i32 = 0;

/// The status of a worker in a pass.
pub const RUNNING: i32 = 1;

/// The number of cells in each worker's share.
pub open spec fn chunk_size(total: int, workers: int) -> int {
    total / workers
}

/// The first cell of a worker's share.
pub open spec fn chunk_start(worker_index: int, total: int, workers: int) -> int {
    chunk_size(total, workers) * worker_index
}

/// The cell after the last of a worker's share.
pub open spec fn chunk_end(worker_index: int, total: int, workers: int) -> int {
    let end = chunk_start(worker_index, total, workers) + chunk_size(total, workers);
    if end <= total {
        end
    } else {
        total
    }
}

/// Every share lies in the grid, and a worker's share ends before the share
/// of any later worker begins.
pub proof fn lemma_chunks(first: int, second: int, total: int, workers: int)
    requires
        0 <= first <= second < workers,
        0 <= total,
    ensures
        0 <= chunk_start(first, total, workers) <= chunk_end(first, total, workers) <= total,
        first < second ==> chunk_end(first, total, workers) <= chunk_start(
            second,
            total,
            workers,
        ),
{
    let size = total / workers;
    assert(0 <= size && size * workers <= total) by (nonlinear_arith)
        requires
            size == total / workers,
            0 < workers,
            0 <= total,
    ;
    assert(0 <= size * first && size * first + size <= size * workers) by (nonlinear_arith)
        requires
            0 <= size,
            0 <= first,
            first + 1 <= workers,
    ;
    if first < second {
        assert(size * first + size <= size * second) by (nonlinear_arith)
            requires
                0 <= size,
                first + 1 <= second,
        ;
    }
}

/// The share of the worker with the index `worker_index` among `workers`
/// workers that split `total` cells: its first cell and the cell after its
/// last.
pub fn chunk(worker_index: usize, total: usize, workers: usize) -> (bounds: (usize, usize))
    requires
        worker_index < workers,
    ensures
        bounds.0 == chunk_start(worker_index as int, total as int, workers as int),
        bounds.1 == chunk_end(worker_index as int, total as int, workers as int),
        bounds.0 <= bounds.1 <= total,
{
    proof {
        lemma_chunks(worker_index as int, worker_index as int, total as int, workers as int);
    }
    let size: usize = total / workers;
    assert(size * worker_index + size <= total) by (nonlinear_arith)
        requires
            size == (total as int) / (workers as int),
            worker_index < workers,
            0 <= total,
    {
        assert(size * workers <= total);
        assert(size * worker_index + size <= size * workers);
    }
    let start: usize = size * worker_index;
    let end: usize = if start + size <= total {
        start + size
    } else {
        total
    };
    (start, end)
}

/// The grid after `process_particle` has been at each cell from the one with
/// the index `start` up to the one before `end`, in that order.
pub open spec fn advanced(world: WorldView, start: int, end: int) -> WorldView
    decreases end - start,
{
    if start >= end {
        world
    } else {
        advanced(processed(world, start % world.width, start / world.width).0, start + 1, end)
    }
}

/// One pass of the worker `worker_id`, which is not `FREE`, over the cells
/// from `chunk_start` up to the one before `chunk_end`: each is taken, its
/// particle takes a step, and it is given back. A cell that someone else
/// holds is passed over. Every lock is afterwards as it was, and so are the
/// tick, the boundary and the workers' statuses.
pub fn advance(world: &mut World, worker_id: i32, chunk_start: usize, chunk_end: usize)
    requires
        old(world).wf(),
        worker_id != FREE,
        chunk_start <= chunk_end <= old(world)@.cells.len(),
    ensures
        final(world).wf(),
        final(world)@ == advanced(old(world)@, chunk_start as int, chunk_end as int),
        final(world)@.locks == old(world)@.locks,
        final(world)@.width == old(world)@.width,
        final(world)@.height == old(world)@.height,
        final(world)@.tick == old(world)@.tick,
        final(world)@.wrapping_behaviour == old(world)@.wrapping_behaviour,
        final(world)@.worker_statuses == old(world)@.worker_statuses,
{
    let mut n: usize = chunk_start;
    while n < chunk_end
        invariant
            world.wf(),
            chunk_start <= n <= chunk_end <= world@.cells.len(),
            world@.locks == old(world)@.locks,
            world@.width == old(world)@.width,
            world@.height == old(world)@.height,
            world@.tick == old(world)@.tick,
            world@.wrapping_behaviour == old(world)@.wrapping_behaviour,
            world@.worker_statuses == old(world)@.worker_statuses,
            worker_id != FREE,
            advanced(world@, n as int, chunk_end as int) == advanced(
                old(world)@,
                chunk_start as int,
                chunk_end as int,
            ),
        decreases chunk_end - n,
    {
        let width: usize = world.width() as usize;
        assert(width > 0) by (nonlinear_arith)
            requires
                world@.cells.len() == world@.width * world@.height,
                world@.cells.len() > 0,
                width == world@.width,
                0 <= world@.width,
        ;
        assert(n / width <= n && world@.cells.len() <= MAX_WIDTH * MAX_HEIGHT) by (nonlinear_arith)
            requires
                world@.cells.len() == world@.width * world@.height,
                0 <= world@.width <= MAX_WIDTH,
                0 <= world@.height <= MAX_HEIGHT,
                0 < width,
        ;
        let x: i32 = (n % width) as i32;
        let y: i32 = (n / width) as i32;
        process_particle(world, worker_id, x, y);
        n = n + 1;
    }
}

/// What `run` does for the worker with the id `worker_id`.
pub open spec fn ran(world: WorldView, worker_id: int) -> WorldView {
    let index = worker_id - 1;
    let total = world.cells.len() as int;
    let workers = world.worker_statuses.len() as int;
    advanced(
        world.with_worker_status(index, RUNNING),
        chunk_start(index, total, workers),
        chunk_end(index, total, workers),
    ).with_worker_status(index, IDLE)
}

/// One pass of the worker with the id `worker_id` over its share of the
/// grid. Workers are numbered from one. The worker's status is `RUNNING`
/// during the pass and `IDLE` after it; the statuses of the others, the
/// locks, the tick and the boundary are afterwards as they were.
pub fn run(world: &mut World, worker_id: i32)
    requires
        old(world).wf(),
        1 <= worker_id <= old(world)@.worker_statuses.len(),
    ensures
        final(world).wf(),
        final(world)@ == ran(old(world)@, worker_id as int),
        final(world)@.locks == old(world)@.locks,
        final(world)@.width == old(world)@.width,
        final(world)@.height == old(world)@.height,
        final(world)@.tick == old(world)@.tick,
        final(world)@.wrapping_behaviour == old(world)@.wrapping_behaviour,
        final(world)@.worker_statuses == old(world)@.worker_statuses.update(
            worker_id - 1,
            IDLE,
        ),
{
    let worker_index: usize = (worker_id - 1) as usize;
    world.set_worker_status(worker_index, RUNNING);
    let total: usize = world.len();
    let workers: usize = world.workers();
    let (start, end) = chunk(worker_index, total, workers);
    advance(world, worker_id, start, end);
    world.set_worker_status(worker_index, IDLE);
    assert(world@.worker_statuses =~= old(world)@.worker_statuses.update(worker_id - 1, IDLE));
}

} // verus!
