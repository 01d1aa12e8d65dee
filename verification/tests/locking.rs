use falling_sand::particle_data::{new_particle, new_particle_data, BaseParticle};
use falling_sand::world::{Attributes, World, WrappingBehaviour, AIR, DUST, FREE, WALL};

fn sides() -> WrappingBehaviour {
    WrappingBehaviour { top: DUST, left: WALL, bottom: AIR, right: DUST }
}

fn grid(width: i32, height: i32) -> World {
    World::new(width, height, sides(), 2).unwrap()
}

fn locks(world: &World) -> Vec<i32> {
    (0..world.len()).map(|index| world.lock(index)).collect()
}

fn cells(world: &World) -> Vec<Attributes> {
    (0..world.len()).map(|index| world.get(index)).collect()
}

fn take(world: &mut World, thread_id: i32, x: i32, y: i32) -> BaseParticle {
    new_particle_data(world, thread_id, x, y).unwrap()
}

#[test]
fn acquire_inside_takes_the_lock() {
    let mut world = grid(4, 3);
    let handle = take(&mut world, 7, 2, 1);
    assert!(matches!(handle, BaseParticle::Real(_)));
    assert_eq!((handle.thread_id(), handle.x(), handle.y()), (7, 2, 1));
    assert_eq!(world.lock(6), 7);
    for index in (0..12).filter(|index| *index != 6) {
        assert_eq!(world.lock(index), FREE);
    }
    if let BaseParticle::Real(cell) = &handle {
        assert_eq!(cell.index(), 6);
    }
    handle.release(&mut world);
}

#[test]
fn acquire_outside_never_touches_the_locks() {
    let mut world = grid(4, 3);
    for (x, y) in [(-1, 0), (0, -1), (4, 0), (0, 3), (-7, -7), (100, 100), (i32::MIN, i32::MAX)] {
        let handle = take(&mut world, 7, x, y);
        assert!(matches!(handle, BaseParticle::Fake(_)));
        assert_eq!((handle.thread_id(), handle.x(), handle.y()), (7, x, y));
        assert_eq!(locks(&world), vec![FREE; 12]);
        handle.release(&mut world);
        assert_eq!(locks(&world), vec![FREE; 12]);
    }
}

#[test]
fn acquire_outside_succeeds_while_all_cells_are_held() {
    let mut world = grid(2, 1);
    let a = take(&mut world, 1, 0, 0);
    let b = take(&mut world, 1, 1, 0);
    assert!(new_particle_data(&mut world, 2, -1, 0).is_ok());
    assert!(new_particle_data(&mut world, 2, 2, 0).is_ok());
    assert!(new_particle_data(&mut world, 1, 0, 1).is_ok());
    a.release(&mut world);
    b.release(&mut world);
}

#[test]
fn boundary_has_the_type_of_its_side() {
    let mut world = grid(4, 3);
    assert_eq!(take(&mut world, 1, -1, 1).type_id(&world), WALL);
    assert_eq!(take(&mut world, 1, 1, -1).type_id(&world), DUST);
    assert_eq!(take(&mut world, 1, 4, 1).type_id(&world), DUST);
    assert_eq!(take(&mut world, 1, 1, 3).type_id(&world), AIR);
}

#[test]
fn boundary_corners_go_left_then_top_then_right() {
    let mut world = World::new(
        4,
        3,
        WrappingBehaviour { top: DUST, left: WALL, bottom: AIR, right: WALL },
        1,
    ).unwrap();
    assert_eq!(take(&mut world, 1, -1, -1).type_id(&world), WALL);
    assert_eq!(take(&mut world, 1, -1, 3).type_id(&world), WALL);
    assert_eq!(take(&mut world, 1, 4, -1).type_id(&world), DUST);
    assert_eq!(take(&mut world, 1, 4, 3).type_id(&world), WALL);
    let mut world = World::new(
        4,
        3,
        WrappingBehaviour { top: AIR, left: AIR, bottom: DUST, right: WALL },
        1,
    ).unwrap();
    assert_eq!(take(&mut world, 1, 4, 3).type_id(&world), WALL);
    assert_eq!(take(&mut world, 1, 0, 3).type_id(&world), DUST);
}

#[test]
fn boundary_reads_zero_and_swallows_writes() {
    let mut world = grid(2, 2);
    let before = cells(&world);
    let handle = take(&mut world, 3, -1, 0);
    handle.set_type_id(&mut world, DUST);
    handle.set_stage(&mut world, 1);
    handle.set_initiative(&mut world, 2);
    handle.set_rgba(&mut world, 3);
    handle.set_velocity_x(&mut world, 4);
    handle.set_velocity_y(&mut world, 5);
    handle.set_subpixel_position_x(&mut world, 6);
    handle.set_subpixel_position_y(&mut world, 7);
    handle.set_mass(&mut world, 8);
    handle.set_temperature(&mut world, 9);
    handle.set_scratch1(&mut world, 10);
    handle.set_scratch2(&mut world, 11);
    handle.write(&mut world, Attributes { rgba: 77, ..Attributes::blank(DUST) });
    assert_eq!(handle.read(&world), Attributes::blank(WALL));
    assert_eq!(handle.type_id(&world), WALL);
    assert_eq!(handle.stage(&world), 0);
    assert_eq!(handle.initiative(&world), 0);
    assert_eq!(handle.rgba(&world), 0);
    assert_eq!(handle.velocity_x(&world), 0);
    assert_eq!(handle.velocity_y(&world), 0);
    assert_eq!(handle.subpixel_position_x(&world), 0);
    assert_eq!(handle.subpixel_position_y(&world), 0);
    assert_eq!(handle.mass(&world), 0);
    assert_eq!(handle.temperature(&world), 0);
    assert_eq!(handle.scratch1(&world), 0);
    assert_eq!(handle.scratch2(&world), 0);
    assert!(!handle.is_new_tick(&mut world));
    assert_eq!(cells(&world), before);
    assert_eq!(locks(&world), vec![FREE; 4]);
}

#[test]
fn second_acquire_of_a_held_cell_fails() {
    let mut world = grid(8, 8);
    let first = take(&mut world, 1, 5, 5);
    let held = locks(&world);
    assert!(new_particle_data(&mut world, 2, 5, 5).is_err());
    assert_eq!(locks(&world), held);
    assert_eq!(world.lock(45), 1);
    first.release(&mut world);
    assert_eq!(world.lock(45), FREE);
    let second = new_particle_data(&mut world, 2, 5, 5);
    assert!(second.is_ok());
    assert_eq!(world.lock(45), 2);
    second.unwrap().release(&mut world);
    assert_eq!(locks(&world), vec![FREE; 64]);
}

#[test]
fn holder_cannot_acquire_its_own_cell_again() {
    let mut world = grid(3, 3);
    let first = take(&mut world, 4, 1, 1);
    assert!(new_particle_data(&mut world, 4, 1, 1).is_err());
    assert_eq!(world.lock(4), 4);
    first.release(&mut world);
}

#[test]
fn one_worker_may_hold_two_cells() {
    let mut world = grid(3, 3);
    let a = take(&mut world, 4, 1, 1);
    let b = take(&mut world, 4, 1, 0);
    assert_eq!((world.lock(4), world.lock(1)), (4, 4));
    a.release(&mut world);
    assert_eq!((world.lock(4), world.lock(1)), (FREE, 4));
    b.release(&mut world);
    assert_eq!(locks(&world), vec![FREE; 9]);
}

#[test]
fn new_particle_gives_a_handle_or_none() {
    let mut world = grid(3, 3);
    let first = new_particle(&mut world, 1, 2, 2);
    assert!(matches!(first, Some(BaseParticle::Real(_))));
    assert_eq!(world.lock(8), 1);
    assert!(new_particle(&mut world, 2, 2, 2).is_none());
    assert!(matches!(new_particle(&mut world, 2, 3, 2), Some(BaseParticle::Fake(_))));
    first.unwrap().release(&mut world);
    assert!(new_particle(&mut world, 2, 2, 2).is_some());
}

#[test]
fn handle_reads_and_writes_its_own_cell() {
    let mut world = grid(3, 2);
    let handle = take(&mut world, 9, 1, 1);
    handle.set_type_id(&mut world, DUST);
    handle.set_stage(&mut world, 1);
    handle.set_initiative(&mut world, 2);
    handle.set_rgba(&mut world, 3);
    handle.set_velocity_x(&mut world, 4);
    handle.set_velocity_y(&mut world, 5);
    handle.set_subpixel_position_x(&mut world, 6);
    handle.set_subpixel_position_y(&mut world, 7);
    handle.set_mass(&mut world, 8);
    handle.set_temperature(&mut world, 9);
    handle.set_scratch1(&mut world, 0xFFFF_FFFF_FFFF_FFFF);
    handle.set_scratch2(&mut world, 0x8000_0000_0000_0001);
    let expected = Attributes {
        type_id: DUST,
        tick_parity: false,
        stage: 1,
        initiative: 2,
        rgba: 3,
        velocity_x: 4,
        velocity_y: 5,
        subpixel_position_x: 6,
        subpixel_position_y: 7,
        mass: 8,
        temperature: 9,
        scratch1: 0xFFFF_FFFF_FFFF_FFFF,
        scratch2: 0x8000_0000_0000_0001,
    };
    assert_eq!(handle.read(&world), expected);
    assert_eq!(world.get(4), expected);
    assert_eq!(handle.type_id(&world), DUST);
    assert_eq!(handle.stage(&world), 1);
    assert_eq!(handle.initiative(&world), 2);
    assert_eq!(handle.rgba(&world), 3);
    assert_eq!(handle.velocity_x(&world), 4);
    assert_eq!(handle.velocity_y(&world), 5);
    assert_eq!(handle.subpixel_position_x(&world), 6);
    assert_eq!(handle.subpixel_position_y(&world), 7);
    assert_eq!(handle.mass(&world), 8);
    assert_eq!(handle.temperature(&world), 9);
    assert_eq!(handle.scratch1(&world), 0xFFFF_FFFF_FFFF_FFFF);
    assert_eq!(handle.scratch2(&world), 0x8000_0000_0000_0001);
    for index in [0, 1, 2, 3, 5] {
        assert_eq!(world.get(index), Attributes::blank(AIR));
    }
    handle.release(&mut world);
    assert_eq!(world.get(4), expected);
}

#[test]
fn neighbour_asks_for_the_cell_beside() {
    let mut world = grid(3, 3);
    let centre = take(&mut world, 5, 1, 1);
    let up = centre.neighbour(&mut world, 0, -1).unwrap();
    assert_eq!((up.thread_id(), up.x(), up.y()), (5, 1, 0));
    assert_eq!(world.lock(1), 5);
    let corner = centre.neighbour(&mut world, 1, 1).unwrap();
    assert_eq!((corner.x(), corner.y()), (2, 2));
    assert_eq!(world.lock(8), 5);
    assert!(centre.neighbour(&mut world, 0, -1).is_err());
    up.release(&mut world);
    corner.release(&mut world);
    centre.release(&mut world);
    assert_eq!(locks(&world), vec![FREE; 9]);
}

#[test]
fn neighbour_beyond_the_edge_is_the_boundary() {
    let mut world = grid(3, 3);
    let corner = take(&mut world, 5, 0, 0);
    let above = corner.neighbour(&mut world, 0, -1).unwrap();
    assert!(matches!(above, BaseParticle::Fake(_)));
    assert_eq!((above.x(), above.y()), (0, -1));
    assert_eq!(above.type_id(&world), DUST);
    let further = above.neighbour(&mut world, -1, 0).unwrap();
    assert_eq!((further.x(), further.y()), (-1, -1));
    assert_eq!(further.type_id(&world), WALL);
    let back = above.neighbour(&mut world, 1, 1).unwrap();
    assert!(matches!(back, BaseParticle::Real(_)));
    assert_eq!((back.x(), back.y()), (1, 0));
    back.release(&mut world);
    corner.release(&mut world);
    assert_eq!(locks(&world), vec![FREE; 9]);
}

#[test]
fn neighbour_held_by_another_worker_is_busy() {
    let mut world = grid(3, 3);
    let theirs = take(&mut world, 2, 1, 0);
    let mine = take(&mut world, 1, 1, 1);
    assert!(mine.neighbour(&mut world, 0, -1).is_err());
    assert_eq!(world.lock(1), 2);
    theirs.release(&mut world);
    mine.release(&mut world);
}

#[test]
fn is_new_tick_says_yes_once_per_tick() {
    let mut world = grid(2, 2);
    world.advance_tick();
    let handle = take(&mut world, 1, 1, 1);
    assert!(handle.is_new_tick(&mut world));
    assert!(world.tick_parity(3));
    assert!(!handle.is_new_tick(&mut world));
    assert!(!handle.is_new_tick(&mut world));
    world.advance_tick();
    assert!(handle.is_new_tick(&mut world));
    assert!(!world.tick_parity(3));
    assert!(!handle.is_new_tick(&mut world));
    handle.release(&mut world);
}

#[test]
fn is_new_tick_is_kept_per_cell() {
    let mut world = grid(2, 1);
    world.advance_tick();
    let a = take(&mut world, 1, 0, 0);
    let b = take(&mut world, 1, 1, 0);
    assert!(a.is_new_tick(&mut world));
    assert!(b.is_new_tick(&mut world));
    assert!(!a.is_new_tick(&mut world));
    assert!(!b.is_new_tick(&mut world));
    a.release(&mut world);
    b.release(&mut world);
}

#[test]
fn is_new_tick_changes_nothing_but_the_parity() {
    let mut world = grid(2, 1);
    world.advance_tick();
    let a = take(&mut world, 1, 0, 0);
    a.set_rgba(&mut world, 99);
    let before = world.get(0);
    a.is_new_tick(&mut world);
    assert_eq!(world.get(0), Attributes { tick_parity: true, ..before });
    assert_eq!(world.get(1), Attributes::blank(AIR));
    a.release(&mut world);
}

#[test]
fn is_new_tick_misses_a_tick_that_nobody_looked_at() {
    let mut world = grid(1, 1);
    let a = take(&mut world, 1, 0, 0);
    world.advance_tick();
    world.advance_tick();
    assert!(!a.is_new_tick(&mut world));
    a.release(&mut world);
}

#[test]
fn random_seed_lays_the_position_over_the_tick() {
    let mut world = grid(4, 4);
    world.set_tick(3);
    let handle = take(&mut world, 1, 1, 2);
    assert_eq!(handle.get_random_seed(&world), 3 | (1 << 16) | 2);
    assert_eq!(handle.get_random_seed(&world), 65539);
    world.set_tick(0x0100_0000);
    assert_eq!(handle.get_random_seed(&world), 0x0101_0002);
    handle.release(&mut world);
    let outside = take(&mut world, 1, -1, 2);
    assert_eq!(outside.get_random_seed(&world), 0xFFFF_0002 | 0x0100_0000);
    let above = take(&mut world, 1, 2, -1);
    assert_eq!(above.get_random_seed(&world), 0xFFFF_FFFF);
}

#[test]
fn random_seed_differs_from_tick_to_tick_and_cell_to_cell() {
    let mut world = grid(4, 4);
    let a = take(&mut world, 1, 1, 2);
    let b = take(&mut world, 1, 2, 1);
    assert_ne!(a.get_random_seed(&world), b.get_random_seed(&world));
    let before = a.get_random_seed(&world);
    world.advance_tick();
    assert_ne!(a.get_random_seed(&world), before);
    a.release(&mut world);
    b.release(&mut world);
}

#[test]
fn swap_exchanges_everything_but_the_locks() {
    let mut world = grid(2, 2);
    let a = take(&mut world, 1, 0, 0);
    let b = take(&mut world, 1, 1, 1);
    let first = Attributes {
        type_id: DUST,
        tick_parity: true,
        stage: 1,
        initiative: 2,
        rgba: 3,
        velocity_x: 4,
        velocity_y: 5,
        subpixel_position_x: 6,
        subpixel_position_y: 7,
        mass: 8,
        temperature: 9,
        scratch1: 10,
        scratch2: 11,
    };
    let second = Attributes { rgba: 0x0000FF44, ..Attributes::blank(WALL) };
    a.write(&mut world, first);
    b.write(&mut world, second);
    a.swap(&mut world, &b);
    assert_eq!(world.get(0), second);
    assert_eq!(world.get(3), first);
    assert_eq!(world.get(1), Attributes::blank(AIR));
    assert_eq!(world.get(2), Attributes::blank(AIR));
    assert_eq!(locks(&world), vec![1, FREE, FREE, 1]);
    b.swap(&mut world, &a);
    assert_eq!(world.get(0), first);
    assert_eq!(world.get(3), second);
    a.release(&mut world);
    b.release(&mut world);
}

#[test]
fn swap_with_the_boundary_loses_the_particle() {
    let mut world = grid(2, 2);
    let a = take(&mut world, 1, 0, 0);
    a.write(&mut world, Attributes { rgba: 3, scratch1: 4, ..Attributes::blank(DUST) });
    let outside = a.neighbour(&mut world, -1, 0).unwrap();
    a.swap(&mut world, &outside);
    assert_eq!(world.get(0), Attributes::blank(WALL));
    assert_eq!(outside.read(&world), Attributes::blank(WALL));
    a.write(&mut world, Attributes { rgba: 3, ..Attributes::blank(DUST) });
    outside.swap(&mut world, &a);
    assert_eq!(world.get(0), Attributes::blank(WALL));
    a.release(&mut world);
}

#[test]
fn replace_overwrites_the_destination() {
    let mut world = grid(2, 2);
    let a = take(&mut world, 1, 0, 0);
    let b = take(&mut world, 1, 1, 0);
    let grain = Attributes { rgba: 3, scratch2: 4, ..Attributes::blank(DUST) };
    a.write(&mut world, grain);
    a.replace(&mut world, &b);
    assert_eq!(world.get(0), grain);
    assert_eq!(world.get(1), grain);
    assert_eq!(locks(&world), vec![1, 1, FREE, FREE]);
    a.release(&mut world);
    b.release(&mut world);
}

#[test]
fn replace_from_and_to_the_boundary() {
    let mut world = grid(2, 2);
    let a = take(&mut world, 1, 1, 1);
    let grain = Attributes { rgba: 3, ..Attributes::blank(DUST) };
    a.write(&mut world, grain);
    let below = a.neighbour(&mut world, 0, 1).unwrap();
    a.replace(&mut world, &below);
    assert_eq!(world.get(3), grain);
    assert_eq!(below.read(&world), Attributes::blank(AIR));
    below.replace(&mut world, &a);
    assert_eq!(world.get(3), Attributes::blank(AIR));
    a.release(&mut world);
}

#[test]
fn release_frees_the_lock_and_keeps_the_cell() {
    let mut world = grid(2, 2);
    let a = take(&mut world, 6, 1, 0);
    a.set_rgba(&mut world, 42);
    a.release(&mut world);
    assert_eq!(locks(&world), vec![FREE; 4]);
    assert_eq!(world.rgba(1), 42);
}
