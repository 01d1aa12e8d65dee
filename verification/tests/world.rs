use falling_sand::world::{
    known_type, Attributes, World, WrappingBehaviour, AIR, DUST, FREE, MAX_HEIGHT, MAX_WIDTH, WALL,
};

fn walls() -> WrappingBehaviour {
    WrappingBehaviour { top: WALL, left: WALL, bottom: WALL, right: WALL }
}

#[test]
fn new_world_is_free_air_at_tick_zero() {
    let world = World::new(4, 3, walls(), 2).unwrap();
    assert_eq!(world.width(), 4);
    assert_eq!(world.height(), 3);
    assert_eq!(world.len(), 12);
    assert_eq!(world.tick(), 0);
    assert_eq!(world.workers(), 2);
    assert_eq!(world.wrapping_behaviour(), walls());
    for index in 0..12 {
        assert_eq!(world.lock(index), FREE);
        assert_eq!(world.get(index), Attributes::blank(AIR));
    }
    assert_eq!(world.worker_status(0), 0);
    assert_eq!(world.worker_status(1), 0);
}

#[test]
fn new_world_may_be_empty() {
    let world = World::new(0, 0, walls(), 0).unwrap();
    assert_eq!(world.len(), 0);
    assert_eq!(World::new(0, 5, walls(), 1).unwrap().len(), 0);
    assert_eq!(World::new(5, 0, walls(), 1).unwrap().len(), 0);
}

#[test]
fn new_world_refuses_a_size_below_zero() {
    assert!(World::new(-1, 3, walls(), 1).is_none());
    assert!(World::new(3, -1, walls(), 1).is_none());
}

#[test]
fn new_world_refuses_a_size_beyond_the_layout() {
    assert!(World::new(MAX_WIDTH + 1, 1, walls(), 1).is_none());
    assert!(World::new(1, MAX_HEIGHT + 1, walls(), 1).is_none());
    assert!(World::new(MAX_WIDTH, 1, walls(), 1).is_some());
    assert!(World::new(1, MAX_HEIGHT, walls(), 1).is_some());
    assert_eq!(MAX_WIDTH, 3840);
    assert_eq!(MAX_HEIGHT, 2160);
}

#[test]
fn new_world_refuses_an_unknown_boundary() {
    assert!(World::new(2, 2, WrappingBehaviour { top: 3, ..walls() }, 1).is_none());
    assert!(World::new(2, 2, WrappingBehaviour { left: 200, ..walls() }, 1).is_none());
    assert!(World::new(2, 2, WrappingBehaviour { bottom: 9, ..walls() }, 1).is_none());
    assert!(World::new(2, 2, WrappingBehaviour { right: 255, ..walls() }, 1).is_none());
}

#[test]
fn known_types_are_air_wall_and_dust() {
    assert_eq!((AIR, WALL, DUST), (0, 1, 2));
    assert!(known_type(AIR));
    assert!(known_type(WALL));
    assert!(known_type(DUST));
    assert!(!known_type(3));
    assert!(!known_type(255));
}

#[test]
fn blank_has_the_type_and_zero_for_the_rest() {
    let blank = Attributes::blank(DUST);
    assert_eq!(blank.type_id, DUST);
    assert!(!blank.tick_parity);
    assert_eq!(
        (blank.stage, blank.initiative, blank.rgba, blank.velocity_x, blank.velocity_y),
        (0, 0, 0, 0, 0)
    );
    assert_eq!(
        (blank.subpixel_position_x, blank.subpixel_position_y, blank.mass, blank.temperature),
        (0, 0, 0, 0)
    );
    assert_eq!((blank.scratch1, blank.scratch2), (0, 0));
}

#[test]
fn each_attribute_is_written_where_it_belongs() {
    let mut world = World::new(3, 2, walls(), 1).unwrap();
    world.set_type_id(4, DUST);
    world.set_tick_parity(4, true);
    world.set_stage(4, 7);
    world.set_initiative(4, -11);
    world.set_rgba(4, 0x11223344);
    world.set_velocity_x(4, 21);
    world.set_velocity_y(4, -22);
    world.set_subpixel_position_x(4, 31);
    world.set_subpixel_position_y(4, 32);
    world.set_mass(4, 41);
    world.set_temperature(4, 51);
    world.set_scratch1(4, u64::MAX);
    world.set_scratch2(4, 0x0123_4567_89AB_CDEF);
    let expected = Attributes {
        type_id: DUST,
        tick_parity: true,
        stage: 7,
        initiative: -11,
        rgba: 0x11223344,
        velocity_x: 21,
        velocity_y: -22,
        subpixel_position_x: 31,
        subpixel_position_y: 32,
        mass: 41,
        temperature: 51,
        scratch1: u64::MAX,
        scratch2: 0x0123_4567_89AB_CDEF,
    };
    assert_eq!(world.get(4), expected);
    assert_eq!(world.type_id(4), DUST);
    assert!(world.tick_parity(4));
    assert_eq!(world.stage(4), 7);
    assert_eq!(world.initiative(4), -11);
    assert_eq!(world.rgba(4), 0x11223344);
    assert_eq!(world.velocity_x(4), 21);
    assert_eq!(world.velocity_y(4), -22);
    assert_eq!(world.subpixel_position_x(4), 31);
    assert_eq!(world.subpixel_position_y(4), 32);
    assert_eq!(world.mass(4), 41);
    assert_eq!(world.temperature(4), 51);
    assert_eq!(world.scratch1(4), u64::MAX);
    assert_eq!(world.scratch2(4), 0x0123_4567_89AB_CDEF);
    for index in [0, 1, 2, 3, 5] {
        assert_eq!(world.get(index), Attributes::blank(AIR));
        assert_eq!(world.lock(index), FREE);
    }
    assert_eq!(world.lock(4), FREE);
}

#[test]
fn set_overwrites_a_whole_cell() {
    let mut world = World::new(2, 2, walls(), 1).unwrap();
    let grain = Attributes { rgba: 5, scratch2: 6, ..Attributes::blank(DUST) };
    world.set(3, grain);
    assert_eq!(world.get(3), grain);
    world.set(3, Attributes::blank(WALL));
    assert_eq!(world.get(3), Attributes::blank(WALL));
    assert_eq!(world.get(2), Attributes::blank(AIR));
}

#[test]
fn compare_exchange_writes_only_over_the_expected_value() {
    let mut world = World::new(2, 2, walls(), 1).unwrap();
    assert_eq!(world.lock_compare_exchange(1, FREE, 7), FREE);
    assert_eq!(world.lock(1), 7);
    assert_eq!(world.lock_compare_exchange(1, FREE, 9), 7);
    assert_eq!(world.lock(1), 7);
    assert_eq!(world.lock_compare_exchange(1, 7, 9), 7);
    assert_eq!(world.lock(1), 9);
    assert_eq!(world.lock(0), FREE);
    assert_eq!(world.get(1), Attributes::blank(AIR));
}

#[test]
fn store_writes_over_any_value() {
    let mut world = World::new(2, 2, walls(), 1).unwrap();
    world.lock_store(2, 5);
    assert_eq!(world.lock(2), 5);
    world.lock_store(2, FREE);
    assert_eq!(world.lock(2), FREE);
    world.lock_store(2, -3);
    assert_eq!(world.lock(2), -3);
}

#[test]
fn tick_moves_on_by_one() {
    let mut world = World::new(1, 1, walls(), 1).unwrap();
    assert!(!world.tick_is_odd());
    world.advance_tick();
    assert_eq!(world.tick(), 1);
    assert!(world.tick_is_odd());
    world.advance_tick();
    assert_eq!(world.tick(), 2);
    assert!(!world.tick_is_odd());
}

#[test]
fn tick_starts_over_after_the_last() {
    let mut world = World::new(1, 1, walls(), 1).unwrap();
    world.set_tick(i32::MAX);
    assert!(world.tick_is_odd());
    world.advance_tick();
    assert_eq!(world.tick(), i32::MIN);
    assert!(!world.tick_is_odd());
}

#[test]
fn odd_ticks_below_zero_are_odd() {
    let mut world = World::new(1, 1, walls(), 1).unwrap();
    world.set_tick(-1);
    assert!(world.tick_is_odd());
    world.set_tick(-2);
    assert!(!world.tick_is_odd());
    world.set_tick(-2147483647);
    assert!(world.tick_is_odd());
}

#[test]
fn worker_status_is_kept_per_worker() {
    let mut world = World::new(1, 1, walls(), 3).unwrap();
    world.set_worker_status(1, 1);
    assert_eq!(world.worker_status(0), 0);
    assert_eq!(world.worker_status(1), 1);
    assert_eq!(world.worker_status(2), 0);
    world.set_worker_status(1, 0);
    assert_eq!(world.worker_status(1), 0);
}
