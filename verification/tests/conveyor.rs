use conveyor_city::conveyor::{
    ConveyorConfigError, ConveyorWorld, ShapeEntity, Station, BELT_OFFSET, BIN_OFFSET,
    CAPTURE_HALF_WIDTH, DEFAULT_PERIOD_MS, MOTION_STEP, SPAWN_Y_OFFSET,
};
use conveyor_city::shapes::{Shape, ShapeColor};

fn standard_world() -> ConveyorWorld {
    let mut world =
        ConveyorWorld::new(DEFAULT_PERIOD_MS, MOTION_STEP, false, CAPTURE_HALF_WIDTH).unwrap();
    world
        .spawn_conveyor(Station { x: -400, y: 0 })
        .unwrap();
    world
}

fn shape_at(id: u64, x: i64) -> ShapeEntity {
    ShapeEntity { id, kind: Shape::Circle, color: ShapeColor::Red, x, y: 0 }
}

#[test]
fn world_config_errors() {
    assert!(matches!(
        ConveyorWorld::new(0, 1, false, 128),
        Err(ConveyorConfigError::ZeroPeriod)
    ));
    assert!(matches!(
        ConveyorWorld::new(5000, 0, false, 128),
        Err(ConveyorConfigError::NonPositiveStep)
    ));
    assert!(matches!(
        ConveyorWorld::new(5000, 1, false, 0),
        Err(ConveyorConfigError::InvalidCaptureWidth)
    ));
}

#[test]
fn conveyor_stations_stand_in_a_line() {
    let world = standard_world();
    assert_eq!(world.generators[0], Station { x: -400, y: 0 });
    assert_eq!(world.belts[0], Station { x: -400 + BELT_OFFSET, y: 0 });
    assert_eq!(world.bins[0], Station { x: -400 + BIN_OFFSET, y: 0 });
}

#[test]
fn conveyor_rejects_origin_out_of_range() {
    let mut world = standard_world();
    let result = world.spawn_conveyor(Station { x: i64::MAX - BIN_OFFSET, y: 0 });
    assert!(matches!(result, Err(ConveyorConfigError::StationOutOfRange)));
    assert_eq!(world.generators.len(), 1);
}

#[test]
fn conveyor_rejects_overlapping_bins() {
    let mut world = standard_world();
    let result = world.spawn_conveyor(Station { x: -300, y: 0 });
    assert!(matches!(result, Err(ConveyorConfigError::OverlappingBins)));
    assert_eq!(world.bins.len(), 1);
}

#[test]
fn disjoint_second_conveyor_is_accepted() {
    let mut world = standard_world();
    world.spawn_conveyor(Station { x: 1000, y: 0 }).unwrap();
    assert_eq!(world.bins.len(), 2);
}

#[test]
fn spawner_does_nothing_before_the_clock_fires() {
    let mut world = standard_world();
    assert!(!world.shape_spawner_system(4999));
    assert!(world.shapes.is_empty());
    assert_eq!(world.next_id, 0);
}

#[test]
fn spawner_spawns_one_shape_per_generator_on_firing() {
    let mut world = standard_world();
    world.spawn_conveyor(Station { x: 2000, y: 50 }).unwrap();
    assert!(world.shape_spawner_system(5000));
    assert_eq!(world.shapes.len(), 2);
    assert_eq!(world.shapes[0].id, 0);
    assert_eq!(world.shapes[0].x, -400);
    assert_eq!(world.shapes[0].y, SPAWN_Y_OFFSET);
    assert_eq!(world.shapes[1].id, 1);
    assert_eq!(world.shapes[1].x, 2000);
    assert_eq!(world.shapes[1].y, 50 + SPAWN_Y_OFFSET);
    assert_eq!(world.next_id, 2);
}

#[test]
fn movement_advances_every_shape_by_the_step() {
    let mut world = standard_world();
    world.shapes.push(shape_at(0, -400));
    world.shapes.push(shape_at(1, 0));
    world.next_id = 2;
    world.shapes_movement_system(16);
    assert_eq!(world.shapes[0].x, -400 + MOTION_STEP);
    assert_eq!(world.shapes[1].x, MOTION_STEP);
    assert_eq!(world.shapes.len(), 2);
}

#[test]
fn scaled_movement_multiplies_step_by_elapsed_time() {
    let mut world = ConveyorWorld::new(5000, 2, true, 128).unwrap();
    world.shapes.push(shape_at(0, 100));
    world.next_id = 1;
    world.shapes_movement_system(10);
    assert_eq!(world.shapes[0].x, 100 + 2 * 10);
}

#[test]
fn collector_takes_only_shapes_strictly_inside_the_interval() {
    let mut world = standard_world();
    let bin_x = world.bins[0].x;
    world.shapes.push(shape_at(0, bin_x - CAPTURE_HALF_WIDTH)); // on the left edge: stays
    world.shapes.push(shape_at(1, bin_x - CAPTURE_HALF_WIDTH + 1)); // just inside: collected
    world.shapes.push(shape_at(2, bin_x)); // center: collected
    world.shapes.push(shape_at(3, bin_x + CAPTURE_HALF_WIDTH)); // on the right edge: stays
    world.shapes.push(shape_at(4, bin_x + CAPTURE_HALF_WIDTH + 1)); // past the bin: stays
    world.next_id = 5;
    world.shapes_despawning_system();
    let kept: Vec<u64> = world.shapes.iter().map(|s| s.id).collect();
    assert_eq!(kept, vec![0, 3, 4]);
}

#[test]
fn collector_keeps_order_and_other_conveyors_shapes() {
    let mut world = standard_world();
    world.spawn_conveyor(Station { x: 1000, y: 0 }).unwrap();
    let first_bin = world.bins[0].x;
    let second_bin = world.bins[1].x;
    world.shapes.push(shape_at(0, first_bin - 500));
    world.shapes.push(shape_at(1, first_bin));
    world.shapes.push(shape_at(2, second_bin - 500));
    world.shapes.push(shape_at(3, second_bin));
    world.next_id = 4;
    world.shapes_despawning_system();
    let kept: Vec<u64> = world.shapes.iter().map(|s| s.id).collect();
    assert_eq!(kept, vec![0, 2]);
}

#[test]
fn shape_count_changes_only_through_spawn_and_collect() {
    let mut world = standard_world();
    assert!(world.tick_frame(5000));
    assert_eq!(world.shapes.len(), 1);
    for _ in 0..100 {
        world.tick_frame(0);
        assert_eq!(world.shapes.len(), 1);
    }
}

#[test]
fn spawned_shape_is_collected_within_six_hundred_frames() {
    // One generator, belt and bin in a line, the bin 300 world units from the
    // generator; motion 0.5 world units per frame. The spawned shape reaches
    // the bin and is collected within ceil(300 / 0.5) = 600 frames, bringing
    // the entity count back to where it was before the spawn.
    let mut world = standard_world();
    let count_before_spawn = world.shapes.len();
    assert!(world.tick_frame(5000));
    assert_eq!(world.shapes.len(), count_before_spawn + 1);
    for _ in 0..599 {
        world.tick_frame(0);
    }
    assert_eq!(world.shapes.len(), count_before_spawn);
}

#[test]
fn shape_is_collected_only_after_entering_the_capture_interval() {
    let mut world = standard_world();
    assert!(world.tick_frame(5000));
    // The shape starts at the generator (-400) and the capture interval opens
    // at bin.x - 128 == 72, so it survives well past 400 frames.
    for _ in 0..400 {
        world.tick_frame(0);
        assert_eq!(world.shapes.len(), 1);
    }
}
