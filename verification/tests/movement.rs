use blob_arena::blob_world::{
    Blob, BlobWorld, Blobness, Component, Transform,
};
use blob_arena::systems::blob::{BlobSystem, InputSnapshot, AXIS_SCALE, MOVEMENT_SCALE_FACTOR};

const X_LOWER: i32 = 48_000; // BLOB_WIDTH, 24.0 world units
const X_UPPER: i32 = 1_576_000; // WORLD_WIDTH - BLOB_WIDTH / 2, 788.0 world units
const CENTER: i32 = 800_000; // 400.0 world units

fn world_with_blob_at(x: i32, y: i32) -> BlobWorld {
    let mut w = BlobWorld::new();
    let e = w.create_entity();
    w.attach(e, Component::Blob(Blob::new(Blobness::Alive)));
    w.attach(e, Component::Transform(Transform { x, y, z: 0 }));
    w
}

#[test]
fn movement_scale_is_three_halves_of_axis_scale() {
    // Full deflection for one tick moves by 1.5 world units: 3000 subunits.
    assert_eq!(MOVEMENT_SCALE_FACTOR * AXIS_SCALE, 3_000);
}

#[test]
fn one_tick_full_right_from_center() {
    // leftright = 1.0, updown absent, from (400.0, 400.0): the new position
    // is (401.5, 400.0) — in subunits, (803000, 800000).
    let mut w = BlobWorld::new();
    w.on_start();
    let mut system = BlobSystem;
    let input = InputSnapshot { leftright: Some(AXIS_SCALE), updown: None };
    system.run(&mut w, &input);
    assert_eq!(w.get_transform(1), Some(Transform { x: 803_000, y: 800_000, z: 0 }));
}

#[test]
fn upper_clamp_binds_exactly() {
    // Starting at x = WORLD_WIDTH - BLOB_WIDTH * 0.5 with leftright = 1.0:
    // the upper clamp binds and x is unchanged, with no overshoot.
    let mut w = world_with_blob_at(X_UPPER, CENTER);
    let mut system = BlobSystem;
    let input = InputSnapshot { leftright: Some(AXIS_SCALE), updown: None };
    system.run(&mut w, &input);
    assert_eq!(w.get_transform(0), Some(Transform { x: X_UPPER, y: CENTER, z: 0 }));
}

#[test]
fn lower_clamp_binds_exactly() {
    // Starting at x = BLOB_WIDTH with leftright = -1.0: the lower clamp
    // binds and x is unchanged.
    let mut w = world_with_blob_at(X_LOWER, CENTER);
    let mut system = BlobSystem;
    let input = InputSnapshot { leftright: Some(-AXIS_SCALE), updown: None };
    system.run(&mut w, &input);
    assert_eq!(w.get_transform(0), Some(Transform { x: X_LOWER, y: CENTER, z: 0 }));
}

#[test]
fn unclamped_step_is_exact() {
    // Half negative deflection from 50.0 world units: 100000 - 3 * 500.
    let mut w = world_with_blob_at(100_000, CENTER);
    let mut system = BlobSystem;
    let input = InputSnapshot { leftright: Some(-500), updown: None };
    system.run(&mut w, &input);
    assert_eq!(w.get_transform(0), Some(Transform { x: 98_500, y: CENTER, z: 0 }));
}

#[test]
fn absent_axis_is_left_untouched() {
    let mut w = world_with_blob_at(CENTER, CENTER);
    let mut system = BlobSystem;
    let input = InputSnapshot { leftright: None, updown: Some(AXIS_SCALE) };
    system.run(&mut w, &input);
    assert_eq!(w.get_transform(0), Some(Transform { x: CENTER, y: 803_000, z: 0 }));
}

#[test]
fn zero_input_ticks_leave_transform_unchanged() {
    let mut w = BlobWorld::new();
    w.on_start();
    let mut system = BlobSystem;
    let input = InputSnapshot { leftright: None, updown: None };
    for _ in 0..25 {
        system.run(&mut w, &input);
    }
    assert_eq!(w.get_transform(1), Some(Transform { x: CENTER, y: CENTER, z: 0 }));
}

#[test]
fn positions_stay_in_bounds_under_extreme_input() {
    let mut w = BlobWorld::new();
    w.on_start();
    let mut system = BlobSystem;
    // Push hard left and down for many ticks, then hard right and up.
    for _ in 0..400 {
        let input = InputSnapshot { leftright: Some(-AXIS_SCALE), updown: Some(-AXIS_SCALE) };
        system.run(&mut w, &input);
    }
    let t = w.get_transform(1).unwrap();
    assert_eq!(t.x, X_LOWER);
    assert_eq!(t.y, X_LOWER);
    for _ in 0..800 {
        let input = InputSnapshot { leftright: Some(AXIS_SCALE), updown: Some(AXIS_SCALE) };
        system.run(&mut w, &input);
        let t = w.get_transform(1).unwrap();
        assert!(X_LOWER <= t.x && t.x <= X_UPPER);
        assert!(X_LOWER <= t.y && t.y <= X_UPPER);
    }
    let t = w.get_transform(1).unwrap();
    assert_eq!(t.x, X_UPPER);
    assert_eq!(t.y, X_UPPER);
}

#[test]
fn ball_transform_is_never_mutated() {
    let mut w = BlobWorld::new();
    w.on_start();
    let mut system = BlobSystem;
    let inputs = [
        InputSnapshot { leftright: Some(AXIS_SCALE), updown: Some(-AXIS_SCALE) },
        InputSnapshot { leftright: Some(-AXIS_SCALE), updown: None },
        InputSnapshot { leftright: None, updown: Some(AXIS_SCALE) },
        InputSnapshot { leftright: None, updown: None },
        InputSnapshot { leftright: Some(250), updown: Some(-750) },
    ];
    for _ in 0..20 {
        for input in &inputs {
            system.run(&mut w, input);
            // The ball entity carries no Blob, so the movement system never
            // touches its transform, whatever the input.
            assert_eq!(w.get_transform(0), Some(Transform { x: CENTER, y: CENTER, z: 0 }));
            assert_eq!(w.get_ball(0).unwrap().radius, 32_000);
        }
    }
    // The blob did move meanwhile.
    assert!(w.get_transform(1) != Some(Transform { x: CENTER, y: CENTER, z: 0 }));
}

#[test]
fn entities_without_transform_are_skipped() {
    let mut w = BlobWorld::new();
    let e = w.create_entity();
    w.attach(e, Component::Blob(Blob::new(Blobness::Alive)));
    let mut system = BlobSystem;
    let input = InputSnapshot { leftright: Some(AXIS_SCALE), updown: Some(AXIS_SCALE) };
    system.run(&mut w, &input);
    assert!(w.get_transform(e).is_none());
    assert!(w.get_blob(e).is_some());
}
