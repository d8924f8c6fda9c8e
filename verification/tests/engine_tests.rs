use particle_engine::animation::AnimationType;
use particle_engine::bridge::{DeviceCommand, KernelCall, SharedBuffer};
use particle_engine::easing::EasingFunction;
use particle_engine::engine::ParticleEngine;
use particle_engine::error::EngineError;
use particle_engine::point::Point;

fn count_allocates(plan: &[DeviceCommand]) -> usize {
    let mut n: usize = 0;
    for cmd in plan {
        if matches!(cmd, DeviceCommand::Allocate { .. }) {
            n += 1;
        }
    }
    n
}

fn dispatches(plan: &[DeviceCommand]) -> Vec<KernelCall> {
    let mut v: Vec<KernelCall> = Vec::new();
    for cmd in plan {
        if let DeviceCommand::Dispatch { kernel } = cmd {
            v.push(*kernel);
        }
    }
    v
}

#[test]
fn quantity_one_rounds_to_one_group() {
    let (engine, _) = ParticleEngine::create(1).unwrap();
    assert_eq!(engine.quantity(), 32);
}

#[test]
fn quantity_at_group_size_still_gains_a_group() {
    let (engine, _) = ParticleEngine::create(32).unwrap();
    assert_eq!(engine.quantity(), 64);
}

#[test]
fn quantity_one_million_rounds_up() {
    let (engine, _) = ParticleEngine::create(1_000_000).unwrap();
    assert_eq!(engine.quantity(), 1_000_032);
}

#[test]
fn quantity_zero_is_rejected() {
    assert_eq!(ParticleEngine::create(0).unwrap_err(), EngineError::InvalidQuantity);
}

#[test]
fn quantity_over_maximum_is_rejected() {
    assert_eq!(ParticleEngine::create(3_000_001).unwrap_err(), EngineError::InvalidQuantity);
}

#[test]
fn quantity_at_maximum_succeeds() {
    let (engine, plan) = ParticleEngine::create(3_000_000).unwrap();
    assert_eq!(engine.quantity(), 3_000_032);
    assert_eq!(count_allocates(&plan), 1);
}

#[test]
fn create_starts_idle_with_default_easing() {
    let (engine, plan) = ParticleEngine::create(100).unwrap();
    assert!(!engine.currently_in_animation());
    assert_eq!(engine.easing(), EasingFunction::SineEaseInOut);
    assert_eq!(engine.program().easing, EasingFunction::SineEaseInOut);
    assert_eq!(
        plan,
        vec![DeviceCommand::Allocate { len: 128, easing: EasingFunction::SineEaseInOut }],
    );
}

#[test]
fn animation_lifecycle_over_four_ticks() {
    let (mut engine, _) = ParticleEngine::create(1000).unwrap();
    let attractor = Point::new(0, 0, 0);
    let duration: u64 = 1000;
    engine.start_animation(AnimationType::Cube, duration, EasingFunction::SineEaseInOut, 0);
    assert!(engine.currently_in_animation());

    // elapsed = 0
    let plan = engine.advance(0, attractor);
    assert!(engine.currently_in_animation());
    assert_eq!(
        dispatches(&plan),
        vec![KernelCall::UpdateAnimation { elapsed_ms: 0, duration_ms: duration }],
    );

    // elapsed = duration / 2
    let plan = engine.advance(duration / 2, attractor);
    assert!(engine.currently_in_animation());
    assert_eq!(
        dispatches(&plan),
        vec![KernelCall::UpdateAnimation { elapsed_ms: duration / 2, duration_ms: duration }],
    );

    // elapsed = duration: still animating, interpolating at the full duration
    let plan = engine.advance(duration, attractor);
    assert!(engine.currently_in_animation());
    assert_eq!(
        dispatches(&plan),
        vec![KernelCall::UpdateAnimation { elapsed_ms: duration, duration_ms: duration }],
    );

    // elapsed = duration + 1: exactly one terminal dispatch clamped to the
    // duration, then the controller is idle
    let plan = engine.advance(duration + 1, attractor);
    assert!(!engine.currently_in_animation());
    assert_eq!(
        dispatches(&plan),
        vec![KernelCall::UpdateAnimation { elapsed_ms: duration, duration_ms: duration }],
    );
}

#[test]
fn idle_ticks_dispatch_gravitation_only() {
    let (mut engine, _) = ParticleEngine::create(1000).unwrap();
    let attractor = Point::new(1, -2, 3);
    engine.start_animation(AnimationType::RandSphere, 10, EasingFunction::SineEaseInOut, 0);
    engine.advance(11, attractor);
    assert!(!engine.currently_in_animation());

    for now in [20u64, 30, 40] {
        let plan = engine.advance(now, attractor);
        let kernels = dispatches(&plan);
        assert_eq!(
            kernels,
            vec![KernelCall::UpdateGravitation { attractor, elapsed_ms: now }],
        );
        assert!(!kernels.iter().any(|k| matches!(k, KernelCall::UpdateAnimation { .. })));
        assert!(!engine.currently_in_animation());
    }

    // Starting an animation again leaves idle
    engine.start_animation(AnimationType::Cube, 10, EasingFunction::SineEaseInOut, 50);
    assert!(engine.currently_in_animation());
}

#[test]
fn easing_change_allocates_once_per_distinct_request() {
    let (mut engine, _) = ParticleEngine::create(1000).unwrap();
    let attractor = Point::new(0, 0, 0);
    engine.start_animation(AnimationType::Cube, 10, EasingFunction::SineEaseInOut, 0);
    engine.advance(11, attractor);
    assert!(!engine.currently_in_animation());

    // Same easing requested again: no allocation
    let plan = engine.set_easing(EasingFunction::SineEaseInOut);
    assert_eq!(count_allocates(&plan), 0);
    assert!(plan.is_empty());

    // A distinct easing: exactly one allocation, invalidating the old pair
    let plan = engine.set_easing(EasingFunction::BackEaseOut);
    assert_eq!(count_allocates(&plan), 1);
    assert_eq!(
        plan,
        vec![DeviceCommand::Allocate { len: engine.quantity(), easing: EasingFunction::BackEaseOut }],
    );
    assert_eq!(engine.easing(), EasingFunction::BackEaseOut);

    // The same easing requested twice in a row: zero on the second request
    let plan = engine.set_easing(EasingFunction::BackEaseOut);
    assert_eq!(count_allocates(&plan), 0);

    // One new allocation per distinct easing function requested
    let plan = engine.set_easing(EasingFunction::ElasticEaseOut);
    assert_eq!(count_allocates(&plan), 1);
}

#[test]
fn start_animation_with_new_easing_rebuilds_then_initializes() {
    let (mut engine, _) = ParticleEngine::create(64).unwrap();
    let plan = engine.start_animation(
        AnimationType::RandCube,
        500,
        EasingFunction::QuadEaseInOut,
        7,
    );
    assert_eq!(count_allocates(&plan), 1);
    assert_eq!(dispatches(&plan), vec![KernelCall::InitRandCubeAnimation]);
    assert_eq!(engine.easing(), EasingFunction::QuadEaseInOut);
    assert!(engine.currently_in_animation());
}

#[test]
fn reset_from_idle_completes_default_animation() {
    let (mut engine, _) = ParticleEngine::create(1000).unwrap();
    let attractor = Point::new(0, 0, 0);
    engine.start_animation(AnimationType::Cube, 100, EasingFunction::SineEaseInOut, 0);
    engine.advance(101, attractor);
    assert!(!engine.currently_in_animation());

    let plan = engine.reset(200);
    assert!(engine.currently_in_animation());
    let kernels = dispatches(&plan);
    assert_eq!(
        kernels,
        vec![
            KernelCall::ResetLayout,
            KernelCall::InitRandCubeAnimation,
            KernelCall::UpdateAnimation { elapsed_ms: 100, duration_ms: 100 },
        ],
    );
    // The reset motion completes within the single call: the last dispatch
    // is the terminal frame, clamped to the full duration.
    assert_eq!(
        *kernels.last().unwrap(),
        KernelCall::UpdateAnimation { elapsed_ms: 100, duration_ms: 100 },
    );
    assert_eq!(count_allocates(&plan), 0);
}

#[test]
fn reset_from_animating_completes_default_animation() {
    let (mut engine, _) = ParticleEngine::create(1000).unwrap();
    engine.start_animation(AnimationType::RandSphere, 300, EasingFunction::SineEaseInOut, 0);
    assert!(engine.currently_in_animation());

    let plan = engine.reset(50);
    assert!(engine.currently_in_animation());
    let kernels = dispatches(&plan);
    assert_eq!(kernels.len(), 3);
    assert_eq!(
        *kernels.last().unwrap(),
        KernelCall::UpdateAnimation { elapsed_ms: 300, duration_ms: 300 },
    );
}

#[test]
fn renderable_buffer_is_the_position_buffer() {
    let (engine, _) = ParticleEngine::create(100).unwrap();
    let handle = engine.renderable_buffer();
    assert_eq!(handle.buffer, SharedBuffer::Positions);
    assert_eq!(handle.len, 128);
}
