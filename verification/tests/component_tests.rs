use particle_engine::animation::{Animation, AnimationType};
use particle_engine::bridge::{DeviceCommand, KernelCall};
use particle_engine::easing::EasingFunction;
use particle_engine::error::EngineError;
use particle_engine::particles::{Particles, Position, Velocity};
use particle_engine::point::Point;

#[test]
fn point_carries_its_components() {
    let p = Point::new(1000, -2500, 0);
    assert_eq!(p.x, 1000);
    assert_eq!(p.y, -2500);
    assert_eq!(p.z, 0);
}

#[test]
fn position_and_velocity_pad_to_four_components() {
    let p = Position::new(1, 2, 3);
    assert_eq!((p.x, p.y, p.z, p.pad), (1, 2, 3, 0));
    let v = Velocity::new(-4, 5, -6);
    assert_eq!((v.x, v.y, v.z, v.pad), (-4, 5, -6, 0));
}

#[test]
fn easing_symbols_match_the_build_time_definitions() {
    assert_eq!(EasingFunction::SineEaseInOut.symbol(), "sine_ease_in_out");
    assert_eq!(EasingFunction::BackEaseInOut.symbol(), "back_ease_in_out");
    assert_eq!(EasingFunction::QuadEaseInOut.symbol(), "quad_ease_in_out");
    assert_eq!(EasingFunction::BackEaseOut.symbol(), "back_ease_out");
    assert_eq!(EasingFunction::ElasticEaseOut.symbol(), "elastic_ease_out");
}

#[test]
fn easing_registry_lists_every_curve_once() {
    let curves = EasingFunction::registry();
    assert_eq!(curves.len(), 5);
    for (i, a) in curves.iter().enumerate() {
        for b in curves.iter().skip(i + 1) {
            assert_ne!(a, b);
        }
    }
    assert_eq!(EasingFunction::default(), EasingFunction::SineEaseInOut);
}

#[test]
fn error_messages_name_each_failure() {
    assert_eq!(
        EngineError::InvalidQuantity.message(),
        "particle quantity must be in (0, 3000000]",
    );
    assert_eq!(
        EngineError::DeviceAllocationFailure.message(),
        "device buffer or program allocation failed",
    );
    assert_eq!(
        EngineError::SynchronizationFailure.message(),
        "buffer ownership barrier failed",
    );
}

#[test]
fn controller_starts_idle_with_the_default_shape() {
    let animation = Animation::new(700);
    assert!(!animation.currently_in_animation());
    assert_eq!(animation.anim_type, AnimationType::RandCube);
    assert_eq!(animation.duration_ms, 700);
}

#[test]
fn init_now_dispatches_the_shape_kernel_and_enters_animating() {
    let (mut particles, _) = Particles::new(64, EasingFunction::SineEaseInOut);
    let mut animation = Animation::new(250);
    animation.set_animation(AnimationType::RandSphere);
    let plan = animation.init_now(&mut particles, 42);
    assert!(animation.currently_in_animation());
    assert_eq!(animation.start_ms, 42);
    assert_eq!(particles.animation_duration_ms, 250);
    assert!(plan.contains(&DeviceCommand::Dispatch {
        kernel: KernelCall::InitRandSphereAnimation,
    }));
}

#[test]
fn update_in_animation_interpolates_with_true_elapsed_time() {
    let (mut particles, _) = Particles::new(64, EasingFunction::SineEaseInOut);
    let mut animation = Animation::new(100);
    animation.init_now(&mut particles, 10);
    let plan = animation.update(&mut particles, 40, Point::new(0, 0, 0));
    assert!(plan.contains(&DeviceCommand::Dispatch {
        kernel: KernelCall::UpdateAnimation { elapsed_ms: 30, duration_ms: 100 },
    }));
    assert!(animation.currently_in_animation());
}

#[test]
fn particles_keep_their_compiled_easing() {
    let (mut particles, plan) = Particles::new(96, EasingFunction::BackEaseOut);
    assert_eq!(particles.quantity, 96);
    assert_eq!(particles.program().easing, EasingFunction::BackEaseOut);
    assert_eq!(
        plan,
        vec![DeviceCommand::Allocate { len: 96, easing: EasingFunction::BackEaseOut }],
    );

    // Rebuilding for the easing already compiled in costs nothing.
    let plan = particles.rebuild_for_easing(EasingFunction::BackEaseOut);
    assert!(plan.is_empty());

    // Rebuilding for another easing retires the pair: one allocation.
    let plan = particles.rebuild_for_easing(EasingFunction::SineEaseInOut);
    assert_eq!(
        plan,
        vec![DeviceCommand::Allocate { len: 96, easing: EasingFunction::SineEaseInOut }],
    );
    assert_eq!(particles.program().easing, EasingFunction::SineEaseInOut);
}
