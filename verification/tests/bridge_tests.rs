use particle_engine::animation::AnimationType;
use particle_engine::bridge::{
    dispatch_plan, BridgeState, BufferOwner, DeviceCommand, KernelCall, SharedBuffer,
};
use particle_engine::easing::EasingFunction;
use particle_engine::engine::ParticleEngine;
use particle_engine::error::EngineError;
use particle_engine::point::Point;

fn acquires(plan: &[DeviceCommand], buffer: SharedBuffer) -> usize {
    plan.iter()
        .filter(|cmd| matches!(cmd, DeviceCommand::Acquire { buffer: b } if *b == buffer))
        .count()
}

fn releases(plan: &[DeviceCommand], buffer: SharedBuffer) -> usize {
    plan.iter()
        .filter(|cmd| matches!(cmd, DeviceCommand::Release { buffer: b } if *b == buffer))
        .count()
}

/// Runs a plan through the driver-side ownership state machine, asserting
/// that every command applies cleanly.
fn execute(state: &mut BridgeState, plan: &[DeviceCommand]) {
    for cmd in plan {
        state.apply(cmd).unwrap();
    }
}

#[test]
fn dispatch_plan_brackets_with_one_acquire_and_one_release() {
    let plan = dispatch_plan(KernelCall::ResetLayout);
    assert_eq!(
        plan,
        vec![
            DeviceCommand::Acquire { buffer: SharedBuffer::Positions },
            DeviceCommand::Acquire { buffer: SharedBuffer::Velocities },
            DeviceCommand::Dispatch { kernel: KernelCall::ResetLayout },
            DeviceCommand::Release { buffer: SharedBuffer::Positions },
            DeviceCommand::Release { buffer: SharedBuffer::Velocities },
        ],
    );
}

#[test]
fn update_animation_touches_positions_only() {
    let plan = dispatch_plan(KernelCall::UpdateAnimation { elapsed_ms: 5, duration_ms: 10 });
    assert_eq!(acquires(&plan, SharedBuffer::Positions), 1);
    assert_eq!(releases(&plan, SharedBuffer::Positions), 1);
    assert_eq!(acquires(&plan, SharedBuffer::Velocities), 0);
    assert_eq!(releases(&plan, SharedBuffer::Velocities), 0);
}

#[test]
fn acquire_release_balance_across_arbitrary_frames() {
    let (mut engine, create_plan) = ParticleEngine::create(5000).unwrap();
    let attractor = Point::new(10, 20, 30);
    let mut all: Vec<DeviceCommand> = create_plan;

    all.extend(engine.start_animation(
        AnimationType::RandSphere,
        100,
        EasingFunction::BackEaseInOut,
        0,
    ));
    for now in [0u64, 30, 60, 90, 101, 120, 150] {
        all.extend(engine.advance(now, attractor));
    }
    all.extend(engine.set_easing(EasingFunction::ElasticEaseOut));
    all.extend(engine.reset(200));
    for now in [201u64, 350, 500] {
        all.extend(engine.advance(now, attractor));
    }

    // Acquires and releases balance 1:1 per buffer over the whole run...
    for buffer in [SharedBuffer::Positions, SharedBuffer::Velocities] {
        assert_eq!(acquires(&all, buffer), releases(&all, buffer));
    }
    // ...and executing every frame's plan in order never trips the
    // ownership state machine and hands both buffers back to graphics.
    let mut state = BridgeState::new();
    execute(&mut state, &all);
    assert_eq!(state.positions, BufferOwner::GraphicsOwned);
    assert_eq!(state.velocities, BufferOwner::GraphicsOwned);
}

#[test]
fn acquiring_an_acquired_buffer_is_a_synchronization_failure() {
    let mut state = BridgeState::new();
    let acquire = DeviceCommand::Acquire { buffer: SharedBuffer::Positions };
    state.apply(&acquire).unwrap();
    assert_eq!(state.apply(&acquire), Err(EngineError::SynchronizationFailure));
}

#[test]
fn releasing_an_unacquired_buffer_is_a_synchronization_failure() {
    let mut state = BridgeState::new();
    let release = DeviceCommand::Release { buffer: SharedBuffer::Velocities };
    assert_eq!(state.apply(&release), Err(EngineError::SynchronizationFailure));
}

#[test]
fn dispatching_without_acquisition_is_a_synchronization_failure() {
    let mut state = BridgeState::new();
    let dispatch = DeviceCommand::Dispatch { kernel: KernelCall::ResetLayout };
    assert_eq!(state.apply(&dispatch), Err(EngineError::SynchronizationFailure));
    // Acquiring positions alone is not enough for a kernel that also uses
    // velocities.
    state.apply(&DeviceCommand::Acquire { buffer: SharedBuffer::Positions }).unwrap();
    assert_eq!(state.apply(&dispatch), Err(EngineError::SynchronizationFailure));
    state.apply(&DeviceCommand::Acquire { buffer: SharedBuffer::Velocities }).unwrap();
    assert_eq!(state.apply(&dispatch), Ok(()));
}

#[test]
fn allocation_leaves_fresh_buffers_with_graphics() {
    let mut state = BridgeState::new();
    state.apply(&DeviceCommand::Acquire { buffer: SharedBuffer::Positions }).unwrap();
    state
        .apply(&DeviceCommand::Allocate { len: 64, easing: EasingFunction::QuadEaseInOut })
        .unwrap();
    assert_eq!(state.positions, BufferOwner::GraphicsOwned);
    assert_eq!(state.velocities, BufferOwner::GraphicsOwned);
}

#[test]
fn kernel_names_match_the_device_interface() {
    assert_eq!(KernelCall::InitCubeAnimation.name(), "init_cube_animation");
    assert_eq!(KernelCall::InitRandCubeAnimation.name(), "init_rand_cube_animation");
    assert_eq!(KernelCall::InitRandSphereAnimation.name(), "init_rand_sphere_animation");
    assert_eq!(
        KernelCall::UpdateAnimation { elapsed_ms: 1, duration_ms: 2 }.name(),
        "update_animation",
    );
    assert_eq!(
        KernelCall::UpdateGravitation { attractor: Point::new(0, 0, 0), elapsed_ms: 3 }.name(),
        "update_gravitation",
    );
    assert_eq!(KernelCall::ResetLayout.name(), "reset");
}
