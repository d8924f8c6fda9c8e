//! The particle buffer pair and its kernel-dispatch surface.
//!
//! A [`Particles`] value models one allocation of device memory: the two
//! shared buffers (positions, velocities), the two compute-side staging
//! buffers (`from`, `to`) for the entrance animation, and the compute
//! program built for one easing function. All four buffers have the same
//! fixed length, rounded up at engine construction to a whole number of
//! execution groups. The buffers' contents live on the device and are never
//! inspected host-side; each method returns the bracketed
//! [`DeviceCommand`] plan that the driver executes against them.

use vstd::prelude::*;
use crate::bridge::{
    allocation_plan_spec, dispatch_plan, dispatch_plan_spec, dispatched_kernels, safe_plan,
    allocate_count, lemma_allocate_count_concat, lemma_allocation_plan_safe, lemma_empty_plan_safe,
    DeviceCommand, KernelCall, SharedBuffer,
};
use crate::easing::EasingFunction;
use crate::point::Point;

verus! {

/// One particle's position: three spatial components padded to four for
/// device alignment. The padding component is always zero.
#[derive(Clone, Copy, Debug, PartialEq, Eq, Structural)]
pub struct Position {
    pub x: i64,
    pub y: i64,
    pub z: i64,
    pub pad: i64,
}

/// One particle's velocity, padded like [`Position`].
#[derive(Clone, Copy, Debug, PartialEq, Eq, Structural)]
pub struct Velocity {
    pub x: i64,
    pub y: i64,
    pub z: i64,
    pub pad: i64,
}

impl Position {
    /// Builds a position element with its padding zeroed.
    pub fn new(x: i64, y: i64, z: i64) -> (p: Position)
        ensures
            p == (Position { x, y, z, pad: 0 }),
    {
        Position { x, y, z, pad: 0 }
    }
}

impl Velocity {
    /// Builds a velocity element with its padding zeroed.
    pub fn new(x: i64, y: i64, z: i64) -> (v: Velocity)
        ensures
            v == (Velocity { x, y, z, pad: 0 }),
    {
        Velocity { x, y, z, pad: 0 }
    }
}

/// The compute program bound to a buffer pair. The easing curve is baked in
/// at build time, so the program is characterized by its easing function.
#[derive(Clone, Copy, Debug, PartialEq, Eq, Structural)]
pub struct CompiledProgram {
    pub easing: EasingFunction,
}

/// A read-only handle to a shared buffer, for the graphics pipeline to draw
/// from. It carries no device memory itself; the driver resolves it to the
/// real buffer object. The buffer behind it is never mutated outside a
/// bridge acquire/release scope.
#[derive(Clone, Copy, Debug, PartialEq, Eq, Structural)]
pub struct RenderHandle {
    pub buffer: SharedBuffer,
    pub len: usize,
}

/// The buffer pair: one allocation of positions, velocities and animation
/// staging, bound to one compiled compute program.
///
/// `quantity` is the common length of all four buffers, fixed for the
/// lifetime of the allocation. `animation_duration_ms` is the duration the
/// current entrance animation was initialized with; the `update_animation`
/// dispatch passes it alongside the elapsed time, as the kernel interface
/// expects.
#[derive(Debug)]
pub struct Particles {
    pub quantity: usize,
    pub easing: EasingFunction,
    pub animation_duration_ms: u64,
}

impl Particles {
    /// The allocation invariant: the length covers at least one whole
    /// execution group, a whole number of groups, and no more than the
    /// maximum quantity rounds up to.
    pub open spec fn wf(self) -> bool {
        &&& self.quantity % 32 == 0
        &&& 0 < self.quantity <= 3_000_032
    }

    /// Models allocating a buffer pair of `quantity` elements for `easing`.
    ///
    /// `quantity` must already satisfy the bounds and rounding invariant;
    /// the engine validates and rounds the caller's count before this is
    /// reached. The returned plan carries the single allocation the driver
    /// performs; if the device rejects it (memory exhausted, interop
    /// binding failed), the driver reports `DeviceAllocationFailure` and
    /// discards the pair.
    pub fn new(quantity: usize, easing: EasingFunction) -> (r: (Particles, Vec<DeviceCommand>))
        requires
            quantity % 32 == 0,
            0 < quantity <= 3_000_032,
        ensures
            r.0 == (Particles { quantity, easing, animation_duration_ms: 0 }),
            r.0.wf(),
            r.1@ == allocation_plan_spec(quantity, easing),
            safe_plan(r.1@),
            allocate_count(r.1@) == 1,
    {
        let particles = Particles { quantity, easing, animation_duration_ms: 0 };
        let plan: Vec<DeviceCommand> = vec![DeviceCommand::Allocate { len: quantity, easing }];
        proof {
            assert(plan@ =~= allocation_plan_spec(quantity, easing));
            lemma_allocation_plan_safe(quantity, easing);
        }
        (particles, plan)
    }

    /// Initializes the cube entrance animation: the kernel must populate
    /// `from` with the current positions, `to` with the cube layout, and
    /// reset the velocities.
    pub fn init_cube_animation(&mut self, duration_ms: u64) -> (plan: Vec<DeviceCommand>)
        ensures
            *final(self) == (Particles { animation_duration_ms: duration_ms, ..*old(self) }),
            plan@ == dispatch_plan_spec(KernelCall::InitCubeAnimation),
            safe_plan(plan@),
            dispatched_kernels(plan@) == seq![KernelCall::InitCubeAnimation],
            allocate_count(plan@) == 0,
    {
        self.animation_duration_ms = duration_ms;
        dispatch_plan(KernelCall::InitCubeAnimation)
    }

    /// Initializes the random-cube entrance animation; buffer roles as in
    /// [`Particles::init_cube_animation`].
    pub fn init_rand_cube_animation(&mut self, duration_ms: u64) -> (plan: Vec<DeviceCommand>)
        ensures
            *final(self) == (Particles { animation_duration_ms: duration_ms, ..*old(self) }),
            plan@ == dispatch_plan_spec(KernelCall::InitRandCubeAnimation),
            safe_plan(plan@),
            dispatched_kernels(plan@) == seq![KernelCall::InitRandCubeAnimation],
            allocate_count(plan@) == 0,
    {
        self.animation_duration_ms = duration_ms;
        dispatch_plan(KernelCall::InitRandCubeAnimation)
    }

    /// Initializes the random-sphere entrance animation; buffer roles as in
    /// [`Particles::init_cube_animation`].
    pub fn init_rand_sphere_animation(&mut self, duration_ms: u64) -> (plan: Vec<DeviceCommand>)
        ensures
            *final(self) == (Particles { animation_duration_ms: duration_ms, ..*old(self) }),
            plan@ == dispatch_plan_spec(KernelCall::InitRandSphereAnimation),
            safe_plan(plan@),
            dispatched_kernels(plan@) == seq![KernelCall::InitRandSphereAnimation],
            allocate_count(plan@) == 0,
    {
        self.animation_duration_ms = duration_ms;
        dispatch_plan(KernelCall::InitRandSphereAnimation)
    }

    /// Dispatches one interpolation step of the entrance animation. The
    /// kernel applies the compiled-in easing curve to move positions
    /// between `from` and `to` as a function of `elapsed_ms` over the
    /// stored duration; only the position buffer is touched.
    pub fn update_animation(&mut self, elapsed_ms: u64) -> (plan: Vec<DeviceCommand>)
        ensures
            *final(self) == *old(self),
            plan@ == dispatch_plan_spec(
                KernelCall::UpdateAnimation {
                    elapsed_ms,
                    duration_ms: old(self).animation_duration_ms,
                },
            ),
            safe_plan(plan@),
            dispatched_kernels(plan@) == seq![
                KernelCall::UpdateAnimation {
                    elapsed_ms,
                    duration_ms: old(self).animation_duration_ms,
                },
            ],
            allocate_count(plan@) == 0,
    {
        dispatch_plan(
            KernelCall::UpdateAnimation { elapsed_ms, duration_ms: self.animation_duration_ms },
        )
    }

    /// Dispatches one physics step: the kernel integrates each velocity
    /// toward the attractor and advances each position in place.
    pub fn update_gravitation(&mut self, gravity_point: Point, t_ms: u64) -> (plan: Vec<
        DeviceCommand,
    >)
        ensures
            *final(self) == *old(self),
            plan@ == dispatch_plan_spec(
                KernelCall::UpdateGravitation { attractor: gravity_point, elapsed_ms: t_ms },
            ),
            safe_plan(plan@),
            dispatched_kernels(plan@) == seq![
                KernelCall::UpdateGravitation { attractor: gravity_point, elapsed_ms: t_ms },
            ],
            allocate_count(plan@) == 0,
    {
        dispatch_plan(KernelCall::UpdateGravitation { attractor: gravity_point, elapsed_ms: t_ms })
    }

    /// Dispatches the `reset` kernel, restoring every particle to the
    /// initial default layout.
    pub fn reset_layout(&mut self) -> (plan: Vec<DeviceCommand>)
        ensures
            *final(self) == *old(self),
            plan@ == dispatch_plan_spec(KernelCall::ResetLayout),
            safe_plan(plan@),
            dispatched_kernels(plan@) == seq![KernelCall::ResetLayout],
            allocate_count(plan@) == 0,
    {
        dispatch_plan(KernelCall::ResetLayout)
    }

    /// The pair after a rebuild request: only the easing function changes.
    pub open spec fn rebuild_state_spec(self, easing: EasingFunction) -> Particles {
        Particles { easing, ..self }
    }

    /// The device work a rebuild request costs: one allocation when the
    /// requested easing differs from the compiled-in one, nothing when it
    /// is the same.
    pub open spec fn rebuild_plan_spec(self, easing: EasingFunction) -> Seq<DeviceCommand> {
        if self.easing == easing {
            Seq::<DeviceCommand>::empty()
        } else {
            allocation_plan_spec(self.quantity, easing)
        }
    }

    /// Retires this buffer pair and allocates a fresh one compiled for
    /// `easing`, unless the pair is already built for it.
    ///
    /// Compiling a compute program is expensive, so the allocation happens
    /// exactly once per distinct easing function requested and not at all
    /// when the same easing function is requested again.
    pub fn rebuild_for_easing(&mut self, easing: EasingFunction) -> (plan: Vec<DeviceCommand>)
        ensures
            *final(self) == old(self).rebuild_state_spec(easing),
            plan@ == old(self).rebuild_plan_spec(easing),
            allocate_count(plan@) == (if old(self).easing == easing {
                0 as nat
            } else {
                1 as nat
            }),
            safe_plan(plan@),
            dispatched_kernels(plan@) == Seq::<KernelCall>::empty(),
    {
        if self.easing == easing {
            let plan: Vec<DeviceCommand> = Vec::new();
            proof {
                lemma_empty_plan_safe();
                assert(plan@ =~= Seq::<DeviceCommand>::empty());
            }
            plan
        } else {
            self.easing = easing;
            let plan: Vec<DeviceCommand> = vec![
                DeviceCommand::Allocate { len: self.quantity, easing },
            ];
            proof {
                assert(plan@ =~= allocation_plan_spec(old(self).quantity, easing));
                lemma_allocation_plan_safe(old(self).quantity, easing);
            }
            plan
        }
    }

    /// The read-only handle the graphics pipeline draws from.
    pub fn positions(&self) -> (h: RenderHandle)
        ensures
            h == (RenderHandle { buffer: SharedBuffer::Positions, len: self.quantity }),
    {
        RenderHandle { buffer: SharedBuffer::Positions, len: self.quantity }
    }

    /// The compute program this pair is bound to.
    pub fn program(&self) -> (p: CompiledProgram)
        ensures
            p == (CompiledProgram { easing: self.easing }),
    {
        CompiledProgram { easing: self.easing }
    }
}

/// Rebuilding is cached by easing value: one rebuild request costs at most one
/// allocation, and requesting the same easing function twice in a row
/// allocates exactly once over both requests — the second request's plan is
/// empty.
pub proof fn lemma_rebuild_idempotent(p: Particles, easing: EasingFunction)
    ensures
        allocate_count(p.rebuild_plan_spec(easing)) <= 1,
        p.rebuild_state_spec(easing).rebuild_plan_spec(easing) == Seq::<DeviceCommand>::empty(),
        allocate_count(
            p.rebuild_plan_spec(easing) + p.rebuild_state_spec(easing).rebuild_plan_spec(easing),
        ) == allocate_count(p.rebuild_plan_spec(easing)),
{
    lemma_allocation_plan_safe(p.quantity, easing);
    lemma_empty_plan_safe();
    lemma_allocate_count_concat(
        p.rebuild_plan_spec(easing),
        p.rebuild_state_spec(easing).rebuild_plan_spec(easing),
    );
}

} // verus!
