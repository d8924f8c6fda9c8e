//! The particle engine facade.
//!
//! Composes the buffer pair, the device bridge and the animation controller
//! into the lifecycle the surrounding application loop drives: create,
//! choose shape and easing, start an entrance animation, advance one frame,
//! reset, and expose the render-ready position buffer. Each frame the loop
//! issues, in strict order, one `advance` call and then one render from the
//! position buffer; `advance` returns the frame's device plan and the
//! driver executes it before rendering.

use vstd::prelude::*;
use vstd::arithmetic::div_mod::{
    lemma_div_is_ordered, lemma_fundamental_div_mod, lemma_mod_multiples_basic,
};
use crate::animation::{
    init_kernel_spec, tick_kernel, tick_plan, tick_transition, Animation, AnimationType,
};
use crate::bridge::{
    allocate_count, allocation_plan_spec, dispatch_plan_spec, dispatched_kernels,
    lemma_allocate_count_concat, lemma_dispatched_kernels_concat, lemma_safe_plan_concat,
    safe_plan, DeviceCommand, KernelCall, SharedBuffer,
};
use crate::easing::EasingFunction;
use crate::error::EngineError;
use crate::particles::{CompiledProgram, Particles, RenderHandle};
use crate::point::Point;

verus! {

/// The largest particle count a caller may request.
pub const MAX_QUANTITY: usize = 3_000_000;

/// The device's parallel execution granularity: requested counts are
/// rounded up to a whole number of groups of this size, so that every
/// dispatch covers full execution groups with no partial-group hazards.
pub const GROUP_SIZE: usize = 32;

/// The entrance-animation duration used when none is given.
pub const DEFAULT_DURATION_MS: u64 = 1000;

/// A requested particle count the engine accepts: positive and at most
/// [`MAX_QUANTITY`].
pub open spec fn quantity_valid(quantity: usize) -> bool {
    0 < quantity <= MAX_QUANTITY
}

/// What a valid requested count is rounded up to: one more whole execution
/// group than the count fills, so the buffers always cover at least one
/// group beyond any partial one.
pub open spec fn rounded_quantity(quantity: usize) -> int {
    (quantity as int / (GROUP_SIZE as int) + 1) * (GROUP_SIZE as int)
}

/// Rounds a valid requested count up to the buffer length actually
/// allocated.
pub fn round_up_quantity(quantity: usize) -> (r: usize)
    requires
        quantity_valid(quantity),
    ensures
        r == rounded_quantity(quantity),
        r as int % (GROUP_SIZE as int) == 0,
        quantity < r <= 3_000_032,
{
    proof {
        lemma_div_is_ordered(quantity as int, MAX_QUANTITY as int, GROUP_SIZE as int);
        assert(MAX_QUANTITY as int / (GROUP_SIZE as int) == 93750);
        lemma_fundamental_div_mod(quantity as int, GROUP_SIZE as int);
        lemma_mod_multiples_basic(quantity as int / (GROUP_SIZE as int) + 1, GROUP_SIZE as int);
    }
    let groups: usize = quantity / GROUP_SIZE;
    (groups + 1) * GROUP_SIZE
}

/// The particle engine: one exclusively-owned buffer pair and the
/// controller that drives it.
#[derive(Debug)]
pub struct ParticleEngine {
    pub particles: Particles,
    pub animation: Animation,
}

impl ParticleEngine {
    /// The engine invariant: the buffer pair satisfies its allocation
    /// invariant, and while an animation is in progress the duration the
    /// staging buffers were initialized with is the controller's duration —
    /// so the terminal frame is clamped to the same value the kernel
    /// interpolates over.
    pub open spec fn wf(self) -> bool {
        &&& self.particles.wf()
        &&& (self.animation.currently_in_animation ==> self.particles.animation_duration_ms
            == self.animation.duration_ms)
    }

    /// Validates and rounds `quantity`, then allocates the buffer pair with
    /// the default easing function and the default entrance duration,
    /// leaving the controller in `Idle` and the particles at whatever the
    /// allocation produces.
    ///
    /// Fails with `InvalidQuantity` — and touches no device resource —
    /// exactly when `quantity` is zero or over [`MAX_QUANTITY`].
    pub fn create(quantity: usize) -> (r: Result<(ParticleEngine, Vec<DeviceCommand>), EngineError>)
        ensures
            r is Ok <==> quantity_valid(quantity),
            !quantity_valid(quantity) ==> r == Err::<
                (ParticleEngine, Vec<DeviceCommand>),
                EngineError,
            >(EngineError::InvalidQuantity),
            r matches Ok(pair) ==> {
                &&& pair.0.wf()
                &&& pair.0.particles.quantity == rounded_quantity(quantity)
                &&& pair.0.particles.easing == EasingFunction::SineEaseInOut
                &&& pair.0.animation == (Animation {
                    anim_type: AnimationType::RandCube,
                    duration_ms: DEFAULT_DURATION_MS,
                    start_ms: 0,
                    currently_in_animation: false,
                })
                &&& pair.1@ == allocation_plan_spec(
                    pair.0.particles.quantity,
                    EasingFunction::SineEaseInOut,
                )
                &&& safe_plan(pair.1@)
                &&& allocate_count(pair.1@) == 1
            },
    {
        if quantity == 0 || quantity > MAX_QUANTITY {
            return Err(EngineError::InvalidQuantity);
        }
        let rounded = round_up_quantity(quantity);
        let (particles, plan) = Particles::new(rounded, EasingFunction::default());
        let animation = Animation::new(DEFAULT_DURATION_MS);
        Ok((ParticleEngine { particles, animation }, plan))
    }

    /// Chooses the shape of the next entrance animation; takes effect when
    /// an animation is next started.
    pub fn set_shape(&mut self, shape: AnimationType)
        ensures
            final(self).animation == (Animation { anim_type: shape, ..old(self).animation }),
            final(self).particles == old(self).particles,
            old(self).wf() ==> final(self).wf(),
    {
        self.animation.set_animation(shape);
    }

    /// Switches the easing function, retiring the buffer pair and
    /// allocating a fresh one bound to a newly compiled program when — and
    /// only when — the requested easing differs from the current one.
    pub fn set_easing(&mut self, easing: EasingFunction) -> (plan: Vec<DeviceCommand>)
        ensures
            final(self).particles == old(self).particles.rebuild_state_spec(easing),
            final(self).animation == old(self).animation,
            plan@ == old(self).particles.rebuild_plan_spec(easing),
            allocate_count(plan@) == (if old(self).particles.easing == easing {
                0 as nat
            } else {
                1 as nat
            }),
            safe_plan(plan@),
            dispatched_kernels(plan@) == Seq::<KernelCall>::empty(),
            old(self).wf() ==> final(self).wf(),
    {
        self.particles.rebuild_for_easing(easing)
    }

    /// Starts an entrance animation: rebuilds the buffer pair if `easing`
    /// differs from the current one, replaces the animation descriptor
    /// wholesale with `(shape, duration_ms, now_ms)`, dispatches the
    /// shape's initialization kernel, and enters `Animating`.
    pub fn start_animation(
        &mut self,
        shape: AnimationType,
        duration_ms: u64,
        easing: EasingFunction,
        now_ms: u64,
    ) -> (plan: Vec<DeviceCommand>)
        ensures
            final(self).animation == (Animation {
                anim_type: shape,
                duration_ms,
                start_ms: now_ms,
                currently_in_animation: true,
            }),
            final(self).particles == (Particles {
                quantity: old(self).particles.quantity,
                easing,
                animation_duration_ms: duration_ms,
            }),
            plan@ == old(self).particles.rebuild_plan_spec(easing) + dispatch_plan_spec(
                init_kernel_spec(shape),
            ),
            safe_plan(plan@),
            allocate_count(plan@) == (if old(self).particles.easing == easing {
                0 as nat
            } else {
                1 as nat
            }),
            dispatched_kernels(plan@) == seq![init_kernel_spec(shape)],
            old(self).wf() ==> final(self).wf(),
    {
        let mut plan = self.particles.rebuild_for_easing(easing);
        self.animation.set_animation(shape);
        self.animation.duration_ms = duration_ms;
        let mut init_part = self.animation.init_now(&mut self.particles, now_ms);
        plan.append(&mut init_part);
        proof {
            let rebuild = old(self).particles.rebuild_plan_spec(easing);
            let init = dispatch_plan_spec(init_kernel_spec(shape));
            lemma_safe_plan_concat(rebuild, init);
            lemma_allocate_count_concat(rebuild, init);
            lemma_dispatched_kernels_concat(rebuild, init);
            assert(dispatched_kernels(plan@) =~= seq![init_kernel_spec(shape)]);
        }
        plan
    }

    /// Advances the engine by one frame at `now_ms` with the given
    /// attractor, delegating the tick to the animation controller.
    ///
    /// The returned plan brackets the frame's single kernel dispatch with
    /// exactly one acquire and one release per shared buffer the kernel
    /// uses. While animating within the duration, the interpolation kernel
    /// runs at the true elapsed time; the first tick past the duration
    /// dispatches it once more clamped to exactly the duration and falls
    /// back to `Idle`; in `Idle`, only the gravitation kernel runs, until
    /// an animation is started again.
    pub fn advance(&mut self, now_ms: u64, gravity_point: Point) -> (plan: Vec<DeviceCommand>)
        requires
            old(self).animation.currently_in_animation ==> now_ms
                >= old(self).animation.start_ms,
        ensures
            final(self).particles == old(self).particles,
            final(self).animation == tick_transition(old(self).animation, now_ms),
            plan@ == tick_plan(old(self).animation, old(self).particles, now_ms, gravity_point),
            safe_plan(plan@),
            dispatched_kernels(plan@) == seq![
                tick_kernel(old(self).animation, old(self).particles, now_ms, gravity_point),
            ],
            allocate_count(plan@) == 0,
            old(self).wf() ==> final(self).wf(),
            old(self).wf() && old(self).animation.currently_in_animation && now_ms
                - old(self).animation.start_ms > old(self).animation.duration_ms ==> {
                &&& !final(self).animation.currently_in_animation
                &&& dispatched_kernels(plan@) == seq![
                    (KernelCall::UpdateAnimation {
                        elapsed_ms: old(self).animation.duration_ms,
                        duration_ms: old(self).animation.duration_ms,
                    }),
                ]
            },
            old(self).animation.currently_in_animation && now_ms - old(self).animation.start_ms
                <= old(self).animation.duration_ms
                ==> final(self).animation.currently_in_animation,
            !old(self).animation.currently_in_animation ==> {
                &&& !final(self).animation.currently_in_animation
                &&& dispatched_kernels(plan@) == seq![
                    (KernelCall::UpdateGravitation {
                        attractor: gravity_point,
                        elapsed_ms: now_ms,
                    }),
                ]
            },
    {
        self.animation.update(&mut self.particles, now_ms, gravity_point)
    }

    /// Resets the engine: restores the default layout, re-enters
    /// `Animating` with the default shape, and completes that animation's
    /// motion within this single call — the last kernel dispatched is the
    /// terminal interpolation frame, clamped to the full duration — from
    /// either state, clearing any pending gravitation update.
    pub fn reset(&mut self, now_ms: u64) -> (plan: Vec<DeviceCommand>)
        ensures
            final(self).animation == (Animation {
                anim_type: AnimationType::RandCube,
                duration_ms: old(self).animation.duration_ms,
                start_ms: now_ms,
                currently_in_animation: true,
            }),
            final(self).particles == (Particles {
                animation_duration_ms: old(self).animation.duration_ms,
                ..old(self).particles
            }),
            plan@ == old(self).animation.reset_plan_spec(),
            safe_plan(plan@),
            allocate_count(plan@) == 0,
            dispatched_kernels(plan@) == seq![
                KernelCall::ResetLayout,
                KernelCall::InitRandCubeAnimation,
                (KernelCall::UpdateAnimation {
                    elapsed_ms: old(self).animation.duration_ms,
                    duration_ms: old(self).animation.duration_ms,
                }),
            ],
            dispatched_kernels(plan@).last() == (KernelCall::UpdateAnimation {
                elapsed_ms: old(self).animation.duration_ms,
                duration_ms: old(self).animation.duration_ms,
            }),
            final(self).animation.currently_in_animation,
            old(self).wf() ==> final(self).wf(),
    {
        self.animation.reset(&mut self.particles, now_ms)
    }

    /// The read-only handle the graphics pipeline renders from. The buffer
    /// behind it is mutated only inside the bridge scopes of the plans this
    /// engine returns.
    pub fn renderable_buffer(&self) -> (h: RenderHandle)
        ensures
            h == (RenderHandle { buffer: SharedBuffer::Positions, len: self.particles.quantity }),
    {
        self.particles.positions()
    }

    /// The allocated buffer length (the rounded particle count).
    pub fn quantity(&self) -> (q: usize)
        ensures
            q == self.particles.quantity,
    {
        self.particles.quantity
    }

    /// The easing function the current compute program was built for.
    pub fn easing(&self) -> (e: EasingFunction)
        ensures
            e == self.particles.easing,
    {
        self.particles.easing
    }

    /// The compute program bound to the current buffer pair.
    pub fn program(&self) -> (p: CompiledProgram)
        ensures
            p == (CompiledProgram { easing: self.particles.easing }),
    {
        self.particles.program()
    }

    /// Whether the controller is in the `Animating` state.
    pub fn currently_in_animation(&self) -> (r: bool)
        ensures
            r == self.animation.currently_in_animation,
    {
        self.animation.currently_in_animation()
    }
}

} // verus!
