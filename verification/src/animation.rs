//! The animation lifecycle state machine.
//!
//! The controller is either `Animating` — a scripted entrance animation is
//! interpolating positions between the staging buffers — or `Idle` — the
//! steady-state gravitational simulation runs every frame. The two phases
//! use disjoint kernels with different buffer roles, and the controller
//! guarantees that exactly one of them is dispatched per tick, so that an
//! interpolation step never corrupts velocity state and a physics step
//! never runs mid-animation.
//!
//! All timing is explicit: every operation takes `now_ms`, a monotonic
//! timestamp in milliseconds, instead of reading a clock. The controller is
//! therefore a pure function of `(state, now)` and its behaviour is pinned
//! by the spec functions [`tick_transition`], [`tick_kernel`] and
//! [`tick_plan`].

use vstd::prelude::*;
use crate::bridge::{
    allocate_count, dispatch_plan_spec, dispatched_kernels, lemma_allocate_count_concat,
    lemma_dispatch_plan_safe, lemma_dispatched_kernels_concat, lemma_safe_plan_concat, safe_plan,
    DeviceCommand, KernelCall,
};
use crate::particles::Particles;
use crate::point::Point;

verus! {

/// The target shape of an entrance animation.
#[derive(Clone, Copy, Debug, PartialEq, Eq, Structural)]
pub enum AnimationType {
    RandCube,
    Cube,
    RandSphere,
}

impl Default for AnimationType {
    /// The shape used when none was chosen explicitly.
    fn default() -> (t: Self)
        ensures
            t == AnimationType::RandCube,
    {
        AnimationType::RandCube
    }
}

/// The initialization kernel belonging to each shape. The kernel populates
/// `from` with the current positions, `to` with the target layout, and
/// resets the velocities.
pub open spec fn init_kernel_spec(t: AnimationType) -> KernelCall {
    match t {
        AnimationType::Cube => KernelCall::InitCubeAnimation,
        AnimationType::RandCube => KernelCall::InitRandCubeAnimation,
        AnimationType::RandSphere => KernelCall::InitRandSphereAnimation,
    }
}

/// The animation controller: the current descriptor (shape, duration,
/// start time) and whether a scripted animation is in progress.
///
/// The descriptor is only ever replaced wholesale — by starting a new
/// animation — never partially updated. `currently_in_animation` is the
/// phase flag: `true` is the `Animating` state, `false` is `Idle`, in which
/// each tick runs the gravitation kernel instead.
#[derive(Debug)]
pub struct Animation {
    pub anim_type: AnimationType,
    pub duration_ms: u64,
    pub start_ms: u64,
    pub currently_in_animation: bool,
}

/// The controller after one tick at `now_ms`: an animation whose elapsed
/// time has passed its duration falls back to `Idle`; everything else is
/// unchanged.
pub open spec fn tick_transition(a: Animation, now_ms: u64) -> Animation {
    if a.currently_in_animation && now_ms - a.start_ms > a.duration_ms {
        Animation { currently_in_animation: false, ..a }
    } else {
        a
    }
}

/// The kernel one tick dispatches. While animating, the interpolation
/// kernel runs with the elapsed time clamped to the duration, so that the
/// terminal frame lands exactly on the target layout; in `Idle`, the
/// gravitation kernel integrates toward the attractor.
pub open spec fn tick_kernel(
    a: Animation,
    p: Particles,
    now_ms: u64,
    gravity_point: Point,
) -> KernelCall {
    if a.currently_in_animation {
        if now_ms - a.start_ms <= a.duration_ms {
            KernelCall::UpdateAnimation {
                elapsed_ms: (now_ms - a.start_ms) as u64,
                duration_ms: p.animation_duration_ms,
            }
        } else {
            KernelCall::UpdateAnimation {
                elapsed_ms: a.duration_ms,
                duration_ms: p.animation_duration_ms,
            }
        }
    } else {
        KernelCall::UpdateGravitation { attractor: gravity_point, elapsed_ms: now_ms }
    }
}

/// The full device plan of one tick: the tick's kernel, bracketed by the
/// bridge protocol.
pub open spec fn tick_plan(
    a: Animation,
    p: Particles,
    now_ms: u64,
    gravity_point: Point,
) -> Seq<DeviceCommand> {
    dispatch_plan_spec(tick_kernel(a, p, now_ms, gravity_point))
}

impl Animation {
    /// A controller in `Idle` with the default shape and the given entrance
    /// duration.
    pub fn new(duration_ms: u64) -> (a: Animation)
        ensures
            a == (Animation {
                anim_type: AnimationType::RandCube,
                duration_ms,
                start_ms: 0,
                currently_in_animation: false,
            }),
    {
        Animation {
            anim_type: AnimationType::default(),
            duration_ms,
            start_ms: 0,
            currently_in_animation: false,
        }
    }

    /// Chooses the shape of the next entrance animation. Takes effect when
    /// the animation is next (re)initialized.
    pub fn set_animation(&mut self, anim_type: AnimationType)
        ensures
            *final(self) == (Animation { anim_type, ..*old(self) }),
    {
        self.anim_type = anim_type;
    }

    /// Whether the controller is in the `Animating` state.
    pub fn currently_in_animation(&self) -> (r: bool)
        ensures
            r == self.currently_in_animation,
    {
        self.currently_in_animation
    }

    /// Starts (or restarts) the entrance animation for the current shape:
    /// dispatches the shape's initialization kernel, records `now_ms` as
    /// the start of the animation, and enters `Animating`.
    pub fn init_now(&mut self, particles: &mut Particles, now_ms: u64) -> (plan: Vec<
        DeviceCommand,
    >)
        ensures
            *final(self) == (Animation {
                start_ms: now_ms,
                currently_in_animation: true,
                ..*old(self)
            }),
            *final(particles) == (Particles {
                animation_duration_ms: old(self).duration_ms,
                ..*old(particles)
            }),
            plan@ == dispatch_plan_spec(init_kernel_spec(old(self).anim_type)),
            safe_plan(plan@),
            dispatched_kernels(plan@) == seq![init_kernel_spec(old(self).anim_type)],
            allocate_count(plan@) == 0,
    {
        let plan = match self.anim_type {
            AnimationType::Cube => particles.init_cube_animation(self.duration_ms),
            AnimationType::RandCube => particles.init_rand_cube_animation(self.duration_ms),
            AnimationType::RandSphere => particles.init_rand_sphere_animation(self.duration_ms),
        };
        self.start_ms = now_ms;
        self.currently_in_animation = true;
        plan
    }

    /// One per-frame tick at `now_ms`.
    ///
    /// While animating with elapsed time within the duration, dispatches
    /// the interpolation kernel with the true elapsed time and stays in
    /// `Animating`. Once the elapsed time has passed the duration,
    /// dispatches the interpolation kernel once more with the elapsed time
    /// clamped to exactly the duration — the terminal frame — and
    /// transitions to `Idle`. In `Idle`, dispatches the gravitation kernel
    /// with the attractor and `now_ms`, and never the interpolation kernel.
    pub fn update(
        &mut self,
        particles: &mut Particles,
        now_ms: u64,
        gravity_point: Point,
    ) -> (plan: Vec<DeviceCommand>)
        requires
            old(self).currently_in_animation ==> now_ms >= old(self).start_ms,
        ensures
            *final(self) == tick_transition(*old(self), now_ms),
            *final(particles) == *old(particles),
            plan@ == tick_plan(*old(self), *old(particles), now_ms, gravity_point),
            safe_plan(plan@),
            dispatched_kernels(plan@) == seq![
                tick_kernel(*old(self), *old(particles), now_ms, gravity_point),
            ],
            allocate_count(plan@) == 0,
    {
        if self.currently_in_animation {
            let elapsed: u64 = now_ms - self.start_ms;
            if elapsed <= self.duration_ms {
                particles.update_animation(elapsed)
            } else {
                self.currently_in_animation = false;
                particles.update_animation(self.duration_ms)
            }
        } else {
            particles.update_gravitation(gravity_point, now_ms)
        }
    }

    /// The device plan of a [`Animation::reset`]: restore the default
    /// layout, re-initialize the default entrance animation from it, and
    /// advance that animation by its full duration in one terminal frame.
    pub open spec fn reset_plan_spec(self) -> Seq<DeviceCommand> {
        dispatch_plan_spec(KernelCall::ResetLayout) + dispatch_plan_spec(
            KernelCall::InitRandCubeAnimation,
        ) + dispatch_plan_spec(
            (KernelCall::UpdateAnimation {
                elapsed_ms: self.duration_ms,
                duration_ms: self.duration_ms,
            }),
        )
    }

    /// Forces an immediate re-entry into `Animating` with the default
    /// shape, from either state.
    ///
    /// The particles are restored to the default layout, the default
    /// entrance animation is re-initialized, and — bypassing the normal
    /// timing check once — the animation is immediately advanced by its
    /// full duration, so the reset's motion completes within this single
    /// call: the last kernel dispatched is the terminal interpolation
    /// frame. Entering `Animating` also clears the physics phase, so no
    /// gravitation update is pending afterwards.
    pub fn reset(&mut self, particles: &mut Particles, now_ms: u64) -> (plan: Vec<DeviceCommand>)
        ensures
            *final(self) == (Animation {
                anim_type: AnimationType::RandCube,
                duration_ms: old(self).duration_ms,
                start_ms: now_ms,
                currently_in_animation: true,
            }),
            *final(particles) == (Particles {
                animation_duration_ms: old(self).duration_ms,
                ..*old(particles)
            }),
            plan@ == old(self).reset_plan_spec(),
            safe_plan(plan@),
            allocate_count(plan@) == 0,
            dispatched_kernels(plan@) == seq![
                KernelCall::ResetLayout,
                KernelCall::InitRandCubeAnimation,
                (KernelCall::UpdateAnimation {
                    elapsed_ms: old(self).duration_ms,
                    duration_ms: old(self).duration_ms,
                }),
            ],
    {
        let mut plan = particles.reset_layout();
        self.anim_type = AnimationType::RandCube;
        let mut init_part = self.init_now(particles, now_ms);
        plan.append(&mut init_part);
        let mut terminal_part = particles.update_animation(self.duration_ms);
        plan.append(&mut terminal_part);
        proof {
            let first = dispatch_plan_spec(KernelCall::ResetLayout);
            let second = dispatch_plan_spec(KernelCall::InitRandCubeAnimation);
            let third = dispatch_plan_spec(
                (KernelCall::UpdateAnimation {
                    elapsed_ms: old(self).duration_ms,
                    duration_ms: old(self).duration_ms,
                }),
            );
            lemma_safe_plan_concat(first, second);
            lemma_safe_plan_concat(first + second, third);
            lemma_allocate_count_concat(first, second);
            lemma_allocate_count_concat(first + second, third);
            lemma_dispatched_kernels_concat(first, second);
            lemma_dispatched_kernels_concat(first + second, third);
            assert(dispatched_kernels(plan@) =~= seq![
                KernelCall::ResetLayout,
                KernelCall::InitRandCubeAnimation,
                (KernelCall::UpdateAnimation {
                    elapsed_ms: old(self).duration_ms,
                    duration_ms: old(self).duration_ms,
                }),
            ]);
        }
        plan
    }
}

/// The animation lifecycle, as one law: starting from `Animating` with
/// start time `s` and duration `D`, a tick at `now` keeps the controller in
/// `Animating` and interpolates at the true elapsed time while
/// `now - s <= D`; the first tick with `now - s > D` dispatches exactly one
/// interpolation step with the elapsed time clamped to `D` and moves the
/// controller to `Idle`.
pub proof fn lemma_animation_lifecycle(
    a: Animation,
    p: Particles,
    now_ms: u64,
    gravity_point: Point,
)
    requires
        a.currently_in_animation,
        now_ms >= a.start_ms,
    ensures
        now_ms - a.start_ms <= a.duration_ms ==> tick_transition(a, now_ms).currently_in_animation
            && tick_kernel(a, p, now_ms, gravity_point) == (KernelCall::UpdateAnimation {
            elapsed_ms: (now_ms - a.start_ms) as u64,
            duration_ms: p.animation_duration_ms,
        }),
        now_ms - a.start_ms > a.duration_ms ==> !tick_transition(a, now_ms).currently_in_animation
            && tick_kernel(a, p, now_ms, gravity_point) == (KernelCall::UpdateAnimation {
            elapsed_ms: a.duration_ms,
            duration_ms: p.animation_duration_ms,
        }),
        dispatched_kernels(tick_plan(a, p, now_ms, gravity_point)) == seq![
            tick_kernel(a, p, now_ms, gravity_point),
        ],
{
    lemma_dispatch_plan_safe(tick_kernel(a, p, now_ms, gravity_point));
}

/// In `Idle`, a tick dispatches the gravitation kernel and nothing else —
/// in particular never the interpolation kernel — and the controller stays
/// in `Idle`, so this holds of every subsequent tick until an animation is
/// started again.
pub proof fn lemma_idle_dispatches_gravitation(
    a: Animation,
    p: Particles,
    now_ms: u64,
    gravity_point: Point,
)
    requires
        !a.currently_in_animation,
    ensures
        !tick_transition(a, now_ms).currently_in_animation,
        tick_kernel(a, p, now_ms, gravity_point) == (KernelCall::UpdateGravitation {
            attractor: gravity_point,
            elapsed_ms: now_ms,
        }),
        dispatched_kernels(tick_plan(a, p, now_ms, gravity_point)) == seq![
            (KernelCall::UpdateGravitation { attractor: gravity_point, elapsed_ms: now_ms }),
        ],
        forall|k: KernelCall|
            dispatched_kernels(tick_plan(a, p, now_ms, gravity_point)).contains(k)
                ==> !(k is UpdateAnimation),
{
    lemma_dispatch_plan_safe(tick_kernel(a, p, now_ms, gravity_point));
    let kernels = dispatched_kernels(tick_plan(a, p, now_ms, gravity_point));
    assert forall|k: KernelCall| kernels.contains(k) implies !(k is UpdateAnimation) by {
        assert(kernels == seq![
            (KernelCall::UpdateGravitation { attractor: gravity_point, elapsed_ms: now_ms }),
        ]);
    }
}

} // verus!
