//! The device bridge: buffer ownership and the acquire/release protocol.
//!
//! The position and velocity buffers are shared between the graphics context
//! (which reads positions for rendering) and the compute context (which
//! mutates them in kernel dispatches). Access strictly alternates: a compute
//! kernel may only touch a shared buffer between an acquire barrier and a
//! release barrier, and the graphics side may only render while no buffer is
//! acquired. This module models that protocol.
//!
//! Device work is represented as a sequence of [`DeviceCommand`] values — a
//! plan. Every plan emitted by the engine brackets each kernel dispatch with
//! exactly one acquire and one release per shared buffer the kernel uses,
//! and [`BridgeState`] is the executor-side state machine that checks a plan
//! as it is carried out: an acquire of an already-acquired buffer (or a
//! release of an unacquired one) is a synchronization failure. The lemmas
//! here prove that every bracketed plan runs cleanly from the all-graphics
//! state back to the all-graphics state, and that acquires and releases
//! balance one-to-one across arbitrary sequences of frames.

use vstd::prelude::*;
use vstd::seq_lib::*;
use crate::easing::EasingFunction;
use crate::error::EngineError;
use crate::point::Point;

verus! {

/// The two buffers shared between the graphics and compute contexts.
///
/// The animation staging buffers (`from`/`to`) live only in the compute
/// context and need no ownership handshake.
#[derive(Clone, Copy, Debug, PartialEq, Eq, Structural)]
pub enum SharedBuffer {
    Positions,
    Velocities,
}

/// Which context currently holds exclusive access to a shared buffer.
#[derive(Clone, Copy, Debug, PartialEq, Eq, Structural)]
pub enum BufferOwner {
    GraphicsOwned,
    ComputeOwned,
}

/// One compute-kernel invocation, with its host-supplied arguments.
///
/// The buffer arguments of each kernel are fixed by the kernel contract and
/// implied by the variant; only plain scalar arguments appear here. Times
/// are in milliseconds.
#[derive(Clone, Copy, Debug, PartialEq, Eq, Structural)]
pub enum KernelCall {
    /// `init_cube_animation(positions, from, to, velocities)`
    InitCubeAnimation,
    /// `init_rand_cube_animation(positions, from, to, velocities)`
    InitRandCubeAnimation,
    /// `init_rand_sphere_animation(positions, from, to, velocities)`
    InitRandSphereAnimation,
    /// `update_animation(from, to, positions, elapsedMs, durationMs)`
    UpdateAnimation { elapsed_ms: u64, duration_ms: u64 },
    /// `update_gravitation(positions, velocities, attractorPoint, elapsedMs)`
    UpdateGravitation { attractor: Point, elapsed_ms: u64 },
    /// `reset(positions, velocities)`
    ResetLayout,
}

/// The name under which each kernel is looked up in the compute program.
pub open spec fn kernel_name_spec(k: KernelCall) -> Seq<char> {
    match k {
        KernelCall::InitCubeAnimation => "init_cube_animation"@,
        KernelCall::InitRandCubeAnimation => "init_rand_cube_animation"@,
        KernelCall::InitRandSphereAnimation => "init_rand_sphere_animation"@,
        KernelCall::UpdateAnimation { .. } => "update_animation"@,
        KernelCall::UpdateGravitation { .. } => "update_gravitation"@,
        KernelCall::ResetLayout => "reset"@,
    }
}

/// Whether a kernel touches the velocity buffer (and therefore needs it
/// acquired). Only `update_animation` works on positions alone.
pub open spec fn kernel_uses_velocities(k: KernelCall) -> bool {
    !(k is UpdateAnimation)
}

impl KernelCall {
    /// The kernel's name in the compute program.
    pub fn name(&self) -> (r: &'static str)
        ensures
            r@ == kernel_name_spec(*self),
    {
        match self {
            KernelCall::InitCubeAnimation => "init_cube_animation",
            KernelCall::InitRandCubeAnimation => "init_rand_cube_animation",
            KernelCall::InitRandSphereAnimation => "init_rand_sphere_animation",
            KernelCall::UpdateAnimation { .. } => "update_animation",
            KernelCall::UpdateGravitation { .. } => "update_gravitation",
            KernelCall::ResetLayout => "reset",
        }
    }

    /// Whether this kernel needs the velocity buffer acquired.
    pub fn uses_velocities(&self) -> (r: bool)
        ensures
            r == kernel_uses_velocities(*self),
    {
        match self {
            KernelCall::UpdateAnimation { .. } => false,
            _ => true,
        }
    }
}

/// One step of device work, as the engine hands it to the driver.
#[derive(Clone, Copy, Debug, PartialEq, Eq, Structural)]
pub enum DeviceCommand {
    /// Retire the current buffer pair and build a fresh one of `len`
    /// elements, bound to a compute program compiled for `easing`.
    Allocate { len: usize, easing: EasingFunction },
    /// Transfer exclusive access of `buffer` to the compute context.
    Acquire { buffer: SharedBuffer },
    /// Run one kernel over the full buffer length.
    Dispatch { kernel: KernelCall },
    /// Transfer exclusive access of `buffer` back to the graphics context.
    Release { buffer: SharedBuffer },
}

/// The bracketed plan for a single kernel dispatch: acquire the buffers the
/// kernel uses, dispatch, then release them — in the order the buffers were
/// acquired.
pub open spec fn dispatch_plan_spec(k: KernelCall) -> Seq<DeviceCommand> {
    if kernel_uses_velocities(k) {
        seq![
            DeviceCommand::Acquire { buffer: SharedBuffer::Positions },
            DeviceCommand::Acquire { buffer: SharedBuffer::Velocities },
            DeviceCommand::Dispatch { kernel: k },
            DeviceCommand::Release { buffer: SharedBuffer::Positions },
            DeviceCommand::Release { buffer: SharedBuffer::Velocities },
        ]
    } else {
        seq![
            DeviceCommand::Acquire { buffer: SharedBuffer::Positions },
            DeviceCommand::Dispatch { kernel: k },
            DeviceCommand::Release { buffer: SharedBuffer::Positions },
        ]
    }
}

/// The plan that builds a fresh buffer pair for `easing`.
pub open spec fn allocation_plan_spec(len: usize, easing: EasingFunction) -> Seq<DeviceCommand> {
    seq![DeviceCommand::Allocate { len, easing }]
}

/// How many times `plan` acquires `b`.
pub open spec fn acquire_count(plan: Seq<DeviceCommand>, b: SharedBuffer) -> nat
    decreases plan.len(),
{
    if plan.len() == 0 {
        0
    } else {
        (if plan.first() matches DeviceCommand::Acquire { buffer } && buffer == b {
            1 as nat
        } else {
            0 as nat
        }) + acquire_count(plan.drop_first(), b)
    }
}

/// How many times `plan` releases `b`.
pub open spec fn release_count(plan: Seq<DeviceCommand>, b: SharedBuffer) -> nat
    decreases plan.len(),
{
    if plan.len() == 0 {
        0
    } else {
        (if plan.first() matches DeviceCommand::Release { buffer } && buffer == b {
            1 as nat
        } else {
            0 as nat
        }) + release_count(plan.drop_first(), b)
    }
}

/// How many buffer-pair allocations `plan` performs.
pub open spec fn allocate_count(plan: Seq<DeviceCommand>) -> nat
    decreases plan.len(),
{
    if plan.len() == 0 {
        0
    } else {
        (if plan.first() is Allocate {
            1 as nat
        } else {
            0 as nat
        }) + allocate_count(plan.drop_first())
    }
}

/// The kernels `plan` dispatches, in order.
pub open spec fn dispatched_kernels(plan: Seq<DeviceCommand>) -> Seq<KernelCall>
    decreases plan.len(),
{
    if plan.len() == 0 {
        Seq::empty()
    } else {
        (match plan.first() {
            DeviceCommand::Dispatch { kernel } => seq![kernel],
            _ => Seq::empty(),
        }) + dispatched_kernels(plan.drop_first())
    }
}

/// Acquires and releases balance one-to-one for each shared buffer.
pub open spec fn balanced(plan: Seq<DeviceCommand>) -> bool {
    &&& acquire_count(plan, SharedBuffer::Positions) == release_count(
        plan,
        SharedBuffer::Positions,
    )
    &&& acquire_count(plan, SharedBuffer::Velocities) == release_count(
        plan,
        SharedBuffer::Velocities,
    )
}

/// The ownership state of the two shared buffers, as the driver tracks it
/// while executing a plan.
///
/// This is the single owning handle over the cross-context buffers: there is
/// never a graphics-side and a compute-side reference at once, only this
/// state saying which side currently holds each buffer.
#[derive(Clone, Copy, Debug, PartialEq, Eq, Structural)]
pub struct BridgeState {
    pub positions: BufferOwner,
    pub velocities: BufferOwner,
}

/// The quiescent state between frames: the graphics context owns both
/// buffers, so the position buffer may be rendered.
pub open spec fn idle_bridge() -> BridgeState {
    BridgeState { positions: BufferOwner::GraphicsOwned, velocities: BufferOwner::GraphicsOwned }
}

impl BridgeState {
    /// The owner of one shared buffer.
    pub open spec fn owner_of(self, b: SharedBuffer) -> BufferOwner {
        match b {
            SharedBuffer::Positions => self.positions,
            SharedBuffer::Velocities => self.velocities,
        }
    }

    /// This state with one buffer's owner replaced.
    pub open spec fn with_owner(self, b: SharedBuffer, o: BufferOwner) -> BridgeState {
        match b {
            SharedBuffer::Positions => BridgeState { positions: o, ..self },
            SharedBuffer::Velocities => BridgeState { velocities: o, ..self },
        }
    }

    /// Both buffers are back with the graphics context.
    pub open spec fn all_graphics_owned(self) -> bool {
        self == idle_bridge()
    }
}

/// What one command does to the ownership state, or the synchronization
/// failure it provokes:
/// - an allocation retires the old pair and leaves the fresh buffers with
///   the graphics context;
/// - an acquire demands that the graphics context own the buffer, a release
///   that the compute context own it — anything else means the two contexts
///   have lost track of who holds the buffer, which is fatal;
/// - a dispatch demands that the compute context hold every buffer the
///   kernel uses.
pub open spec fn step_spec(s: BridgeState, cmd: DeviceCommand) -> Result<BridgeState, EngineError> {
    match cmd {
        DeviceCommand::Allocate { .. } => Ok(idle_bridge()),
        DeviceCommand::Acquire { buffer } => if s.owner_of(buffer) is GraphicsOwned {
            Ok(s.with_owner(buffer, BufferOwner::ComputeOwned))
        } else {
            Err(EngineError::SynchronizationFailure)
        },
        DeviceCommand::Release { buffer } => if s.owner_of(buffer) is ComputeOwned {
            Ok(s.with_owner(buffer, BufferOwner::GraphicsOwned))
        } else {
            Err(EngineError::SynchronizationFailure)
        },
        DeviceCommand::Dispatch { kernel } => if s.positions is ComputeOwned && (
        kernel_uses_velocities(kernel) ==> s.velocities is ComputeOwned) {
            Ok(s)
        } else {
            Err(EngineError::SynchronizationFailure)
        },
    }
}

/// Running a whole plan: commands are applied in order, stopping at the
/// first synchronization failure.
pub open spec fn run_spec(s: BridgeState, plan: Seq<DeviceCommand>) -> Result<
    BridgeState,
    EngineError,
>
    decreases plan.len(),
{
    if plan.len() == 0 {
        Ok(s)
    } else {
        match step_spec(s, plan.first()) {
            Ok(s2) => run_spec(s2, plan.drop_first()),
            Err(e) => Err(e),
        }
    }
}

/// A plan the engine may hand to the driver: its acquires and releases
/// balance, and executed from the quiescent state it runs without a
/// synchronization failure and returns both buffers to the graphics
/// context.
pub open spec fn safe_plan(plan: Seq<DeviceCommand>) -> bool {
    &&& balanced(plan)
    &&& run_spec(idle_bridge(), plan) == Ok::<BridgeState, EngineError>(idle_bridge())
}

impl BridgeState {
    /// The driver's state at start-up: the graphics context owns everything.
    pub fn new() -> (s: BridgeState)
        ensures
            s == idle_bridge(),
    {
        BridgeState {
            positions: BufferOwner::GraphicsOwned,
            velocities: BufferOwner::GraphicsOwned,
        }
    }

    /// Advances the ownership state by one command, exactly as [`step_spec`]
    /// says; on a synchronization failure the state is left unchanged and
    /// the error is reported.
    ///
    /// The driver calls this for every command it executes — including the
    /// release commands that follow a kernel dispatch whose device-side
    /// execution reported an error, so that ownership is restored on every
    /// exit path.
    pub fn apply(&mut self, cmd: &DeviceCommand) -> (r: Result<(), EngineError>)
        ensures
            match step_spec(*old(self), *cmd) {
                Ok(s2) => r is Ok && *final(self) == s2,
                Err(e) => r == Err::<(), EngineError>(e) && *final(self) == *old(self),
            },
    {
        match cmd {
            DeviceCommand::Allocate { .. } => {
                self.positions = BufferOwner::GraphicsOwned;
                self.velocities = BufferOwner::GraphicsOwned;
                Ok(())
            },
            DeviceCommand::Acquire { buffer } => {
                match buffer {
                    SharedBuffer::Positions => {
                        if self.positions == BufferOwner::GraphicsOwned {
                            self.positions = BufferOwner::ComputeOwned;
                            Ok(())
                        } else {
                            Err(EngineError::SynchronizationFailure)
                        }
                    },
                    SharedBuffer::Velocities => {
                        if self.velocities == BufferOwner::GraphicsOwned {
                            self.velocities = BufferOwner::ComputeOwned;
                            Ok(())
                        } else {
                            Err(EngineError::SynchronizationFailure)
                        }
                    },
                }
            },
            DeviceCommand::Release { buffer } => {
                match buffer {
                    SharedBuffer::Positions => {
                        if self.positions == BufferOwner::ComputeOwned {
                            self.positions = BufferOwner::GraphicsOwned;
                            Ok(())
                        } else {
                            Err(EngineError::SynchronizationFailure)
                        }
                    },
                    SharedBuffer::Velocities => {
                        if self.velocities == BufferOwner::ComputeOwned {
                            self.velocities = BufferOwner::GraphicsOwned;
                            Ok(())
                        } else {
                            Err(EngineError::SynchronizationFailure)
                        }
                    },
                }
            },
            DeviceCommand::Dispatch { kernel } => {
                if self.positions == BufferOwner::ComputeOwned && (!kernel.uses_velocities()
                    || self.velocities == BufferOwner::ComputeOwned) {
                    Ok(())
                } else {
                    Err(EngineError::SynchronizationFailure)
                }
            },
        }
    }
}

/// Builds the bracketed plan for one kernel dispatch.
///
/// The returned plan is what the engine hands to the driver for this
/// dispatch: exactly one acquire and one release per shared buffer the
/// kernel uses, with the dispatch in between. The driver must execute the
/// trailing release commands even when the dispatch itself reports a
/// device-side error, so that the 1:1 bracket holds on every exit path.
pub fn dispatch_plan(kernel: KernelCall) -> (plan: Vec<DeviceCommand>)
    ensures
        plan@ == dispatch_plan_spec(kernel),
        safe_plan(plan@),
        dispatched_kernels(plan@) == seq![kernel],
        allocate_count(plan@) == 0,
{
    let plan: Vec<DeviceCommand> = if kernel.uses_velocities() {
        vec![
            DeviceCommand::Acquire { buffer: SharedBuffer::Positions },
            DeviceCommand::Acquire { buffer: SharedBuffer::Velocities },
            DeviceCommand::Dispatch { kernel },
            DeviceCommand::Release { buffer: SharedBuffer::Positions },
            DeviceCommand::Release { buffer: SharedBuffer::Velocities },
        ]
    } else {
        vec![
            DeviceCommand::Acquire { buffer: SharedBuffer::Positions },
            DeviceCommand::Dispatch { kernel },
            DeviceCommand::Release { buffer: SharedBuffer::Positions },
        ]
    };
    proof {
        assert(plan@ =~= dispatch_plan_spec(kernel));
        lemma_dispatch_plan_safe(kernel);
    }
    plan
}

/// Every single-dispatch bracketed plan is safe: run from the quiescent
/// state it acquires, dispatches and releases without failure, ends back in
/// the quiescent state, balances acquires and releases, dispatches exactly
/// its kernel, and allocates nothing.
pub proof fn lemma_dispatch_plan_safe(k: KernelCall)
    ensures
        safe_plan(dispatch_plan_spec(k)),
        dispatched_kernels(dispatch_plan_spec(k)) =~= seq![k],
        allocate_count(dispatch_plan_spec(k)) == 0,
{
    reveal_with_fuel(run_spec, 7);
    reveal_with_fuel(acquire_count, 7);
    reveal_with_fuel(release_count, 7);
    reveal_with_fuel(allocate_count, 7);
    reveal_with_fuel(dispatched_kernels, 7);
    let plan = dispatch_plan_spec(k);
    if kernel_uses_velocities(k) {
        assert(plan.drop_first() =~= seq![plan[1], plan[2], plan[3], plan[4]]);
        assert(plan.drop_first().drop_first() =~= seq![plan[2], plan[3], plan[4]]);
        assert(plan.drop_first().drop_first().drop_first() =~= seq![plan[3], plan[4]]);
        assert(plan.drop_first().drop_first().drop_first().drop_first() =~= seq![plan[4]]);
        assert(plan.drop_first().drop_first().drop_first().drop_first().drop_first() =~= Seq::<
            DeviceCommand,
        >::empty());
    } else {
        assert(plan.drop_first() =~= seq![plan[1], plan[2]]);
        assert(plan.drop_first().drop_first() =~= seq![plan[2]]);
        assert(plan.drop_first().drop_first().drop_first() =~= Seq::<DeviceCommand>::empty());
    }
}

/// The allocation plan is safe and performs exactly one allocation.
pub proof fn lemma_allocation_plan_safe(len: usize, easing: EasingFunction)
    ensures
        safe_plan(allocation_plan_spec(len, easing)),
        allocate_count(allocation_plan_spec(len, easing)) == 1,
        dispatched_kernels(allocation_plan_spec(len, easing)) =~= Seq::<KernelCall>::empty(),
{
    reveal_with_fuel(run_spec, 3);
    reveal_with_fuel(acquire_count, 3);
    reveal_with_fuel(release_count, 3);
    reveal_with_fuel(allocate_count, 3);
    reveal_with_fuel(dispatched_kernels, 3);
    let plan = allocation_plan_spec(len, easing);
    assert(plan.drop_first() =~= Seq::<DeviceCommand>::empty());
    assert(step_spec(idle_bridge(), plan[0]) == Ok::<BridgeState, EngineError>(idle_bridge()));
}

/// Acquire counts add up over concatenation.
pub proof fn lemma_acquire_count_concat(a: Seq<DeviceCommand>, b: Seq<DeviceCommand>, buf: SharedBuffer)
    ensures
        acquire_count(a + b, buf) == acquire_count(a, buf) + acquire_count(b, buf),
    decreases a.len(),
{
    if a.len() == 0 {
        assert(a + b =~= b);
    } else {
        assert((a + b).first() == a.first());
        assert((a + b).drop_first() =~= a.drop_first() + b);
        lemma_acquire_count_concat(a.drop_first(), b, buf);
    }
}

/// Release counts add up over concatenation.
pub proof fn lemma_release_count_concat(a: Seq<DeviceCommand>, b: Seq<DeviceCommand>, buf: SharedBuffer)
    ensures
        release_count(a + b, buf) == release_count(a, buf) + release_count(b, buf),
    decreases a.len(),
{
    if a.len() == 0 {
        assert(a + b =~= b);
    } else {
        assert((a + b).first() == a.first());
        assert((a + b).drop_first() =~= a.drop_first() + b);
        lemma_release_count_concat(a.drop_first(), b, buf);
    }
}

/// Allocation counts add up over concatenation.
pub proof fn lemma_allocate_count_concat(a: Seq<DeviceCommand>, b: Seq<DeviceCommand>)
    ensures
        allocate_count(a + b) == allocate_count(a) + allocate_count(b),
    decreases a.len(),
{
    if a.len() == 0 {
        assert(a + b =~= b);
    } else {
        assert((a + b).first() == a.first());
        assert((a + b).drop_first() =~= a.drop_first() + b);
        lemma_allocate_count_concat(a.drop_first(), b);
    }
}

/// Dispatched kernels concatenate over plan concatenation.
pub proof fn lemma_dispatched_kernels_concat(a: Seq<DeviceCommand>, b: Seq<DeviceCommand>)
    ensures
        dispatched_kernels(a + b) == dispatched_kernels(a) + dispatched_kernels(b),
    decreases a.len(),
{
    if a.len() == 0 {
        assert(a + b =~= b);
        assert(dispatched_kernels(a) + dispatched_kernels(b) =~= dispatched_kernels(b));
    } else {
        assert((a + b).first() == a.first());
        assert((a + b).drop_first() =~= a.drop_first() + b);
        lemma_dispatched_kernels_concat(a.drop_first(), b);
        assert(dispatched_kernels(a + b) =~= dispatched_kernels(a) + dispatched_kernels(b));
    }
}

/// Running a concatenation runs the first part, then the second from where
/// the first ended.
pub proof fn lemma_run_concat(s: BridgeState, a: Seq<DeviceCommand>, b: Seq<DeviceCommand>)
    ensures
        run_spec(s, a + b) == (match run_spec(s, a) {
            Ok(m) => run_spec(m, b),
            Err(e) => Err::<BridgeState, EngineError>(e),
        }),
    decreases a.len(),
{
    if a.len() == 0 {
        assert(a + b =~= b);
    } else {
        assert((a + b).first() == a.first());
        assert((a + b).drop_first() =~= a.drop_first() + b);
        match step_spec(s, a.first()) {
            Ok(s2) => lemma_run_concat(s2, a.drop_first(), b),
            Err(_) => (),
        }
    }
}

/// Safe plans compose: one frame's plan after another is again a safe plan.
pub proof fn lemma_safe_plan_concat(a: Seq<DeviceCommand>, b: Seq<DeviceCommand>)
    requires
        safe_plan(a),
        safe_plan(b),
    ensures
        safe_plan(a + b),
{
    lemma_acquire_count_concat(a, b, SharedBuffer::Positions);
    lemma_acquire_count_concat(a, b, SharedBuffer::Velocities);
    lemma_release_count_concat(a, b, SharedBuffer::Positions);
    lemma_release_count_concat(a, b, SharedBuffer::Velocities);
    lemma_run_concat(idle_bridge(), a, b);
}

/// The empty plan is safe.
pub proof fn lemma_empty_plan_safe()
    ensures
        safe_plan(Seq::<DeviceCommand>::empty()),
        allocate_count(Seq::<DeviceCommand>::empty()) == 0,
        dispatched_kernels(Seq::<DeviceCommand>::empty()) =~= Seq::<KernelCall>::empty(),
{
}

/// Acquires and releases balance one-to-one across any sequence of frames:
/// if every frame hands the driver a safe plan, then the concatenation of
/// all those plans is again balanced and returns both buffers to the
/// graphics context.
pub proof fn lemma_frames_balanced(frames: Seq<Seq<DeviceCommand>>)
    requires
        forall|i: int| 0 <= i < frames.len() ==> safe_plan(#[trigger] frames[i]),
    ensures
        safe_plan(frames.flatten()),
    decreases frames.len(),
{
    if frames.len() == 0 {
        assert(frames.flatten() =~= Seq::<DeviceCommand>::empty());
        lemma_empty_plan_safe();
    } else {
        lemma_frames_balanced(frames.drop_first());
        lemma_safe_plan_concat(frames.first(), frames.drop_first().flatten());
        assert(frames.flatten() =~= frames.first() + frames.drop_first().flatten());
    }
}

} // verus!
