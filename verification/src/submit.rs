//! The submission context: one batch of device work that is submitted once,
//! waited for once, and cleaned up after only when the device has finished.

use crate::buffer::{AllocatedBuffer, BufferModel};
use crate::device::{lemma_ops_model_concat, lemma_ops_model_push, ops_model, DeviceOp, Handle, OpModel};
use crate::image::{AllocatedImage, ImageModel};
use vstd::prelude::*;

verus! {

/// How long a submission waits for its fence, in nanoseconds. Running past
/// it means the device is lost.
pub const FENCE_TIMEOUT_NS: u64 = 1_000_000_000;

/// Device objects that are destroyed by handle alone.
#[derive(Debug, Copy, Clone, PartialEq, Eq, Structural)]
pub enum ObjectKind {
    Sampler,
    Pipeline,
    PipelineLayout,
    CommandPool,
    Fence,
    Semaphore,
    DescriptorPool,
    DescriptorSetLayout,
}

/// A destruction that has been put off until the device is done with the
/// resource. It owns what it destroys, so nothing is destroyed twice.
#[derive(Debug)]
pub enum Cleanup {
    /// Destroy the buffer and release its memory.
    Buffer(AllocatedBuffer),
    /// Destroy the image view and the image, and release the memory.
    Image(AllocatedImage),
    /// Destroy an object that has no memory of its own.
    Object { kind: ObjectKind, handle: Handle },
}

/// The mathematical value of a [`Cleanup`].
pub enum CleanupModel {
    Buffer(BufferModel),
    Image(ImageModel),
    Object { kind: ObjectKind, handle: Handle },
}

impl View for Cleanup {
    type V = CleanupModel;

    open spec fn view(&self) -> CleanupModel {
        match *self {
            Cleanup::Buffer(buffer) => CleanupModel::Buffer(buffer@),
            Cleanup::Image(image) => CleanupModel::Image(image@),
            Cleanup::Object { kind, handle } => CleanupModel::Object { kind, handle },
        }
    }
}

/// The mathematical values of a list of cleanups, in order.
pub open spec fn cleanups_model(cleanups: Seq<Cleanup>) -> Seq<CleanupModel> {
    cleanups.map_values(|cleanup: Cleanup| cleanup@)
}

/// One step of a submission's script. Whoever drives the device performs the
/// steps one after the other.
#[derive(Debug)]
pub enum DeviceStep {
    ResetFence { fence: Handle },
    ResetCommandBuffer { cmd_buffer: Handle },
    /// Begin recording for a single submission.
    BeginCommandBuffer { cmd_buffer: Handle },
    /// Perform one piece of the batch's work.
    Perform(DeviceOp),
    EndCommandBuffer { cmd_buffer: Handle },
    QueueSubmit { queue: Handle, cmd_buffer: Handle, fence: Handle },
    /// Block until the fence signals; a timeout is fatal.
    WaitForFence { fence: Handle, timeout_ns: u64 },
    /// Run one deferred destruction.
    Destroy(Cleanup),
    /// Return every set of a descriptor pool to the pool.
    ResetDescriptorPool { pool: Handle },
}

/// The mathematical value of a [`DeviceStep`].
pub enum StepModel {
    ResetFence { fence: Handle },
    ResetCommandBuffer { cmd_buffer: Handle },
    BeginCommandBuffer { cmd_buffer: Handle },
    Perform(OpModel),
    EndCommandBuffer { cmd_buffer: Handle },
    QueueSubmit { queue: Handle, cmd_buffer: Handle, fence: Handle },
    WaitForFence { fence: Handle, timeout_ns: u64 },
    Destroy(CleanupModel),
    ResetDescriptorPool { pool: Handle },
}

impl View for DeviceStep {
    type V = StepModel;

    open spec fn view(&self) -> StepModel {
        match *self {
            DeviceStep::ResetFence { fence } => StepModel::ResetFence { fence },
            DeviceStep::ResetCommandBuffer { cmd_buffer } => StepModel::ResetCommandBuffer {
                cmd_buffer,
            },
            DeviceStep::BeginCommandBuffer { cmd_buffer } => StepModel::BeginCommandBuffer {
                cmd_buffer,
            },
            DeviceStep::Perform(op) => StepModel::Perform(op@),
            DeviceStep::EndCommandBuffer { cmd_buffer } => StepModel::EndCommandBuffer {
                cmd_buffer,
            },
            DeviceStep::QueueSubmit { queue, cmd_buffer, fence } => StepModel::QueueSubmit {
                queue,
                cmd_buffer,
                fence,
            },
            DeviceStep::WaitForFence { fence, timeout_ns } => StepModel::WaitForFence {
                fence,
                timeout_ns,
            },
            DeviceStep::Destroy(cleanup) => StepModel::Destroy(cleanup@),
            DeviceStep::ResetDescriptorPool { pool } => StepModel::ResetDescriptorPool { pool },
        }
    }
}

/// The mathematical values of a script, in order.
pub open spec fn steps_model(steps: Seq<DeviceStep>) -> Seq<StepModel> {
    steps.map_values(|step: DeviceStep| step@)
}

/// The later of two handles.
pub open spec fn later_handle(a: Handle, b: Handle) -> Handle {
    if a < b {
        b
    } else {
        a
    }
}

/// The mathematical value of a [`SubmitContext`].
pub struct ContextModel {
    pub fence: Handle,
    pub cmd_buffer: Handle,
    pub queue: Handle,
    /// The last handle that was handed out. Every larger handle is unused.
    pub last_handle: Handle,
    /// The work asked for so far, in order.
    pub work: Seq<OpModel>,
    /// The destructions put off so far, in order.
    pub cleanup: Seq<CleanupModel>,
}

impl ContextModel {
    /// The context a nested operation works on: the same fence, command
    /// buffer, queue and handle source, with no work and no cleanups yet.
    pub open spec fn child(self) -> ContextModel {
        ContextModel { work: Seq::empty(), cleanup: Seq::empty(), ..self }
    }

    /// The context after a nested operation has left `child` behind: the
    /// child's work and cleanups follow the context's own, and every handle
    /// that either has handed out counts as used.
    pub open spec fn absorb(self, child: ContextModel) -> ContextModel {
        ContextModel {
            last_handle: later_handle(self.last_handle, child.last_handle),
            work: self.work + child.work,
            cleanup: self.cleanup + child.cleanup,
            ..self
        }
    }

    /// The steps that open a submission.
    pub open spec fn prologue(self) -> Seq<StepModel> {
        seq![
            StepModel::ResetFence { fence: self.fence },
            StepModel::ResetCommandBuffer { cmd_buffer: self.cmd_buffer },
            StepModel::BeginCommandBuffer { cmd_buffer: self.cmd_buffer },
        ]
    }

    /// The steps that submit the batch and wait for the device.
    pub open spec fn epilogue(self) -> Seq<StepModel> {
        seq![
            StepModel::EndCommandBuffer { cmd_buffer: self.cmd_buffer },
            StepModel::QueueSubmit {
                queue: self.queue,
                cmd_buffer: self.cmd_buffer,
                fence: self.fence,
            },
            StepModel::WaitForFence { fence: self.fence, timeout_ns: FENCE_TIMEOUT_NS },
        ]
    }

    /// The whole script of submitting this context: reset and begin, the
    /// work in order, end, submit and wait, then the cleanups in order.
    pub open spec fn script(self) -> Seq<StepModel> {
        self.prologue() + self.work.map_values(|op: OpModel| StepModel::Perform(op))
            + self.epilogue() + self.cleanup.map_values(
            |cleanup: CleanupModel| StepModel::Destroy(cleanup),
        )
    }

    /// Whether `n` more handles can be handed out.
    pub open spec fn can_allocate(self, n: int) -> bool {
        self.last_handle + n <= u64::MAX
    }
}

/// What a submission leaves for the device: the script to perform, and the
/// last handle that was handed out.
///
/// A submission that is not performed leaves its resources uncreated and
/// its cleanups unrun.
#[derive(Debug)]
#[must_use]
pub struct Submission {
    pub steps: Vec<DeviceStep>,
    pub last_handle: Handle,
}

/// One batch of device work under construction.
///
/// Everything that creates, fills or replaces a resource records its work
/// here, and queues the destruction of whatever the device may still be
/// reading. Nothing reaches the device before the context is submitted, and
/// a context that is dropped instead takes its work and its cleanups with
/// it.
#[must_use]
pub struct SubmitContext {
    fence: Handle,
    cmd_buffer: Handle,
    queue: Handle,
    last_handle: Handle,
    work: Vec<DeviceOp>,
    cleanup: Vec<Cleanup>,
}

impl View for SubmitContext {
    type V = ContextModel;

    closed spec fn view(&self) -> ContextModel {
        ContextModel {
            fence: self.fence,
            cmd_buffer: self.cmd_buffer,
            queue: self.queue,
            last_handle: self.last_handle,
            work: ops_model(self.work@),
            cleanup: cleanups_model(self.cleanup@),
        }
    }
}

/// The elements of a list in the opposite order.
pub(crate) fn reversed<T>(list: Vec<T>) -> (turned: Vec<T>)
    ensures
        turned@.len() == list@.len(),
        forall|i: int| 0 <= i < list@.len() ==> turned@[i] == list@[list@.len() - 1 - i],
{
    let mut list = list;
    let ghost all = list@;
    let mut turned: Vec<T> = Vec::new();
    while list.len() > 0
        invariant
            list@.len() + turned@.len() == all.len(),
            list@ == all.subrange(0, list@.len() as int),
            forall|i: int| 0 <= i < turned@.len() ==> turned@[i] == all[all.len() - 1 - i],
        decreases list.len(),
    {
        let item = list.pop().unwrap();
        turned.push(item);
    }
    turned
}

/// Moves the work of a batch into a script, in order.
fn perform_all(work: Vec<DeviceOp>, steps: &mut Vec<DeviceStep>)
    ensures
        steps_model(final(steps)@) == steps_model(old(steps)@) + ops_model(work@).map_values(
            |op: OpModel| StepModel::Perform(op),
        ),
{
    let ghost before = steps_model(steps@);
    let ghost all = work@;
    let mut rest = reversed(work);
    let ghost turned = rest@;
    while rest.len() > 0
        invariant
            rest@.len() <= all.len(),
            turned.len() == all.len(),
            rest@ == turned.subrange(0, rest@.len() as int),
            forall|i: int| 0 <= i < all.len() ==> turned[i] == all[all.len() - 1 - i],
            steps_model(steps@) == before + ops_model(
                all.subrange(0, all.len() - rest@.len()),
            ).map_values(|op: OpModel| StepModel::Perform(op)),
        decreases rest.len(),
    {
        let ghost done = all.len() - rest@.len();
        let ghost prev_steps = steps@;
        let op = rest.pop().unwrap();
        steps.push(DeviceStep::Perform(op));
        proof {
            assert(steps_model(steps@) =~= steps_model(prev_steps).push(StepModel::Perform(op@)));
            lemma_ops_model_push(all.subrange(0, done), op);
        }
    }
}

/// Moves a list of cleanups into a script, in order.
pub(crate) fn destroy_all(cleanup: Vec<Cleanup>, steps: &mut Vec<DeviceStep>)
    ensures
        steps_model(final(steps)@) == steps_model(old(steps)@) + cleanups_model(
            cleanup@,
        ).map_values(|cleanup: CleanupModel| StepModel::Destroy(cleanup)),
{
    let ghost before = steps_model(steps@);
    let ghost all = cleanup@;
    let mut rest = reversed(cleanup);
    let ghost turned = rest@;
    while rest.len() > 0
        invariant
            rest@.len() <= all.len(),
            turned.len() == all.len(),
            rest@ == turned.subrange(0, rest@.len() as int),
            forall|i: int| 0 <= i < all.len() ==> turned[i] == all[all.len() - 1 - i],
            steps_model(steps@) == before + cleanups_model(
                all.subrange(0, all.len() - rest@.len()),
            ).map_values(|cleanup: CleanupModel| StepModel::Destroy(cleanup)),
        decreases rest.len(),
    {
        let ghost prev_steps = steps@;
        let item = rest.pop().unwrap();
        steps.push(DeviceStep::Destroy(item));
        proof {
            assert(steps_model(steps@) =~= steps_model(prev_steps).push(
                StepModel::Destroy(item@),
            ));
        }
    }
}

impl SubmitContext {
    /// A context with no work and no cleanups, on the given fence, command
    /// buffer and queue. It hands out the handles that follow `last_handle`.
    pub fn new(fence: Handle, cmd_buffer: Handle, queue: Handle, last_handle: Handle) -> (ctx:
        Self)
        ensures
            ctx@ == (ContextModel {
                fence,
                cmd_buffer,
                queue,
                last_handle,
                work: Seq::empty(),
                cleanup: Seq::empty(),
            }),
    {
        let ctx = SubmitContext {
            fence,
            cmd_buffer,
            queue,
            last_handle,
            work: Vec::new(),
            cleanup: Vec::new(),
        };
        assert(ctx@.work =~= Seq::empty());
        assert(ctx@.cleanup =~= Seq::empty());
        ctx
    }

    /// The fence the submission resets and waits for.
    pub fn fence(&self) -> (fence: Handle)
        ensures
            fence == self@.fence,
    {
        self.fence
    }

    /// The command buffer the batch is recorded into.
    pub fn cmd_buffer(&self) -> (cmd_buffer: Handle)
        ensures
            cmd_buffer == self@.cmd_buffer,
    {
        self.cmd_buffer
    }

    /// The queue the batch is submitted to.
    pub fn queue(&self) -> (queue: Handle)
        ensures
            queue == self@.queue,
    {
        self.queue
    }

    /// The last handle that was handed out.
    pub fn last_handle(&self) -> (handle: Handle)
        ensures
            handle == self@.last_handle,
    {
        self.last_handle
    }

    /// Whether `n` more handles can be handed out.
    pub fn can_allocate(&self, n: u64) -> (ok: bool)
        ensures
            ok == self@.can_allocate(n as int),
    {
        n <= u64::MAX - self.last_handle
    }

    /// The work asked for so far, in order.
    pub fn recorded(&self) -> (work: &Vec<DeviceOp>)
        ensures
            ops_model(work@) == self@.work,
    {
        &self.work
    }

    /// The destructions put off so far, in order. None of them has run.
    pub fn pending(&self) -> (cleanup: &Vec<Cleanup>)
        ensures
            cleanups_model(cleanup@) == self@.cleanup,
    {
        &self.cleanup
    }

    /// Hands out a handle no resource has had before.
    pub fn fresh_handle(&mut self) -> (handle: Handle)
        requires
            old(self)@.can_allocate(1),
        ensures
            handle == old(self)@.last_handle + 1,
            final(self)@ == (ContextModel { last_handle: handle, ..old(self)@ }),
    {
        let handle = self.last_handle + 1;
        self.last_handle = handle;
        handle
    }

    /// Appends one piece of work to the batch.
    pub fn record(&mut self, op: DeviceOp)
        ensures
            final(self)@ == (ContextModel { work: old(self)@.work.push(op@), ..old(self)@ }),
    {
        proof {
            lemma_ops_model_push(self.work@, op);
        }
        self.work.push(op);
    }

    /// Queues a destruction to run once the device has finished the batch.
    pub fn add_cleanup(&mut self, cleanup: Cleanup)
        ensures
            final(self)@ == (ContextModel {
                cleanup: old(self)@.cleanup.push(cleanup@),
                ..old(self)@
            }),
    {
        proof {
            assert(cleanups_model(self.cleanup@.push(cleanup)) =~= cleanups_model(
                self.cleanup@,
            ).push(cleanup@));
        }
        self.cleanup.push(cleanup);
    }

    /// Runs `work` as part of this batch without submitting.
    ///
    /// `work` gets a context on the same fence, command buffer and queue that
    /// starts with no work and no cleanups. Whatever it leaves there is
    /// appended to this context, so that one submission and one wait cover
    /// every nested operation.
    pub fn nest<T, F: FnOnce(&mut SubmitContext) -> T>(&mut self, work: F) -> (result: T)
        requires
            forall|child: &mut SubmitContext|
                (*child)@ == old(self)@.child() ==> #[trigger] call_requires(work, (child,)),
        ensures
            exists|child: &mut SubmitContext|
                {
                    &&& (*child)@ == old(self)@.child()
                    &&& #[trigger] call_ensures(work, (child,), result)
                    &&& final(self)@ == old(self)@.absorb((*final(child))@)
                },
    {
        let mut child = SubmitContext {
            fence: self.fence,
            cmd_buffer: self.cmd_buffer,
            queue: self.queue,
            last_handle: self.last_handle,
            work: Vec::new(),
            cleanup: Vec::new(),
        };
        assert(child@.work =~= Seq::empty());
        assert(child@.cleanup =~= Seq::empty());
        let result = work(&mut child);
        proof {
            lemma_ops_model_concat(self.work@, child.work@);
            assert(cleanups_model(self.cleanup@ + child.cleanup@) =~= cleanups_model(
                self.cleanup@,
            ) + cleanups_model(child.cleanup@));
        }
        if self.last_handle < child.last_handle {
            self.last_handle = child.last_handle;
        }
        self.work.append(&mut child.work);
        self.cleanup.append(&mut child.cleanup);
        result
    }

    /// Runs `work` on this context and turns the batch into its script.
    ///
    /// The script resets the fence and the command buffer, begins recording,
    /// performs the work in order, ends recording, submits, waits for the
    /// fence, and only then runs the cleanups, in the order they were queued.
    pub fn immediate_submit<T, F: FnOnce(&mut SubmitContext) -> T>(self, work: F) -> (result: (
        T,
        Submission,
    ))
        requires
            forall|ctx: &mut SubmitContext|
                (*ctx)@ == self@ ==> #[trigger] call_requires(work, (ctx,)),
        ensures
            exists|ctx: &mut SubmitContext, value: T|
                {
                    &&& (*ctx)@ == self@
                    &&& #[trigger] call_ensures(work, (ctx,), value)
                    &&& result.0 == value
                    &&& steps_model(result.1.steps@) == (*final(ctx))@.script()
                    &&& result.1.last_handle == later_handle(
                        self@.last_handle,
                        (*final(ctx))@.last_handle,
                    )
                },
    {
        let used = self.last_handle;
        let mut ctx = self;
        let value = work(&mut ctx);
        let mut submission = ctx.submit();
        if submission.last_handle < used {
            submission.last_handle = used;
        }
        (value, submission)
    }

    /// Turns the batch as it stands into its script: reset and begin, the
    /// work in order, end, submit and wait, then the cleanups in order.
    pub fn submit(self) -> (submission: Submission)
        ensures
            steps_model(submission.steps@) == self@.script(),
            submission.last_handle == self@.last_handle,
    {
        let mut steps: Vec<DeviceStep> = Vec::new();
        steps.push(DeviceStep::ResetFence { fence: self.fence });
        steps.push(DeviceStep::ResetCommandBuffer { cmd_buffer: self.cmd_buffer });
        steps.push(DeviceStep::BeginCommandBuffer { cmd_buffer: self.cmd_buffer });
        assert(steps_model(steps@) =~= self@.prologue());
        let SubmitContext { fence, cmd_buffer, queue, last_handle, work, cleanup } = self;
        perform_all(work, &mut steps);
        steps.push(DeviceStep::EndCommandBuffer { cmd_buffer });
        steps.push(DeviceStep::QueueSubmit { queue, cmd_buffer, fence });
        steps.push(DeviceStep::WaitForFence { fence, timeout_ns: FENCE_TIMEOUT_NS });
        destroy_all(cleanup, &mut steps);
        Submission { steps, last_handle }
    }
}

/// The context after a list of nested operations has been absorbed, one after
/// the other.
pub open spec fn absorb_all(ctx: ContextModel, children: Seq<ContextModel>) -> ContextModel
    decreases children.len(),
{
    if children.len() == 0 {
        ctx
    } else {
        absorb_all(ctx, children.drop_last()).absorb(children.last())
    }
}

/// The work of a list of nested operations, one operation after the other.
pub open spec fn joined_work(children: Seq<ContextModel>) -> Seq<OpModel>
    decreases children.len(),
{
    if children.len() == 0 {
        Seq::empty()
    } else {
        joined_work(children.drop_last()) + children.last().work
    }
}

/// The cleanups of a list of nested operations, one operation after the
/// other.
pub open spec fn joined_cleanups(children: Seq<ContextModel>) -> Seq<CleanupModel>
    decreases children.len(),
{
    if children.len() == 0 {
        Seq::empty()
    } else {
        joined_cleanups(children.drop_last()) + children.last().cleanup
    }
}

/// The shape of a submission's script.
///
/// The script has exactly one wait for the fence, directly behind the queue
/// submission. The work stands before the wait, in the order it was
/// recorded. The destructions stand behind the wait, in the order they were
/// queued, and nowhere else: nothing is destroyed before the fence has
/// signalled.
pub proof fn lemma_script_shape(ctx: ContextModel)
    ensures
        ({
            let script = ctx.script();
            let wait = (5 + ctx.work.len()) as int;
            &&& script.len() == 6 + ctx.work.len() + ctx.cleanup.len()
            &&& script[0] == StepModel::ResetFence { fence: ctx.fence }
            &&& script[1] == StepModel::ResetCommandBuffer { cmd_buffer: ctx.cmd_buffer }
            &&& script[2] == StepModel::BeginCommandBuffer { cmd_buffer: ctx.cmd_buffer }
            &&& forall|k: int|
                0 <= k < ctx.work.len() ==> script[3 + k] == StepModel::Perform(ctx.work[k])
            &&& script[wait - 2] == StepModel::EndCommandBuffer { cmd_buffer: ctx.cmd_buffer }
            &&& script[wait - 1] == StepModel::QueueSubmit {
                queue: ctx.queue,
                cmd_buffer: ctx.cmd_buffer,
                fence: ctx.fence,
            }
            &&& script[wait] == StepModel::WaitForFence {
                fence: ctx.fence,
                timeout_ns: FENCE_TIMEOUT_NS,
            }
            &&& forall|k: int|
                0 <= k < ctx.cleanup.len() ==> script[wait + 1 + k] == StepModel::Destroy(
                    ctx.cleanup[k],
                )
            &&& forall|i: int|
                0 <= i < script.len() ==> (script[i] is WaitForFence <==> i == wait)
            &&& forall|i: int| 0 <= i < script.len() ==> (script[i] is Destroy <==> i > wait)
        }),
{
    let script = ctx.script();
}

/// Nesting aggregates.
///
/// After any number of nested operations, the context holds its own work
/// followed by the work of each operation, and its own cleanups followed by
/// the cleanups of each operation, both in the order the operations ran and
/// each operation's in the order it queued them. The fence, the command
/// buffer and the queue are those of the context, and no handle that the
/// context or an operation has handed out is handed out again.
pub proof fn lemma_nest_aggregates(ctx: ContextModel, children: Seq<ContextModel>)
    ensures
        absorb_all(ctx, children).work == ctx.work + joined_work(children),
        absorb_all(ctx, children).cleanup == ctx.cleanup + joined_cleanups(children),
        absorb_all(ctx, children).fence == ctx.fence,
        absorb_all(ctx, children).cmd_buffer == ctx.cmd_buffer,
        absorb_all(ctx, children).queue == ctx.queue,
        absorb_all(ctx, children).last_handle >= ctx.last_handle,
        forall|k: int|
            0 <= k < children.len() ==> absorb_all(ctx, children).last_handle
                >= children[k].last_handle,
    decreases children.len(),
{
    if children.len() > 0 {
        lemma_nest_aggregates(ctx, children.drop_last());
        assert forall|k: int| 0 <= k < children.len() implies absorb_all(
            ctx,
            children,
        ).last_handle >= children[k].last_handle by {
            if k < children.len() - 1 {
                assert(children.drop_last()[k] == children[k]);
            }
        }
    }
}

/// A batch of nested operations is submitted once.
///
/// The script of a context that has absorbed any number of nested operations
/// has exactly one wait for the fence. Behind the wait it runs the context's
/// own cleanups and then the cleanups of every nested operation, in the
/// order the operations ran and each operation's in the order it queued
/// them; it runs nothing else, and nothing before the wait.
pub proof fn lemma_nested_batch_waits_once(ctx: ContextModel, children: Seq<ContextModel>)
    ensures
        ({
            let batch = absorb_all(ctx, children);
            let script = batch.script();
            let cleanups = ctx.cleanup + joined_cleanups(children);
            let wait = (5 + ctx.work.len() + joined_work(children).len()) as int;
            &&& script.len() == wait + 1 + cleanups.len()
            &&& forall|i: int|
                0 <= i < script.len() ==> (script[i] is WaitForFence <==> i == wait)
            &&& forall|i: int| 0 <= i < script.len() ==> (script[i] is Destroy <==> i > wait)
            &&& forall|k: int|
                0 <= k < cleanups.len() ==> script[wait + 1 + k] == StepModel::Destroy(cleanups[k])
        }),
{
    lemma_nest_aggregates(ctx, children);
    lemma_script_shape(absorb_all(ctx, children));
}

} // verus!
