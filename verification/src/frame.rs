//! The stereo frame loop: what one tick of the display does, and the state
//! of the chain of tick registrations that keeps the loop alive.
//!
//! The loop re-arms first. The registration of the next tick is the first
//! command of every frame step, ahead of the drawing work, so a tick that
//! loses the pose, or whose drawing goes wrong in the driver, still leaves
//! the loop scheduled.

use vstd::prelude::*;
use crate::session::{ReadySession, SessionHandle, SharedSession};
use crate::setup::{plan_setup, setup_plan, SetupCommand, VERTEX_COUNT};

verus! {

/// Names a tick registration, as the host runtime returned it.
#[derive(Clone, Copy, Debug, PartialEq, Eq)]
pub struct TickHandle {
    pub id: u32,
}

/// Names the framebuffer that the host supplies as the target of one tick.
#[derive(Clone, Copy, Debug, PartialEq, Eq)]
pub struct FramebufferId {
    pub id: u32,
}

/// A rectangle inside the shared framebuffer.
#[derive(Clone, Copy, Debug, PartialEq, Eq)]
pub struct Viewport {
    pub x: i32,
    pub y: i32,
    pub width: i32,
    pub height: i32,
}

/// An eye, in drawing order: left, then right.
#[derive(Clone, Copy, Debug, PartialEq, Eq)]
pub enum Eye {
    Left,
    Right,
}

impl Eye {
    /// The position of the eye's view in the viewer pose.
    pub open spec fn position(self) -> int {
        match self {
            Eye::Left => 0,
            Eye::Right => 1,
        }
    }

    pub fn index(self) -> (index: u32)
        ensures
            index == self.position(),
    {
        match self {
            Eye::Left => 0,
            Eye::Right => 1,
        }
    }
}

/// What the loop reads of one eye's view: its rectangle in the framebuffer.
/// The projection matrix and the pose transform of the view stay with the
/// driver, which finds them by the eye.
#[derive(Clone, Copy, Debug, PartialEq, Eq)]
pub struct EyeView {
    pub viewport: Viewport,
}

/// The views of a tick, one for each eye.
#[derive(Clone, Copy, Debug, PartialEq, Eq)]
pub struct ViewerPose {
    pub left: EyeView,
    pub right: EyeView,
}

/// What the host supplies with one tick. `pose` is absent while the device
/// has lost tracking.
#[derive(Clone, Copy, Debug, PartialEq, Eq)]
pub struct FrameState {
    /// Time of the tick in whole milliseconds.
    pub timestamp: u64,
    pub framebuffer: FramebufferId,
    pub pose: Option<ViewerPose>,
}

/// A color in whole channel units: 0 is none, 1 is full.
#[derive(Clone, Copy, Debug, PartialEq, Eq)]
pub struct Rgba {
    pub red: i32,
    pub green: i32,
    pub blue: i32,
    pub alpha: i32,
}

/// A 4x4 matrix of whole numbers, column by column.
#[derive(Clone, Copy, Debug, PartialEq, Eq)]
pub struct Mat4 {
    pub entries: [i32; 16],
}

impl Mat4 {
    /// The matrix that scales by `factor` about the origin.
    pub open spec fn scaling(factor: i32) -> Mat4 {
        Mat4 {
            entries: [
                factor,
                0i32,
                0i32,
                0i32,
                0i32,
                factor,
                0i32,
                0i32,
                0i32,
                0i32,
                factor,
                0i32,
                0i32,
                0i32,
                0i32,
                1i32,
            ],
        }
    }

    pub fn scale(factor: i32) -> (matrix: Mat4)
        ensures
            matrix == Mat4::scaling(factor),
    {
        Mat4 { entries: [factor, 0, 0, 0, 0, factor, 0, 0, 0, 0, factor, 0, 0, 0, 0, 1] }
    }
}

/// A call for the driver to make, on the host runtime or on the graphics
/// context.
#[derive(Clone, Copy, Debug, PartialEq, Eq)]
pub enum RenderCommand {
    /// Register the loop's callback for the next tick of `session`.
    ScheduleNextTick { session: SessionHandle },
    BindFramebuffer { framebuffer: FramebufferId },
    /// Set the clear color and clear the color buffer.
    ClearColor { color: Rgba },
    UploadModelMatrix { matrix: Mat4 },
    SetViewport { viewport: Viewport },
    /// Upload the projection matrix of the eye's view.
    UploadProjectionMatrix { eye: Eye },
    /// Upload the inverse of the pose transform of the eye's view.
    UploadViewMatrix { eye: Eye },
    /// Draw a triangle list over `count` vertices of the static geometry.
    DrawTriangles { first: i32, count: i32 },
}

/// The factor by which the model is scaled.
pub const MODEL_SCALE: i32 = 2;

/// The model matrix: the same for every tick and for both eyes.
pub open spec fn model_matrix() -> Mat4 {
    Mat4::scaling(MODEL_SCALE)
}

/// The color that each tick clears to.
pub open spec fn opaque_black() -> Rgba {
    Rgba { red: 0, green: 0, blue: 0, alpha: 1 }
}

/// What every running tick does before it looks at the pose: re-arm, bind
/// the target of the tick, clear.
pub open spec fn prologue(session: SessionHandle, framebuffer: FramebufferId) -> Seq<
    RenderCommand,
> {
    seq![
        RenderCommand::ScheduleNextTick { session },
        RenderCommand::BindFramebuffer { framebuffer },
        RenderCommand::ClearColor { color: opaque_black() },
    ]
}

/// The drawing of one eye: its viewport, its two matrices, one draw call.
pub open spec fn eye_pass(eye: Eye, view: EyeView) -> Seq<RenderCommand> {
    seq![
        RenderCommand::SetViewport { viewport: view.viewport },
        RenderCommand::UploadProjectionMatrix { eye },
        RenderCommand::UploadViewMatrix { eye },
        RenderCommand::DrawTriangles { first: 0, count: VERTEX_COUNT },
    ]
}

/// The drawing of a tick that has a pose: the model matrix once, then the
/// left eye, then the right eye.
pub open spec fn draw_pass(pose: ViewerPose) -> Seq<RenderCommand> {
    seq![RenderCommand::UploadModelMatrix { matrix: model_matrix() }] + eye_pass(
        Eye::Left,
        pose.left,
    ) + eye_pass(Eye::Right, pose.right)
}

/// Whether the loop is alive, and if so, which registration is pending.
#[derive(Clone, Copy, Debug, PartialEq, Eq)]
pub enum LoopState {
    Stopped,
    Running { pending: TickHandle },
}

/// The commands of one frame step. A loop that is stopped, or that finds the
/// shared cell empty, does nothing at all. A running loop re-arms, binds and
/// clears, and draws both eyes if the tick has a pose.
pub open spec fn frame_commands(
    state: LoopState,
    shared: Option<ReadySession>,
    frame: FrameState,
) -> Seq<RenderCommand> {
    match (state, shared) {
        (LoopState::Running { .. }, Some(ready)) => prologue(ready.session, frame.framebuffer)
            + match frame.pose {
            Some(pose) => draw_pass(pose),
            None => Seq::empty(),
        },
        _ => Seq::empty(),
    }
}

/// The answer to a request to start rendering.
#[derive(Debug, PartialEq, Eq)]
pub enum StartOutcome {
    /// No negotiation has completed; nothing was begun.
    NotReady,
    /// The loop is alive already; a second chain of ticks is not begun.
    AlreadyRunning,
    /// Carry out `plan`, then report the first registration.
    Started { plan: Vec<SetupCommand> },
}

/// A `StartOutcome` with its plan as a sequence.
pub enum StartDecision {
    NotReady,
    AlreadyRunning,
    Started { plan: Seq<SetupCommand> },
}

impl View for StartOutcome {
    type V = StartDecision;

    open spec fn view(&self) -> StartDecision {
        match *self {
            StartOutcome::NotReady => StartDecision::NotReady,
            StartOutcome::AlreadyRunning => StartDecision::AlreadyRunning,
            StartOutcome::Started { plan } => StartDecision::Started { plan: plan@ },
        }
    }
}

/// What a request to start rendering comes to.
pub open spec fn start_decision(state: LoopState, shared: Option<ReadySession>) -> StartDecision {
    match (shared, state) {
        (None, _) => StartDecision::NotReady,
        (Some(_), LoopState::Running { .. }) => StartDecision::AlreadyRunning,
        (Some(ready), LoopState::Stopped) => StartDecision::Started {
            plan: setup_plan(ready.session),
        },
    }
}

/// The registration to withdraw when the loop is stopped.
pub open spec fn pending_tick(state: LoopState) -> Option<TickHandle> {
    match state {
        LoopState::Running { pending } => Some(pending),
        LoopState::Stopped => None,
    }
}

fn push_eye_pass(commands: &mut Vec<RenderCommand>, eye: Eye, view: EyeView)
    ensures
        final(commands)@ == old(commands)@ + eye_pass(eye, view),
{
    commands.push(RenderCommand::SetViewport { viewport: view.viewport });
    commands.push(RenderCommand::UploadProjectionMatrix { eye });
    commands.push(RenderCommand::UploadViewMatrix { eye });
    commands.push(RenderCommand::DrawTriangles { first: 0, count: VERTEX_COUNT });
    assert(commands@ =~= old(commands)@ + eye_pass(eye, view));
}

/// Runs the frame steps and keeps the loop's one pending registration.
#[derive(Debug)]
pub struct StereoFrameLoop {
    state: LoopState,
}

impl View for StereoFrameLoop {
    type V = LoopState;

    closed spec fn view(&self) -> LoopState {
        self.state
    }
}

impl StereoFrameLoop {
    /// A loop that is not running.
    pub fn new() -> (frame_loop: StereoFrameLoop)
        ensures
            frame_loop@ == LoopState::Stopped,
    {
        StereoFrameLoop { state: LoopState::Stopped }
    }

    pub fn state(&self) -> (state: LoopState)
        ensures
            state == self@,
    {
        self.state
    }

    pub fn is_running(&self) -> (running: bool)
        ensures
            running == (self@ is Running),
    {
        match self.state {
            LoopState::Running { .. } => true,
            LoopState::Stopped => false,
        }
    }

    /// Answers a request to start rendering. The loop counts as running from
    /// the moment the driver reports the first registration.
    pub fn start(&self, shared: &SharedSession) -> (outcome: StartOutcome)
        ensures
            outcome@ == start_decision(self@, shared@),
    {
        match shared.read() {
            None => StartOutcome::NotReady,
            Some(ready) => match self.state {
                LoopState::Running { .. } => StartOutcome::AlreadyRunning,
                LoopState::Stopped => StartOutcome::Started { plan: plan_setup(ready.session) },
            },
        }
    }

    /// Records the registration that the host just made. It replaces the one
    /// before it.
    pub fn tick_scheduled(&mut self, handle: TickHandle)
        ensures
            final(self)@ == (LoopState::Running { pending: handle }),
    {
        self.state = LoopState::Running { pending: handle };
    }

    /// Stops the loop and hands back the registration to withdraw.
    pub fn stop(&mut self) -> (withdrawn: Option<TickHandle>)
        ensures
            final(self)@ == LoopState::Stopped,
            withdrawn == pending_tick(old(self)@),
    {
        let withdrawn = match self.state {
            LoopState::Running { pending } => Some(pending),
            LoopState::Stopped => None,
        };
        self.state = LoopState::Stopped;
        withdrawn
    }

    /// One frame step: the commands of this tick, in the order in which the
    /// driver makes them.
    pub fn frame_step(&self, shared: &SharedSession, frame: &FrameState) -> (commands: Vec<
        RenderCommand,
    >)
        ensures
            commands@ == frame_commands(self@, shared@, *frame),
            shared@ is None ==> commands@.len() == 0,
    {
        let mut commands: Vec<RenderCommand> = Vec::new();
        let ready = match (self.state, shared.read()) {
            (LoopState::Running { .. }, Some(ready)) => ready,
            _ => {
                assert(commands@ =~= frame_commands(self@, shared@, *frame));
                return commands;
            },
        };
        commands.push(RenderCommand::ScheduleNextTick { session: ready.session });
        commands.push(RenderCommand::BindFramebuffer { framebuffer: frame.framebuffer });
        commands.push(
            RenderCommand::ClearColor { color: Rgba { red: 0, green: 0, blue: 0, alpha: 1 } },
        );
        assert(commands@ =~= prologue(ready.session, frame.framebuffer));
        match frame.pose {
            Some(pose) => {
                commands.push(RenderCommand::UploadModelMatrix { matrix: Mat4::scale(MODEL_SCALE) });
                push_eye_pass(&mut commands, Eye::Left, pose.left);
                push_eye_pass(&mut commands, Eye::Right, pose.right);
                assert(commands@ =~= prologue(ready.session, frame.framebuffer) + draw_pass(pose));
            },
            None => {
                assert(commands@ =~= prologue(ready.session, frame.framebuffer) + Seq::empty());
            },
        }
        commands
    }
}

/// The number of draw calls among `commands`.
pub open spec fn draw_calls(commands: Seq<RenderCommand>) -> nat
    decreases commands.len(),
{
    if commands.len() == 0 {
        0
    } else {
        draw_calls(commands.drop_last()) + if commands.last() is DrawTriangles {
            1nat
        } else {
            0nat
        }
    }
}

/// Draw calls add up over commands made one after the other.
pub proof fn lemma_draw_calls_add_up(first: Seq<RenderCommand>, second: Seq<RenderCommand>)
    ensures
        draw_calls(first + second) == draw_calls(first) + draw_calls(second),
    decreases second.len(),
{
    if second.len() == 0 {
        assert(first + second =~= first);
    } else {
        lemma_draw_calls_add_up(first, second.drop_last());
        assert((first + second).drop_last() =~= first + second.drop_last());
    }
}

proof fn lemma_prologue_draws_nothing(session: SessionHandle, framebuffer: FramebufferId)
    ensures
        draw_calls(prologue(session, framebuffer)) == 0,
{
    let all = prologue(session, framebuffer);
    let two = all.drop_last();
    let one = two.drop_last();
    assert(draw_calls(one.drop_last()) == 0);
    assert(draw_calls(one) == 0);
    assert(draw_calls(two) == 0);
}

proof fn lemma_eye_pass_draws_once(eye: Eye, view: EyeView)
    ensures
        draw_calls(eye_pass(eye, view)) == 1,
{
    let all = eye_pass(eye, view);
    let three = all.drop_last();
    let two = three.drop_last();
    let one = two.drop_last();
    assert(draw_calls(one.drop_last()) == 0);
    assert(draw_calls(one) == 0);
    assert(draw_calls(two) == 0);
    assert(draw_calls(three) == 0);
}

/// A frame step that finds the shared cell empty, or the loop stopped,
/// makes no call at all: no draw, no framebuffer bind, no registration.
pub proof fn lemma_unready_tick_is_inert(
    state: LoopState,
    shared: Option<ReadySession>,
    frame: FrameState,
)
    requires
        shared is None || state is Stopped,
    ensures
        frame_commands(state, shared, frame) == Seq::<RenderCommand>::empty(),
        draw_calls(frame_commands(state, shared, frame)) == 0,
        forall|i: int|
            0 <= i < frame_commands(state, shared, frame).len() ==> !(#[trigger] frame_commands(
                state,
                shared,
                frame,
            )[i] is BindFramebuffer),
{
}

/// A tick without a pose still re-arms, binds and clears, in that order,
/// and draws nothing.
pub proof fn lemma_pose_loss_skips_drawing(
    pending: TickHandle,
    ready: ReadySession,
    frame: FrameState,
)
    requires
        frame.pose is None,
    ensures
        frame_commands(LoopState::Running { pending }, Some(ready), frame) == seq![
            RenderCommand::ScheduleNextTick { session: ready.session },
            RenderCommand::BindFramebuffer { framebuffer: frame.framebuffer },
            RenderCommand::ClearColor { color: opaque_black() },
        ],
        draw_calls(frame_commands(LoopState::Running { pending }, Some(ready), frame)) == 0,
{
    let commands = frame_commands(LoopState::Running { pending }, Some(ready), frame);
    assert(commands =~= prologue(ready.session, frame.framebuffer));
    lemma_prologue_draws_nothing(ready.session, frame.framebuffer);
}

/// A tick with a pose makes twelve calls. It re-arms first. It draws
/// exactly twice, the left eye before the right, and each draw comes after
/// a viewport call of its own that sets the rectangle of that eye's view,
/// and after the uploads of that eye's two matrices.
pub proof fn lemma_completed_tick_draws_each_eye_once(
    pending: TickHandle,
    ready: ReadySession,
    frame: FrameState,
)
    requires
        frame.pose is Some,
    ensures
        ({
            let commands = frame_commands(LoopState::Running { pending }, Some(ready), frame);
            let pose = frame.pose->0;
            &&& commands.len() == 12
            &&& draw_calls(commands) == 2
            &&& commands[0] == (RenderCommand::ScheduleNextTick { session: ready.session })
            &&& forall|i: int|
                0 <= i < 12 ==> (#[trigger] commands[i] is DrawTriangles <==> i == 7 || i == 11)
            &&& forall|i: int|
                0 <= i < 12 ==> (#[trigger] commands[i] is SetViewport <==> i == 4 || i == 8)
            &&& commands[4] == (RenderCommand::SetViewport { viewport: pose.left.viewport })
            &&& commands[5] == (RenderCommand::UploadProjectionMatrix { eye: Eye::Left })
            &&& commands[6] == (RenderCommand::UploadViewMatrix { eye: Eye::Left })
            &&& commands[7] == (RenderCommand::DrawTriangles { first: 0, count: VERTEX_COUNT })
            &&& commands[8] == (RenderCommand::SetViewport { viewport: pose.right.viewport })
            &&& commands[9] == (RenderCommand::UploadProjectionMatrix { eye: Eye::Right })
            &&& commands[10] == (RenderCommand::UploadViewMatrix { eye: Eye::Right })
            &&& commands[11] == (RenderCommand::DrawTriangles { first: 0, count: VERTEX_COUNT })
        }),
{
    let commands = frame_commands(LoopState::Running { pending }, Some(ready), frame);
    let pose = frame.pose->0;
    let head = prologue(ready.session, frame.framebuffer);
    let model = seq![RenderCommand::UploadModelMatrix { matrix: model_matrix() }];
    let left = eye_pass(Eye::Left, pose.left);
    let right = eye_pass(Eye::Right, pose.right);
    assert(commands == head + ((model + left) + right));
    assert(draw_calls(model.drop_last()) == 0);
    assert(draw_calls(model) == 0);
    lemma_prologue_draws_nothing(ready.session, frame.framebuffer);
    lemma_eye_pass_draws_once(Eye::Left, pose.left);
    lemma_eye_pass_draws_once(Eye::Right, pose.right);
    lemma_draw_calls_add_up(model, left);
    lemma_draw_calls_add_up(model + left, right);
    lemma_draw_calls_add_up(head, (model + left) + right);
}

/// Every tick of a running loop that finds the session re-arms exactly
/// once, as its first call and on the shared session, then binds the
/// framebuffer of the tick and clears, whether or not it goes on to draw.
pub proof fn lemma_running_tick_rearms_once(
    pending: TickHandle,
    ready: ReadySession,
    frame: FrameState,
)
    ensures
        ({
            let commands = frame_commands(LoopState::Running { pending }, Some(ready), frame);
            &&& commands.len() >= 3
            &&& commands[0] == (RenderCommand::ScheduleNextTick { session: ready.session })
            &&& commands[1] == (RenderCommand::BindFramebuffer { framebuffer: frame.framebuffer })
            &&& commands[2] == (RenderCommand::ClearColor { color: opaque_black() })
            &&& forall|i: int|
                0 <= i < commands.len() ==> (#[trigger] commands[i] is ScheduleNextTick <==> i == 0)
            &&& forall|i: int|
                0 <= i < commands.len() ==> (#[trigger] commands[i] is BindFramebuffer <==> i == 1)
        }),
{
}

/// The model matrix is the same in every frame step, whatever the state,
/// the tick and the eye: wherever a step uploads one, it is the scale by 2
/// about the origin. A step uploads it at most once, ahead of both eyes.
pub proof fn lemma_model_matrix_is_fixed(
    state: LoopState,
    shared: Option<ReadySession>,
    frame: FrameState,
)
    ensures
        model_matrix().entries@ == seq![
            2i32, 0i32, 0i32, 0i32,
            0i32, 2i32, 0i32, 0i32,
            0i32, 0i32, 2i32, 0i32,
            0i32, 0i32, 0i32, 1i32,
        ],
        forall|i: int|
            0 <= i < frame_commands(state, shared, frame).len() && (#[trigger] frame_commands(
                state,
                shared,
                frame,
            )[i]) is UploadModelMatrix ==> i == 3 && frame_commands(state, shared, frame)[i] == (
            RenderCommand::UploadModelMatrix { matrix: model_matrix() }),
{
    assert(model_matrix().entries@ =~= seq![
        2i32, 0i32, 0i32, 0i32,
        0i32, 2i32, 0i32, 0i32,
        0i32, 0i32, 2i32, 0i32,
        0i32, 0i32, 0i32, 1i32,
    ]);
}

} // verus!
