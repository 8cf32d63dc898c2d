//! One-time preparation of the drawing resources: the order of the steps,
//! the diagnostic for a program that fails to link, and the layout of the
//! two interleaved vertex attributes.

use vstd::prelude::*;
use crate::session::SessionHandle;

verus! {

/// A stage of the shader program.
#[derive(Clone, Copy, Debug, PartialEq, Eq)]
pub enum ShaderStage {
    Vertex,
    Fragment,
}

/// A fixed-function switch of the graphics context.
#[derive(Clone, Copy, Debug, PartialEq, Eq)]
pub enum Capability {
    DepthTest,
    CullFace,
}

/// A matrix input of the shader program.
#[derive(Clone, Copy, Debug, PartialEq, Eq)]
pub enum Uniform {
    Model,
    View,
    Projection,
}

/// A per-vertex input of the shader program.
#[derive(Clone, Copy, Debug, PartialEq, Eq)]
pub enum Attribute {
    Position,
    Color,
}

/// A step of the one-time setup, for the driver to carry out.
#[derive(Clone, Copy, Debug, PartialEq, Eq)]
pub enum SetupCommand {
    CreateProgram,
    /// Create the stage's shader, give it its source, compile it.
    CompileShader { stage: ShaderStage },
    AttachShader { stage: ShaderStage },
    LinkProgram,
    /// Read the link and compile results and report what
    /// `link_diagnostic` makes of them.
    ReportLinkStatus,
    Enable { capability: Capability },
    UseProgram,
    ResolveUniform { uniform: Uniform },
    /// Create the vertex buffer, bind it, fill it with the static geometry.
    UploadGeometry,
    /// Resolve both attributes by name and carry out what
    /// `attribute_commands` makes of their locations.
    ConfigureAttributes,
    /// Register the first tick with the host runtime.
    ScheduleFirstTick { session: SessionHandle },
}

/// The setup, in order. The first tick is registered last, so that no frame
/// step runs before the resources exist.
pub open spec fn setup_plan(session: SessionHandle) -> Seq<SetupCommand> {
    seq![
        SetupCommand::CreateProgram,
        SetupCommand::CompileShader { stage: ShaderStage::Vertex },
        SetupCommand::AttachShader { stage: ShaderStage::Vertex },
        SetupCommand::CompileShader { stage: ShaderStage::Fragment },
        SetupCommand::AttachShader { stage: ShaderStage::Fragment },
        SetupCommand::LinkProgram,
        SetupCommand::ReportLinkStatus,
        SetupCommand::Enable { capability: Capability::DepthTest },
        SetupCommand::Enable { capability: Capability::CullFace },
        SetupCommand::UseProgram,
        SetupCommand::ResolveUniform { uniform: Uniform::Model },
        SetupCommand::ResolveUniform { uniform: Uniform::View },
        SetupCommand::ResolveUniform { uniform: Uniform::Projection },
        SetupCommand::UploadGeometry,
        SetupCommand::ConfigureAttributes,
        SetupCommand::ScheduleFirstTick { session },
    ]
}

/// Builds the setup for a loop that will run on `session`.
pub fn plan_setup(session: SessionHandle) -> (plan: Vec<SetupCommand>)
    ensures
        plan@ == setup_plan(session),
{
    let mut plan: Vec<SetupCommand> = Vec::new();
    plan.push(SetupCommand::CreateProgram);
    plan.push(SetupCommand::CompileShader { stage: ShaderStage::Vertex });
    plan.push(SetupCommand::AttachShader { stage: ShaderStage::Vertex });
    plan.push(SetupCommand::CompileShader { stage: ShaderStage::Fragment });
    plan.push(SetupCommand::AttachShader { stage: ShaderStage::Fragment });
    plan.push(SetupCommand::LinkProgram);
    plan.push(SetupCommand::ReportLinkStatus);
    plan.push(SetupCommand::Enable { capability: Capability::DepthTest });
    plan.push(SetupCommand::Enable { capability: Capability::CullFace });
    plan.push(SetupCommand::UseProgram);
    plan.push(SetupCommand::ResolveUniform { uniform: Uniform::Model });
    plan.push(SetupCommand::ResolveUniform { uniform: Uniform::View });
    plan.push(SetupCommand::ResolveUniform { uniform: Uniform::Projection });
    plan.push(SetupCommand::UploadGeometry);
    plan.push(SetupCommand::ConfigureAttributes);
    plan.push(SetupCommand::ScheduleFirstTick { session });
    assert(plan@ =~= setup_plan(session));
    plan
}

/// The setup registers a tick exactly once, as its last step and on the
/// session it was planned for: every drawing resource exists before the
/// first frame step can run.
pub proof fn lemma_first_tick_is_registered_last(session: SessionHandle)
    ensures
        setup_plan(session).len() == 16,
        setup_plan(session).last() == (SetupCommand::ScheduleFirstTick { session }),
        forall|i: int|
            0 <= i < 16 ==> (#[trigger] setup_plan(session)[i] is ScheduleFirstTick <==> i == 15),
{
}

/// What the host reports of one shader stage after compilation.
#[derive(Debug, PartialEq, Eq)]
pub struct StageReport {
    pub compiled: bool,
    pub log: String,
}

/// What the host reports of the program after linking.
#[derive(Debug, PartialEq, Eq)]
pub struct LinkReport {
    pub linked: bool,
    pub log: String,
    pub vertex: StageReport,
    pub fragment: StageReport,
}

/// The one diagnostic of a failed setup: the link log and the compile
/// result of each stage.
#[derive(Debug, PartialEq, Eq)]
pub struct SetupDiagnostic {
    pub link_log: String,
    pub vertex: StageReport,
    pub fragment: StageReport,
}

/// The diagnostic to report, if any: none for a program that linked, and
/// for one that did not, the link log with the result of every stage. A
/// failed link is reported and the setup goes on.
pub fn link_diagnostic(report: LinkReport) -> (diagnostic: Option<SetupDiagnostic>)
    ensures
        diagnostic is None <==> report.linked,
        !report.linked ==> diagnostic == Some(
            SetupDiagnostic {
                link_log: report.log,
                vertex: report.vertex,
                fragment: report.fragment,
            },
        ),
{
    if report.linked {
        None
    } else {
        Some(
            SetupDiagnostic {
                link_log: report.log,
                vertex: report.vertex,
                fragment: report.fragment,
            },
        )
    }
}

/// Bytes of one vertex component: a 32-bit float.
pub const COMPONENT_BYTES: i32 = 4;

/// Vertices of the static geometry: one triangle.
pub const VERTEX_COUNT: i32 = 3;

impl Attribute {
    /// Components of the attribute in each vertex.
    pub open spec fn component_count(self) -> int {
        3
    }

    /// Where the attribute begins within a vertex, in bytes: after the
    /// attributes that come before it.
    pub open spec fn offset_bytes(self) -> int {
        match self {
            Attribute::Position => 0,
            Attribute::Color => Attribute::Position.component_count() * COMPONENT_BYTES,
        }
    }

    pub fn components(self) -> (count: i32)
        ensures
            count == self.component_count(),
    {
        3
    }

    pub fn offset(self) -> (bytes: i32)
        ensures
            bytes == self.offset_bytes(),
    {
        match self {
            Attribute::Position => 0,
            Attribute::Color => Attribute::Position.components() * COMPONENT_BYTES,
        }
    }
}

/// Bytes from one vertex to the next: every component of both attributes.
pub open spec fn stride_bytes() -> int {
    (Attribute::Position.component_count() + Attribute::Color.component_count()) * COMPONENT_BYTES
}

pub fn vertex_stride() -> (bytes: i32)
    ensures
        bytes == stride_bytes(),
{
    (Attribute::Position.components() + Attribute::Color.components()) * COMPONENT_BYTES
}

/// The layout in numbers: a 24-byte vertex, position at byte 0, color at
/// byte 12, and 18 components in the whole geometry.
pub proof fn lemma_vertex_layout()
    ensures
        stride_bytes() == 24,
        Attribute::Position.offset_bytes() == 0,
        Attribute::Color.offset_bytes() == 12,
        Attribute::Color.offset_bytes() + Attribute::Color.component_count() * COMPONENT_BYTES
            == stride_bytes(),
        VERTEX_COUNT * stride_bytes() == 18 * COMPONENT_BYTES,
{
}

/// A call that configures one vertex attribute of the bound buffer.
#[derive(Clone, Copy, Debug, PartialEq, Eq)]
pub enum AttributeCommand {
    EnableArray { location: u32 },
    /// Float components, not normalized.
    Pointer { location: u32, components: i32, stride: i32, offset: i32 },
}

/// The enable call for an attribute that the program has at `location`;
/// nothing for one that it lacks, which the host reports as a negative
/// location.
pub open spec fn enable_call(location: i32) -> Seq<AttributeCommand> {
    if location >= 0 {
        seq![AttributeCommand::EnableArray { location: location as u32 }]
    } else {
        Seq::empty()
    }
}

/// The pointer call for an attribute that the program has at `location`.
pub open spec fn pointer_call(attribute: Attribute, location: i32) -> Seq<AttributeCommand> {
    if location >= 0 {
        seq![
            AttributeCommand::Pointer {
                location: location as u32,
                components: attribute.component_count() as i32,
                stride: stride_bytes() as i32,
                offset: attribute.offset_bytes() as i32,
            },
        ]
    } else {
        Seq::empty()
    }
}

/// Both attributes enabled, then both pointed into the interleaved buffer,
/// each at the location that the linked program gave it.
pub open spec fn attribute_plan(position: i32, color: i32) -> Seq<AttributeCommand> {
    enable_call(position) + enable_call(color) + pointer_call(Attribute::Position, position)
        + pointer_call(Attribute::Color, color)
}

fn push_enable(commands: &mut Vec<AttributeCommand>, location: i32)
    ensures
        final(commands)@ == old(commands)@ + enable_call(location),
{
    if location >= 0 {
        commands.push(AttributeCommand::EnableArray { location: location as u32 });
    }
    assert(commands@ =~= old(commands)@ + enable_call(location));
}

fn push_pointer(commands: &mut Vec<AttributeCommand>, attribute: Attribute, location: i32)
    ensures
        final(commands)@ == old(commands)@ + pointer_call(attribute, location),
{
    if location >= 0 {
        commands.push(
            AttributeCommand::Pointer {
                location: location as u32,
                components: attribute.components(),
                stride: vertex_stride(),
                offset: attribute.offset(),
            },
        );
    }
    assert(commands@ =~= old(commands)@ + pointer_call(attribute, location));
}

/// Configures the vertex attributes from the locations that the host
/// resolved by name.
pub fn attribute_commands(position: i32, color: i32) -> (commands: Vec<AttributeCommand>)
    ensures
        commands@ == attribute_plan(position, color),
{
    let mut commands: Vec<AttributeCommand> = Vec::new();
    push_enable(&mut commands, position);
    push_enable(&mut commands, color);
    push_pointer(&mut commands, Attribute::Position, position);
    push_pointer(&mut commands, Attribute::Color, color);
    assert(commands@ =~= attribute_plan(position, color));
    commands
}

} // verus!
