//! One frame: the commands that draw it, chosen by the render mode.
//!
//! | mode    | pipeline  | slot 0         | slot 1 | indices     | draw        |
//! |---------|-----------|----------------|--------|-------------|-------------|
//! | default | primary   | first texture  | camera | primary     | indexed     |
//! | first   | alternate | -              | -      | -           | 3 vertices  |
//! | second  | primary   | first texture  | camera | alternative | indexed     |
//! | third   | primary   | second texture | camera | primary     | indexed     |
//! | fourth  | tertiary  | first texture  | camera | primary     | indexed     |

use crate::challenge::ChallengeEnum;
use crate::resources::{layout_of, pipeline_descriptor, BindGroup, Buffer, Pipeline};
use crate::vertex::{challenge2_indices, primary_indices};
use vstd::prelude::*;

verus! {

/// The width of the indices of an index buffer.
#[derive(Copy, Clone, Debug, PartialEq, Eq, Structural)]
pub enum IndexFormat {
    Uint16,
    Uint32,
}

/// One step of drawing and showing a frame.
#[derive(Copy, Clone, Debug, PartialEq, Eq, Structural)]
pub enum RenderCommand {
    /// Opens the render pass: one colour attachment, cleared to the clear
    /// colour and stored; no depth or stencil attachment.
    BeginRenderPass,
    /// Makes a pipeline the active one.
    SetPipeline(Pipeline),
    /// Binds a bind group to a slot, without dynamic offsets.
    SetBindGroup { index: u32, group: BindGroup },
    /// Binds the whole of a buffer to a vertex buffer slot.
    SetVertexBuffer { slot: u32, buffer: Buffer },
    /// Binds the whole of a buffer as the index buffer.
    SetIndexBuffer { buffer: Buffer, format: IndexFormat },
    /// Draws the first `indices` indices of the index buffer, once.
    DrawIndexed { indices: u32, base_vertex: i32, instances: u32 },
    /// Draws `vertices` vertices that the vertex stage makes itself, once.
    Draw { vertices: u32, instances: u32 },
    /// Closes the render pass.
    EndRenderPass,
    /// Hands the encoded commands to the queue.
    Submit,
    /// Shows the frame.
    Present,
}

/// The pipeline of a render mode.
pub open spec fn pipeline_for(mode: Option<ChallengeEnum>) -> Pipeline {
    match mode {
        Some(ChallengeEnum::First) => Pipeline::Challenge,
        Some(ChallengeEnum::Fourth) => Pipeline::Challenge4,
        _ => Pipeline::Render,
    }
}

/// The bind groups of a render mode, slot by slot: none for the first
/// variant, and for the others a texture and the camera.
pub open spec fn bind_groups_for(mode: Option<ChallengeEnum>) -> Seq<BindGroup> {
    match mode {
        Some(ChallengeEnum::First) => Seq::empty(),
        Some(ChallengeEnum::Third) => seq![BindGroup::Challenge3, BindGroup::Camera],
        _ => seq![BindGroup::Diffuse, BindGroup::Camera],
    }
}

/// The index buffer of a render mode, where it draws from one.
pub open spec fn index_buffer_for(mode: Option<ChallengeEnum>) -> Option<Buffer> {
    match mode {
        Some(ChallengeEnum::First) => None,
        Some(ChallengeEnum::Second) => Some(Buffer::IndexChallenge2),
        _ => Some(Buffer::Index),
    }
}

/// The draw call of a render mode: three vertices without an index buffer
/// for the first variant, and for the others all indices of their index
/// buffer.
pub open spec fn draw_for(
    mode: Option<ChallengeEnum>,
    num_indices: u32,
    num_indices_challenge2: u32,
) -> RenderCommand {
    match mode {
        Some(ChallengeEnum::First) => RenderCommand::Draw { vertices: 3, instances: 1 },
        Some(ChallengeEnum::Second) => RenderCommand::DrawIndexed {
            indices: num_indices_challenge2,
            base_vertex: 0,
            instances: 1,
        },
        _ => RenderCommand::DrawIndexed { indices: num_indices, base_vertex: 0, instances: 1 },
    }
}

/// The commands that bind a run of bind groups to the slots from `first`
/// on, in slot order.
pub open spec fn bind_commands(groups: Seq<BindGroup>, first: u32) -> Seq<RenderCommand> {
    Seq::new(
        groups.len(),
        |i: int| RenderCommand::SetBindGroup { index: (first + i) as u32, group: groups[i] },
    )
}

/// The commands inside the render pass of a render mode: the pipeline, the
/// bind groups in slot order, the vertex buffer and the index buffer where
/// the mode has them, and the one draw call.
pub open spec fn pass_commands(
    mode: Option<ChallengeEnum>,
    num_indices: u32,
    num_indices_challenge2: u32,
) -> Seq<RenderCommand> {
    seq![RenderCommand::SetPipeline(pipeline_for(mode))] + bind_commands(bind_groups_for(mode), 0)
        + (match index_buffer_for(mode) {
        Some(buffer) => seq![
            RenderCommand::SetVertexBuffer { slot: 0, buffer: Buffer::Vertex },
            RenderCommand::SetIndexBuffer { buffer, format: IndexFormat::Uint16 },
        ],
        None => Seq::empty(),
    }) + seq![draw_for(mode, num_indices, num_indices_challenge2)]
}

/// The commands of one frame, once its surface texture is acquired: the
/// render pass is opened, filled and closed, the commands are submitted,
/// and the frame is presented.
pub open spec fn frame_commands(
    mode: Option<ChallengeEnum>,
    num_indices: u32,
    num_indices_challenge2: u32,
) -> Seq<RenderCommand> {
    seq![RenderCommand::BeginRenderPass] + pass_commands(
        mode,
        num_indices,
        num_indices_challenge2,
    ) + seq![RenderCommand::EndRenderPass, RenderCommand::Submit, RenderCommand::Present]
}

/// Whether a command is a draw call.
pub open spec fn is_draw(command: RenderCommand) -> bool {
    command is Draw || command is DrawIndexed
}

/// Whether a run of commands binds the given group to the given slot.
pub open spec fn binds(commands: Seq<RenderCommand>, slot: u32, group: BindGroup) -> bool {
    exists|k: int|
        0 <= k < commands.len() && #[trigger] commands[k] == (RenderCommand::SetBindGroup {
            index: slot,
            group,
        })
}

/// The indices that an index buffer holds.
pub open spec fn index_table(buffer: Buffer) -> Seq<u16> {
    match buffer {
        Buffer::Index => primary_indices(),
        Buffer::IndexChallenge2 => challenge2_indices(),
        _ => Seq::empty(),
    }
}

/// The commands of the render pass, mode by mode.
pub proof fn lemma_pass_table(
    mode: Option<ChallengeEnum>,
    num_indices: u32,
    num_indices_challenge2: u32,
)
    ensures
        pass_commands(mode, num_indices, num_indices_challenge2) == match mode {
            None => seq![
                RenderCommand::SetPipeline(Pipeline::Render),
                RenderCommand::SetBindGroup { index: 0, group: BindGroup::Diffuse },
                RenderCommand::SetBindGroup { index: 1, group: BindGroup::Camera },
                RenderCommand::SetVertexBuffer { slot: 0, buffer: Buffer::Vertex },
                RenderCommand::SetIndexBuffer { buffer: Buffer::Index, format: IndexFormat::Uint16 },
                RenderCommand::DrawIndexed { indices: num_indices, base_vertex: 0, instances: 1 },
            ],
            Some(ChallengeEnum::First) => seq![
                RenderCommand::SetPipeline(Pipeline::Challenge),
                RenderCommand::Draw { vertices: 3, instances: 1 },
            ],
            Some(ChallengeEnum::Second) => seq![
                RenderCommand::SetPipeline(Pipeline::Render),
                RenderCommand::SetBindGroup { index: 0, group: BindGroup::Diffuse },
                RenderCommand::SetBindGroup { index: 1, group: BindGroup::Camera },
                RenderCommand::SetVertexBuffer { slot: 0, buffer: Buffer::Vertex },
                RenderCommand::SetIndexBuffer {
                    buffer: Buffer::IndexChallenge2,
                    format: IndexFormat::Uint16,
                },
                RenderCommand::DrawIndexed {
                    indices: num_indices_challenge2,
                    base_vertex: 0,
                    instances: 1,
                },
            ],
            Some(ChallengeEnum::Third) => seq![
                RenderCommand::SetPipeline(Pipeline::Render),
                RenderCommand::SetBindGroup { index: 0, group: BindGroup::Challenge3 },
                RenderCommand::SetBindGroup { index: 1, group: BindGroup::Camera },
                RenderCommand::SetVertexBuffer { slot: 0, buffer: Buffer::Vertex },
                RenderCommand::SetIndexBuffer { buffer: Buffer::Index, format: IndexFormat::Uint16 },
                RenderCommand::DrawIndexed { indices: num_indices, base_vertex: 0, instances: 1 },
            ],
            Some(ChallengeEnum::Fourth) => seq![
                RenderCommand::SetPipeline(Pipeline::Challenge4),
                RenderCommand::SetBindGroup { index: 0, group: BindGroup::Diffuse },
                RenderCommand::SetBindGroup { index: 1, group: BindGroup::Camera },
                RenderCommand::SetVertexBuffer { slot: 0, buffer: Buffer::Vertex },
                RenderCommand::SetIndexBuffer { buffer: Buffer::Index, format: IndexFormat::Uint16 },
                RenderCommand::DrawIndexed { indices: num_indices, base_vertex: 0, instances: 1 },
            ],
        },
{
    let pass = pass_commands(mode, num_indices, num_indices_challenge2);
    match mode {
        Some(ChallengeEnum::First) => {
            assert(pass =~= seq![
                RenderCommand::SetPipeline(Pipeline::Challenge),
                RenderCommand::Draw { vertices: 3, instances: 1 },
            ]);
        },
        _ => {
            assert(pass =~= seq![
                RenderCommand::SetPipeline(pipeline_for(mode)),
                RenderCommand::SetBindGroup { index: 0, group: bind_groups_for(mode)[0] },
                RenderCommand::SetBindGroup { index: 1, group: BindGroup::Camera },
                RenderCommand::SetVertexBuffer { slot: 0, buffer: Buffer::Vertex },
                RenderCommand::SetIndexBuffer {
                    buffer: index_buffer_for(mode)->0,
                    format: IndexFormat::Uint16,
                },
                draw_for(mode, num_indices, num_indices_challenge2),
            ]);
        },
    }
}

/// In every mode the bind groups of the mode are made for the very layouts
/// that the pipeline of the mode declares, slot by slot: no slot that the
/// pipeline declares stays empty, and nothing is bound that the pipeline
/// does not declare.
pub proof fn lemma_bind_groups_match_pipeline(mode: Option<ChallengeEnum>)
    ensures
        bind_groups_for(mode).map_values(|g: BindGroup| layout_of(g)) == pipeline_descriptor(
            pipeline_for(mode),
        ).layout.bind_group_layouts,
{
}

/// The render pass binds the bind groups of the mode and no others: a group
/// is bound to a slot exactly if the mode has it in that slot.
pub proof fn lemma_pass_binds_groups_of_mode(
    mode: Option<ChallengeEnum>,
    num_indices: u32,
    num_indices_challenge2: u32,
    slot: u32,
    group: BindGroup,
)
    ensures
        binds(pass_commands(mode, num_indices, num_indices_challenge2), slot, group) <==> (slot
            < bind_groups_for(mode).len() && bind_groups_for(mode)[slot as int] == group),
{
    lemma_pass_table(mode, num_indices, num_indices_challenge2);
}

/// A vertex buffer is bound exactly if the pipeline of the mode reads one,
/// and an index buffer exactly if the draw call is indexed.
pub proof fn lemma_buffers_match_pipeline(
    mode: Option<ChallengeEnum>,
    num_indices: u32,
    num_indices_challenge2: u32,
)
    ensures
        pipeline_descriptor(pipeline_for(mode)).buffers.len() == (if index_buffer_for(mode)
            is Some {
            1nat
        } else {
            0nat
        }),
        index_buffer_for(mode) is Some <==> draw_for(mode, num_indices, num_indices_challenge2)
            is DrawIndexed,
{
}

/// Where the index counts are the lengths of the two triangulations, an
/// indexed draw call draws all indices of the index buffer that is bound,
/// and no more.
pub proof fn lemma_draw_covers_index_buffer(mode: Option<ChallengeEnum>)
    ensures
        match index_buffer_for(mode) {
            Some(buffer) => draw_for(
                mode,
                primary_indices().len() as u32,
                challenge2_indices().len() as u32,
            ) == (RenderCommand::DrawIndexed {
                indices: index_table(buffer).len() as u32,
                base_vertex: 0,
                instances: 1,
            }),
            None => draw_for(
                mode,
                primary_indices().len() as u32,
                challenge2_indices().len() as u32,
            ) == (RenderCommand::Draw { vertices: 3, instances: 1 }),
        },
{
}

/// The second variant draws with the primary pipeline from the alternative
/// index buffer, whose index count is not that of the primary one.
pub proof fn lemma_second_variant_uses_alternative_indices()
    ensures
        pipeline_for(Some(ChallengeEnum::Second)) == Pipeline::Render,
        index_buffer_for(Some(ChallengeEnum::Second)) == Some(Buffer::IndexChallenge2),
        index_table(Buffer::IndexChallenge2).len() != index_table(Buffer::Index).len(),
{
}

/// The first variant binds nothing: whatever the index counts, its render
/// pass is the alternate pipeline and one draw call of three vertices.
pub proof fn lemma_first_variant_binds_nothing(
    num_indices: u32,
    num_indices_challenge2: u32,
    slot: u32,
    group: BindGroup,
)
    ensures
        pass_commands(Some(ChallengeEnum::First), num_indices, num_indices_challenge2) == seq![
            RenderCommand::SetPipeline(Pipeline::Challenge),
            RenderCommand::Draw { vertices: 3, instances: 1 },
        ],
        !binds(
            pass_commands(Some(ChallengeEnum::First), num_indices, num_indices_challenge2),
            slot,
            group,
        ),
        pipeline_descriptor(Pipeline::Challenge).layout.bind_group_layouts.len() == 0,
{
    lemma_pass_table(Some(ChallengeEnum::First), num_indices, num_indices_challenge2);
}

/// The shape of every frame: it opens the render pass first, draws exactly
/// once, as the last command of the pass, then closes the pass, submits and
/// presents, each exactly once and in this order.
pub proof fn lemma_frame_shape(
    mode: Option<ChallengeEnum>,
    num_indices: u32,
    num_indices_challenge2: u32,
)
    ensures
        ({
            let frame = frame_commands(mode, num_indices, num_indices_challenge2);
            let n = frame.len() as int;
            &&& n >= 6
            &&& forall|k: int|
                0 <= k < n ==> (#[trigger] frame[k] == RenderCommand::BeginRenderPass <==> k == 0)
            &&& forall|k: int| 0 <= k < n ==> (is_draw(#[trigger] frame[k]) <==> k == n - 4)
            &&& forall|k: int|
                0 <= k < n ==> (#[trigger] frame[k] == RenderCommand::EndRenderPass <==> k == n
                    - 3)
            &&& forall|k: int|
                0 <= k < n ==> (#[trigger] frame[k] == RenderCommand::Submit <==> k == n - 2)
            &&& forall|k: int|
                0 <= k < n ==> (#[trigger] frame[k] == RenderCommand::Present <==> k == n - 1)
            &&& frame[1] == RenderCommand::SetPipeline(pipeline_for(mode))
        }),
{
    lemma_pass_table(mode, num_indices, num_indices_challenge2);
}

/// Writes the commands of the render pass of a mode: see [`pass_commands`].
pub fn encode_pass(
    mode: Option<ChallengeEnum>,
    num_indices: u32,
    num_indices_challenge2: u32,
    commands: &mut Vec<RenderCommand>,
)
    ensures
        final(commands)@ == old(commands)@ + pass_commands(
            mode,
            num_indices,
            num_indices_challenge2,
        ),
{
    match mode {
        None | Some(ChallengeEnum::Second | ChallengeEnum::Third | ChallengeEnum::Fourth) => {
            commands.push(
                RenderCommand::SetPipeline(
                    if let Some(ChallengeEnum::Fourth) = mode {
                        Pipeline::Challenge4
                    } else {
                        Pipeline::Render
                    },
                ),
            );
            commands.push(
                RenderCommand::SetBindGroup {
                    index: 0,
                    group: if let Some(ChallengeEnum::Third) = mode {
                        BindGroup::Challenge3
                    } else {
                        BindGroup::Diffuse
                    },
                },
            );
            commands.push(RenderCommand::SetBindGroup { index: 1, group: BindGroup::Camera });
            commands.push(RenderCommand::SetVertexBuffer { slot: 0, buffer: Buffer::Vertex });
            let (index_buffer, num_indices) = if let Some(ChallengeEnum::Second) = mode {
                (Buffer::IndexChallenge2, num_indices_challenge2)
            } else {
                (Buffer::Index, num_indices)
            };
            commands.push(
                RenderCommand::SetIndexBuffer { buffer: index_buffer, format: IndexFormat::Uint16 },
            );
            commands.push(
                RenderCommand::DrawIndexed { indices: num_indices, base_vertex: 0, instances: 1 },
            );
        },
        Some(ChallengeEnum::First) => {
            commands.push(RenderCommand::SetPipeline(Pipeline::Challenge));
            commands.push(RenderCommand::Draw { vertices: 3, instances: 1 });
        },
    }
}

} // verus!
