use vstd::prelude::*;
use crate::chunk::{
    blend_commands, chunk_blend_commands, chunk_blends, chunks_of, lemma_blends_keep_their_order,
    lemma_chunks_around_blend, Chunk, ChunkView,
};
use crate::command::{BitmapHandle, BlendMode, Color, Command, CommandList, Matrix, ShapeHandle, Transform};
use crate::gpu::{ColorAdjustments, GpuOp, PipelineFamily};
use crate::mask::{initial_masks, mask_command_reference, mask_step, reference_for, run_masks, MaskState, MaskTracker};
use crate::pipelines::{fnv_map_get, fnv_map_insert, fnv_map_new, FnvMap};
use crate::target::CommandTarget;

verus! {

/// The fill of one draw of a tessellated shape.
#[derive(Clone, Copy, Debug, PartialEq, Eq, Structural)]
pub enum DrawType {
    Color,
    Gradient,
    Bitmap,
}

/// One draw of a shape's mesh: its full index count, and the count without
/// strokes, used when the shape draws a mask.
#[derive(Clone, Copy, Debug, PartialEq, Eq, Structural)]
pub struct MeshDraw {
    pub draw_type: DrawType,
    pub num_indices: u32,
    pub num_mask_indices: u32,
}

#[derive(Debug)]
pub struct Mesh {
    pub draws: Vec<MeshDraw>,
}

/// Pixel size of a registered bitmap.
#[derive(Clone, Copy, Debug, PartialEq, Eq, Structural)]
pub struct BitmapInfo {
    pub width: u32,
    pub height: u32,
}

/// The registered bitmaps, by handle, and the shape meshes.
#[derive(Debug)]
pub struct Library {
    pub bitmaps: FnvMap<BitmapInfo>,
    pub meshes: Vec<Mesh>,
    pub next_bitmap_handle: BitmapHandle,
}

impl Library {
    pub fn new() -> (r: Library)
        ensures
            r.bitmaps@.dom() =~= Set::<u64>::empty(),
            r.meshes@.len() == 0,
            r.next_bitmap_handle == BitmapHandle(0),
    {
        Library { bitmaps: fnv_map_new(), meshes: Vec::new(), next_bitmap_handle: BitmapHandle(0) }
    }

    /// Hands out bitmap handles in sequence.
    pub fn next_bitmap_handle(&mut self) -> (r: BitmapHandle)
        requires
            old(self).next_bitmap_handle.0 < usize::MAX,
        ensures
            r == old(self).next_bitmap_handle,
            final(self).next_bitmap_handle == BitmapHandle((r.0 + 1) as usize),
            final(self).bitmaps@ == old(self).bitmaps@,
            final(self).meshes@ == old(self).meshes@,
    {
        let handle = self.next_bitmap_handle;
        self.next_bitmap_handle = BitmapHandle(self.next_bitmap_handle.0 + 1);
        handle
    }

    /// Registers a bitmap of the given size under the next handle.
    pub fn register_bitmap(&mut self, info: BitmapInfo) -> (r: BitmapHandle)
        requires
            old(self).next_bitmap_handle.0 < usize::MAX,
        ensures
            r == old(self).next_bitmap_handle,
            final(self).next_bitmap_handle == BitmapHandle((r.0 + 1) as usize),
            final(self).bitmaps@ == old(self).bitmaps@.insert(r.0 as u64, info),
            final(self).meshes@ == old(self).meshes@,
    {
        let handle = self.next_bitmap_handle();
        fnv_map_insert(&mut self.bitmaps, handle.0 as u64, info);
        handle
    }
}

/// Reusable textures for blend layers. Layer `k` (from 1; layer 0 is the
/// caller's target) uses the ids `base + 3(k-1)`, `+1` and `+2` for its frame,
/// blend and resolve buffers, so sibling layers reuse one bundle and the
/// number of bundles is the deepest blend nesting.
#[derive(Clone, Copy, Debug, PartialEq, Eq, Structural)]
pub struct LayerPool {
    pub base: u32,
    pub multisampled: bool,
}

/// The pool's ids for layers up to `layers` fit in `u32`.
pub open spec fn pool_fits(pool: LayerPool, layers: nat) -> bool {
    pool.base + 3 * layers <= u32::MAX
}

pub open spec fn layer_target_spec(pool: LayerPool, layer: nat, depth: u32) -> CommandTarget {
    let frame = (pool.base + 3 * (layer - 1)) as u32;
    CommandTarget {
        frame_buffer: frame,
        blend_buffer: (frame + 1) as u32,
        resolve_buffer: if pool.multisampled {
            Some((frame + 2) as u32)
        } else {
            None
        },
        depth,
    }
}

/// Why a frame could not be rendered.
#[derive(Clone, Copy, Debug, PartialEq, Eq, Structural)]
pub enum RenderError {
    /// Blend groups are nested deeper than the allowed depth.
    NestingTooDeep,
}

pub open spec fn bitmap_info(lib: &Library, b: BitmapHandle) -> Option<BitmapInfo> {
    lib.bitmaps@.get(b.0 as u64)
}

pub open spec fn draws_stencil(state: MaskState) -> bool {
    state == MaskState::DrawMaskStencil || state == MaskState::ClearMaskStencil
}

/// The operations of draw `i` of a shape's mesh; stencil draws leave out
/// strokes, and a draw without indices is skipped.
pub open spec fn mesh_draw_ops(shape: ShapeHandle, i: int, d: MeshDraw, state: MaskState) -> Seq<GpuOp> {
    let n = if draws_stencil(state) {
        d.num_mask_indices
    } else {
        d.num_indices
    };
    if n == 0 {
        Seq::empty()
    } else {
        let prep = match d.draw_type {
            DrawType::Color => seq![GpuOp::SetPipeline { family: PipelineFamily::Color, mask_state: state }],
            DrawType::Gradient => seq![
                GpuOp::SetPipeline { family: PipelineFamily::Gradient, mask_state: state },
                GpuOp::BindShapeDraw { shape, draw: i as usize },
            ],
            DrawType::Bitmap => seq![
                GpuOp::SetPipeline { family: PipelineFamily::Bitmap, mask_state: state },
                GpuOp::BindShapeDraw { shape, draw: i as usize },
            ],
        };
        prep.push(GpuOp::DrawShape { shape, draw: i as usize, num_indices: n })
    }
}

pub open spec fn mesh_ops(shape: ShapeHandle, draws: Seq<MeshDraw>, state: MaskState) -> Seq<GpuOp>
    decreases draws.len(),
{
    if draws.len() == 0 {
        Seq::empty()
    } else {
        mesh_ops(shape, draws.drop_last(), state) + mesh_draw_ops(
            shape,
            draws.len() - 1,
            draws.last(),
            state,
        )
    }
}

pub open spec fn transform_op(matrix: Matrix, scale_x: u32, scale_y: u32, color: ColorAdjustments) -> GpuOp {
    GpuOp::SetTransform { matrix, scale_x, scale_y, adjustments: color }
}

/// The operations one command records in a pass, in mask state `m`.
/// A bitmap that is not registered draws nothing; neither does a shape
/// without a mesh, past its transform.
pub open spec fn command_ops(lib: &Library, m: MaskTracker, c: Command) -> Seq<GpuOp> {
    match c {
        Command::RenderBitmap { bitmap, transform, smoothing } => match bitmap_info(lib, bitmap) {
            Some(info) => seq![
                transform_op(
                    transform.matrix,
                    info.width,
                    info.height,
                    ColorAdjustments::Transform(transform.color_transform),
                ),
                GpuOp::SetPipeline { family: PipelineFamily::Bitmap, mask_state: m.state },
                GpuOp::BindBitmap { bitmap, smoothing },
                GpuOp::DrawQuad,
            ],
            None => Seq::empty(),
        },
        Command::RenderShape { shape, transform } => seq![
            transform_op(
                transform.matrix,
                1,
                1,
                ColorAdjustments::Transform(transform.color_transform),
            ),
        ] + if shape.0 < lib.meshes@.len() {
            mesh_ops(shape, lib.meshes@[shape.0 as int].draws@, m.state)
        } else {
            Seq::empty()
        },
        Command::DrawRect { color, matrix } => seq![
            transform_op(matrix, 1, 1, ColorAdjustments::Tint(color)),
            GpuOp::SetPipeline { family: PipelineFamily::Color, mask_state: m.state },
            GpuOp::DrawQuad,
        ],
        Command::Blend(_, _) => Seq::empty(),
        _ => seq![GpuOp::SetStencilReference(mask_command_reference(m, c))],
    }
}

/// Sets the stencil reference of the current mask state, if it has one.
pub open spec fn reference_ops(m: MaskTracker) -> Seq<GpuOp> {
    match reference_for(m) {
        Some(r) => seq![GpuOp::SetStencilReference(r)],
        None => Seq::empty(),
    }
}

/// The operations of a run of commands inside one pass, and the mask state
/// after it.
pub open spec fn draw_run(lib: &Library, m: MaskTracker, cmds: Seq<Command>) -> (Seq<GpuOp>, MaskTracker)
    decreases cmds.len(),
{
    if cmds.len() == 0 {
        (Seq::empty(), m)
    } else {
        let (ops, m1) = draw_run(lib, m, cmds.drop_last());
        (
            ops + reference_ops(m1) + command_ops(lib, m1, cmds.last()),
            mask_step(m1, cmds.last()),
        )
    }
}

/// The composite pass that draws a finished layer onto its parent, as a
/// quad over the whole target.
pub open spec fn composite_ops(
    target: CommandTarget,
    child: CommandTarget,
    nearest: CommandTarget,
    m: MaskTracker,
    first: bool,
    mode: BlendMode,
) -> Seq<GpuOp> {
    seq![
        GpuOp::BeginPass {
            color: target.color_attachment_spec(first),
            depth_stencil: child.depth_attachment_spec(false),
        },
    ] + reference_ops(m) + seq![
        GpuOp::SetPipeline { family: PipelineFamily::Blend, mask_state: m.state },
        GpuOp::BindWholeFrameTransform,
        GpuOp::BindBlend {
            destination: target.blend_buffer,
            source: child.color_texture(),
            layer: nearest.color_texture(),
            blend_mode: mode,
        },
        GpuOp::DrawQuad,
        GpuOp::EndPass,
    ]
}

/// Progress of one execution: the operations of its own command buffer so
/// far, the buffers that nested layers have finished, the mask state, and
/// whether no pass has been opened yet.
pub struct RunState {
    pub encoder: Seq<GpuOp>,
    pub output: Seq<Seq<GpuOp>>,
    pub masks: MaskTracker,
    pub first: bool,
}

pub open spec fn initial_run() -> RunState {
    RunState { encoder: Seq::empty(), output: Seq::empty(), masks: initial_masks(), first: true }
}

/// One chunk's effect on the progress of an execution on `target` at blend
/// layer `layer`, with `fuel` further levels of blend nesting allowed; `None`
/// when the nesting is deeper.
pub open spec fn run_step(
    lib: &Library,
    pool: LayerPool,
    target: CommandTarget,
    nearest: CommandTarget,
    clear_depth: bool,
    layer: nat,
    fuel: nat,
    st: RunState,
    chunk: ChunkView,
) -> Option<RunState>
    decreases fuel, 0int, 0int,
{
    match chunk {
        ChunkView::Draw(cmds) => {
            let (ops, m) = draw_run(lib, st.masks, cmds);
            Some(
                RunState {
                    encoder: st.encoder + seq![
                        GpuOp::BeginPass {
                            color: target.color_attachment_spec(st.first),
                            depth_stencil: target.depth_attachment_spec(st.first && clear_depth),
                        },
                    ] + ops + seq![GpuOp::EndPass],
                    output: st.output,
                    masks: m,
                    first: false,
                },
            )
        },
        ChunkView::Blend(list, mode) => {
            if fuel == 0 {
                None
            } else {
                let child = layer_target_spec(pool, layer + 1, target.depth);
                let child_nearest = if mode == BlendMode::Layer {
                    child
                } else {
                    nearest
                };
                match execute_spec(
                    lib,
                    pool,
                    child,
                    list.0@,
                    child_nearest,
                    false,
                    layer + 1,
                    (fuel - 1) as nat,
                ) {
                    None => None,
                    Some(child_out) => Some(
                        RunState {
                            encoder: st.encoder + seq![
                                GpuOp::CopyTexture {
                                    source: target.color_texture(),
                                    destination: target.blend_buffer,
                                },
                            ] + composite_ops(target, child, nearest, st.masks, st.first, mode),
                            output: st.output + child_out,
                            masks: st.masks,
                            first: false,
                        },
                    ),
                }
            }
        },
    }
}

/// Runs `chunks` in order from the initial state; `None` when blends nest
/// deeper than `fuel`.
pub open spec fn run_chunks(
    lib: &Library,
    pool: LayerPool,
    target: CommandTarget,
    nearest: CommandTarget,
    clear_depth: bool,
    layer: nat,
    fuel: nat,
    chunks: Seq<ChunkView>,
) -> Option<RunState>
    decreases fuel, 0int, chunks.len(),
{
    if chunks.len() == 0 {
        Some(initial_run())
    } else {
        match run_chunks(lib, pool, target, nearest, clear_depth, layer, fuel, chunks.drop_last()) {
            None => None,
            Some(st) => run_step(lib, pool, target, nearest, clear_depth, layer, fuel, st, chunks.last()),
        }
    }
}

/// The command buffers that executing `cmds` on `target` submits, nested
/// layers' buffers first; `None` when blends nest deeper than `fuel`.
pub open spec fn execute_spec(
    lib: &Library,
    pool: LayerPool,
    target: CommandTarget,
    cmds: Seq<Command>,
    nearest: CommandTarget,
    clear_depth: bool,
    layer: nat,
    fuel: nat,
) -> Option<Seq<Seq<GpuOp>>>
    decreases fuel, 1int, 0int,
{
    match run_chunks(lib, pool, target, nearest, clear_depth, layer, fuel, chunks_of(cmds)) {
        None => None,
        Some(st) => Some(st.output.push(st.encoder)),
    }
}

pub open spec fn buffers_view(v: Seq<Vec<GpuOp>>) -> Seq<Seq<GpuOp>> {
    v.map_values(|b: Vec<GpuOp>| b@)
}

/// Records the operations of one render pass.
pub struct CommandRenderer<'a> {
    pub library: &'a Library,
    pub masks: MaskTracker,
    pub render_pass: Vec<GpuOp>,
}

impl<'a> CommandRenderer<'a> {
    pub fn new(library: &'a Library, masks: MaskTracker) -> (r: CommandRenderer<'a>)
        ensures
            r.library == library,
            r.masks == masks,
            r.render_pass@ == Seq::<GpuOp>::empty(),
    {
        CommandRenderer { library, masks, render_pass: Vec::new() }
    }

    /// Uploads the world transform of the next draw.
    pub fn apply_transform(
        &mut self,
        matrix: &Matrix,
        scale_x: u32,
        scale_y: u32,
        color_adjustments: ColorAdjustments,
    )
        ensures
            final(self).library == old(self).library,
            final(self).masks == old(self).masks,
            final(self).render_pass@ == old(self).render_pass@.push(
                transform_op(*matrix, scale_x, scale_y, color_adjustments),
            ),
    {
        self.render_pass.push(
            GpuOp::SetTransform { matrix: *matrix, scale_x, scale_y, adjustments: color_adjustments },
        );
    }

    /// Selects the solid-colour pipeline of the current mask state.
    pub fn prep_color(&mut self)
        ensures
            final(self).library == old(self).library,
            final(self).masks == old(self).masks,
            final(self).render_pass@ == old(self).render_pass@.push(
                GpuOp::SetPipeline { family: PipelineFamily::Color, mask_state: old(self).masks.state },
            ),
    {
        self.render_pass.push(
            GpuOp::SetPipeline { family: PipelineFamily::Color, mask_state: self.masks.state },
        );
    }

    /// Selects the gradient pipeline of the current mask state and binds
    /// the gradient.
    pub fn prep_gradient(&mut self, bind: GpuOp)
        ensures
            final(self).library == old(self).library,
            final(self).masks == old(self).masks,
            final(self).render_pass@ == old(self).render_pass@.push(
                GpuOp::SetPipeline { family: PipelineFamily::Gradient, mask_state: old(self).masks.state },
            ).push(bind),
    {
        self.render_pass.push(
            GpuOp::SetPipeline { family: PipelineFamily::Gradient, mask_state: self.masks.state },
        );
        self.render_pass.push(bind);
    }

    /// Selects the bitmap pipeline of the current mask state and binds the
    /// bitmap.
    pub fn prep_bitmap(&mut self, bind: GpuOp)
        ensures
            final(self).library == old(self).library,
            final(self).masks == old(self).masks,
            final(self).render_pass@ == old(self).render_pass@.push(
                GpuOp::SetPipeline { family: PipelineFamily::Bitmap, mask_state: old(self).masks.state },
            ).push(bind),
    {
        self.render_pass.push(
            GpuOp::SetPipeline { family: PipelineFamily::Bitmap, mask_state: self.masks.state },
        );
        self.render_pass.push(bind);
    }

    /// Records a draw call: the unit quad, or one draw of a shape's mesh.
    pub fn draw(&mut self, op: GpuOp)
        requires
            op is DrawQuad || op is DrawShape,
        ensures
            final(self).library == old(self).library,
            final(self).masks == old(self).masks,
            final(self).render_pass@ == old(self).render_pass@.push(op),
    {
        self.render_pass.push(op);
    }

    /// Draws a bitmap as the unit quad scaled to its pixel size.
    pub fn render_bitmap(&mut self, bitmap: BitmapHandle, transform: &Transform, smoothing: bool)
        ensures
            final(self).library == old(self).library,
            final(self).masks == old(self).masks,
            final(self).render_pass@ == old(self).render_pass@ + command_ops(
                old(self).library,
                old(self).masks,
                Command::RenderBitmap { bitmap, transform: *transform, smoothing },
            ),
    {
        if let Some(info) = fnv_map_get(&self.library.bitmaps, bitmap.0 as u64) {
            self.apply_transform(
                &transform.matrix,
                info.width,
                info.height,
                ColorAdjustments::Transform(transform.color_transform),
            );
            self.prep_bitmap(GpuOp::BindBitmap { bitmap, smoothing });
            self.draw(GpuOp::DrawQuad);
        }
        proof {
            assert(self.render_pass@ =~= old(self).render_pass@ + command_ops(
                old(self).library,
                old(self).masks,
                Command::RenderBitmap { bitmap, transform: *transform, smoothing },
            ));
        }
    }

    /// Draws every draw of a shape's mesh with indices in the current mask
    /// state; stencil draws leave out strokes.
    pub fn render_shape(&mut self, shape: ShapeHandle, transform: &Transform)
        ensures
            final(self).library == old(self).library,
            final(self).masks == old(self).masks,
            final(self).render_pass@ == old(self).render_pass@ + command_ops(
                old(self).library,
                old(self).masks,
                Command::RenderShape { shape, transform: *transform },
            ),
    {
        self.apply_transform(
            &transform.matrix,
            1,
            1,
            ColorAdjustments::Transform(transform.color_transform),
        );
        let ghost start = self.render_pass@;
        if shape.0 < self.library.meshes.len() {
            let mesh = &self.library.meshes[shape.0];
            let state = self.masks.state;
            let mut i: usize = 0;
            while i < mesh.draws.len()
                invariant
                    self.library == old(self).library,
                    self.masks == old(self).masks,
                    state == self.masks.state,
                    *mesh == self.library.meshes@[shape.0 as int],
                    i <= mesh.draws@.len(),
                    self.render_pass@ == start + mesh_ops(shape, mesh.draws@.take(i as int), state),
                decreases mesh.draws@.len() - i,
            {
                let ghost before = self.render_pass@;
                let draw = mesh.draws[i];
                let num_indices = if state != MaskState::DrawMaskStencil && state
                    != MaskState::ClearMaskStencil {
                    draw.num_indices
                } else {
                    draw.num_mask_indices
                };
                if num_indices > 0 {
                    match draw.draw_type {
                        DrawType::Color => self.prep_color(),
                        DrawType::Gradient => self.prep_gradient(
                            GpuOp::BindShapeDraw { shape, draw: i },
                        ),
                        DrawType::Bitmap => self.prep_bitmap(GpuOp::BindShapeDraw { shape, draw: i }),
                    }
                    self.draw(GpuOp::DrawShape { shape, draw: i, num_indices });
                }
                proof {
                    let d = mesh.draws@.take(i + 1);
                    assert(d.drop_last() =~= mesh.draws@.take(i as int));
                    assert(self.render_pass@ =~= before + mesh_draw_ops(shape, i as int, draw, state));
                    assert(self.render_pass@ =~= start + mesh_ops(shape, d, state));
                }
                i = i + 1;
            }
            proof {
                assert(mesh.draws@.take(i as int) =~= mesh.draws@);
            }
        }
        proof {
            assert(self.render_pass@ =~= old(self).render_pass@ + command_ops(
                old(self).library,
                old(self).masks,
                Command::RenderShape { shape, transform: *transform },
            ));
        }
    }

    /// Fills the unit quad, placed by `matrix`, with `color`.
    pub fn draw_rect(&mut self, color: Color, matrix: &Matrix)
        ensures
            final(self).library == old(self).library,
            final(self).masks == old(self).masks,
            final(self).render_pass@ == old(self).render_pass@ + command_ops(
                old(self).library,
                old(self).masks,
                Command::DrawRect { color, matrix: *matrix },
            ),
    {
        self.apply_transform(matrix, 1, 1, ColorAdjustments::Tint(color));
        self.prep_color();
        self.draw(GpuOp::DrawQuad);
        proof {
            assert(self.render_pass@ =~= old(self).render_pass@ + command_ops(
                old(self).library,
                old(self).masks,
                Command::DrawRect { color, matrix: *matrix },
            ));
        }
    }

    pub fn push_mask(&mut self)
        ensures
            final(self).library == old(self).library,
            final(self).masks == mask_step(old(self).masks, Command::PushMask),
            final(self).render_pass@ == old(self).render_pass@ + command_ops(
                old(self).library,
                old(self).masks,
                Command::PushMask,
            ),
    {
        let reference = self.masks.push_mask();
        self.render_pass.push(GpuOp::SetStencilReference(reference));
        proof {
            assert(self.render_pass@ =~= old(self).render_pass@ + command_ops(
                old(self).library,
                old(self).masks,
                Command::PushMask,
            ));
        }
    }

    pub fn activate_mask(&mut self)
        ensures
            final(self).library == old(self).library,
            final(self).masks == mask_step(old(self).masks, Command::ActivateMask),
            final(self).render_pass@ == old(self).render_pass@ + command_ops(
                old(self).library,
                old(self).masks,
                Command::ActivateMask,
            ),
    {
        let reference = self.masks.activate_mask();
        self.render_pass.push(GpuOp::SetStencilReference(reference));
        proof {
            assert(self.render_pass@ =~= old(self).render_pass@ + command_ops(
                old(self).library,
                old(self).masks,
                Command::ActivateMask,
            ));
        }
    }

    pub fn deactivate_mask(&mut self)
        ensures
            final(self).library == old(self).library,
            final(self).masks == mask_step(old(self).masks, Command::DeactivateMask),
            final(self).render_pass@ == old(self).render_pass@ + command_ops(
                old(self).library,
                old(self).masks,
                Command::DeactivateMask,
            ),
    {
        let reference = self.masks.deactivate_mask();
        self.render_pass.push(GpuOp::SetStencilReference(reference));
        proof {
            assert(self.render_pass@ =~= old(self).render_pass@ + command_ops(
                old(self).library,
                old(self).masks,
                Command::DeactivateMask,
            ));
        }
    }

    pub fn pop_mask(&mut self)
        ensures
            final(self).library == old(self).library,
            final(self).masks == mask_step(old(self).masks, Command::PopMask),
            final(self).render_pass@ == old(self).render_pass@ + command_ops(
                old(self).library,
                old(self).masks,
                Command::PopMask,
            ),
    {
        let reference = self.masks.pop_mask();
        self.render_pass.push(GpuOp::SetStencilReference(reference));
        proof {
            assert(self.render_pass@ =~= old(self).render_pass@ + command_ops(
                old(self).library,
                old(self).masks,
                Command::PopMask,
            ));
        }
    }

    /// Sets the stencil reference of the current mask state, then records
    /// one command.
    pub fn run_command(&mut self, command: &Command)
        ensures
            final(self).library == old(self).library,
            final(self).masks == mask_step(old(self).masks, *command),
            final(self).render_pass@ == old(self).render_pass@ + reference_ops(old(self).masks)
                + command_ops(old(self).library, old(self).masks, *command),
    {
        match self.masks.stencil_reference() {
            Some(reference) => self.render_pass.push(GpuOp::SetStencilReference(reference)),
            None => {},
        }
        let ghost mid = self.render_pass@;
        proof {
            assert(mid =~= old(self).render_pass@ + reference_ops(old(self).masks));
        }
        match command {
            Command::RenderBitmap { bitmap, transform, smoothing } => self.render_bitmap(
                *bitmap,
                transform,
                *smoothing,
            ),
            Command::RenderShape { shape, transform } => self.render_shape(*shape, transform),
            Command::DrawRect { color, matrix } => self.draw_rect(*color, matrix),
            Command::PushMask => self.push_mask(),
            Command::ActivateMask => self.activate_mask(),
            Command::DeactivateMask => self.deactivate_mask(),
            Command::PopMask => self.pop_mask(),
            Command::Blend(_, _) => {
                proof {
                    assert(mid + command_ops(old(self).library, old(self).masks, *command) =~= mid);
                }
            },
        }
    }
}

/// The textures of blend layer `layer`.
pub fn layer_target(pool: &LayerPool, layer: u32, depth: u32) -> (r: CommandTarget)
    requires
        1 <= layer,
        pool_fits(*pool, layer as nat),
    ensures
        r == layer_target_spec(*pool, layer as nat, depth),
{
    let frame = pool.base + 3 * (layer - 1);
    let resolve = if pool.multisampled {
        Some(frame + 2)
    } else {
        None
    };
    CommandTarget::new(frame, frame + 1, resolve, depth)
}

proof fn lemma_run_none_extends(
    lib: &Library,
    pool: LayerPool,
    target: CommandTarget,
    nearest: CommandTarget,
    clear_depth: bool,
    layer: nat,
    fuel: nat,
    chunks: Seq<ChunkView>,
    k: int,
)
    requires
        0 <= k <= chunks.len(),
        run_chunks(lib, pool, target, nearest, clear_depth, layer, fuel, chunks.take(k)) is None,
    ensures
        run_chunks(lib, pool, target, nearest, clear_depth, layer, fuel, chunks) is None,
    decreases chunks.len(),
{
    if k == chunks.len() {
        assert(chunks.take(k) =~= chunks);
    } else {
        let prev = chunks.drop_last();
        assert(prev.take(k) =~= chunks.take(k));
        lemma_run_none_extends(lib, pool, target, nearest, clear_depth, layer, fuel, prev, k);
    }
}

/// Records the pass that composites a finished layer `child` onto `target`.
pub fn composite(
    target: &CommandTarget,
    child: &CommandTarget,
    nearest_layer: &CommandTarget,
    masks: &MaskTracker,
    first: bool,
    blend_mode: BlendMode,
    encoder: &mut Vec<GpuOp>,
)
    ensures
        final(encoder)@ == old(encoder)@ + composite_ops(
            *target,
            *child,
            *nearest_layer,
            *masks,
            first,
            blend_mode,
        ),
{
    encoder.push(
        GpuOp::BeginPass {
            color: target.color_attachments(first).unwrap(),
            depth_stencil: child.depth_attachment(false).unwrap(),
        },
    );
    match masks.stencil_reference() {
        Some(reference) => encoder.push(GpuOp::SetStencilReference(reference)),
        None => {},
    }
    encoder.push(GpuOp::SetPipeline { family: PipelineFamily::Blend, mask_state: masks.state });
    encoder.push(GpuOp::BindWholeFrameTransform);
    encoder.push(
        GpuOp::BindBlend {
            destination: target.blend_buffer,
            source: child.color_view(),
            layer: nearest_layer.color_view(),
            blend_mode,
        },
    );
    encoder.push(GpuOp::DrawQuad);
    encoder.push(GpuOp::EndPass);
    proof {
        assert(encoder@ =~= old(encoder)@ + composite_ops(
            *target,
            *child,
            *nearest_layer,
            *masks,
            first,
            blend_mode,
        ));
    }
}

impl<'a> CommandRenderer<'a> {
    /// Records one pass on `target` that runs a chunk of plain commands.
    pub fn draw_chunk(
        library: &'a Library,
        target: &CommandTarget,
        run: Vec<Command>,
        masks: &mut MaskTracker,
        first: bool,
        clear_depth: bool,
        encoder: &mut Vec<GpuOp>,
    )
        ensures
            final(encoder)@ == old(encoder)@ + seq![
                GpuOp::BeginPass {
                    color: target.color_attachment_spec(first),
                    depth_stencil: target.depth_attachment_spec(first && clear_depth),
                },
            ] + draw_run(library, *old(masks), run@).0 + seq![GpuOp::EndPass],
            *final(masks) == draw_run(library, *old(masks), run@).1,
    {
        encoder.push(
            GpuOp::BeginPass {
                color: target.color_attachments(first).unwrap(),
                depth_stencil: target.depth_attachment(first && clear_depth).unwrap(),
            },
        );
        let mut renderer = CommandRenderer::new(library, *masks);
        let mut j: usize = 0;
        proof {
            assert(run@.take(0) =~= Seq::<Command>::empty());
        }
        while j < run.len()
            invariant
                renderer.library == library,
                j <= run@.len(),
                (renderer.render_pass@, renderer.masks) == draw_run(
                    library,
                    *old(masks),
                    run@.take(j as int),
                ),
            decreases run@.len() - j,
        {
            proof {
                assert(run@.take(j + 1).drop_last() =~= run@.take(j as int));
            }
            renderer.run_command(&run[j]);
            j = j + 1;
        }
        proof {
            assert(run@.take(j as int) =~= run@);
        }
        *masks = renderer.masks;
        let mut pass = renderer.render_pass;
        encoder.append(&mut pass);
        encoder.push(GpuOp::EndPass);
    }

    /// Records a blend chunk: snapshots `target`, executes `list` on the
    /// next layer's textures (its buffers go to `output`), then composites
    /// that layer back onto `target`.
    pub fn blend_chunk(
        library: &Library,
        pool: &LayerPool,
        target: &CommandTarget,
        list: CommandList,
        blend_mode: BlendMode,
        masks: &MaskTracker,
        first: bool,
        nearest_layer: &CommandTarget,
        layer: u32,
        max_depth: u32,
        encoder: &mut Vec<GpuOp>,
        output: &mut Vec<Vec<GpuOp>>,
    ) -> (r: Result<(), RenderError>)
        requires
            max_depth > 0,
            pool_fits(*pool, layer as nat + max_depth as nat),
        ensures
            ({
                let child = layer_target_spec(*pool, layer as nat + 1, target.depth);
                let child_nearest = if blend_mode == BlendMode::Layer {
                    child
                } else {
                    *nearest_layer
                };
                match execute_spec(
                    library,
                    *pool,
                    child,
                    list.0@,
                    child_nearest,
                    false,
                    layer as nat + 1,
                    (max_depth - 1) as nat,
                ) {
                    Some(child_out) => {
                        &&& r is Ok
                        &&& final(encoder)@ == old(encoder)@ + seq![
                            GpuOp::CopyTexture {
                                source: target.color_texture(),
                                destination: target.blend_buffer,
                            },
                        ] + composite_ops(*target, child, *nearest_layer, *masks, first, blend_mode)
                        &&& buffers_view(final(output)@) == buffers_view(old(output)@) + child_out
                    },
                    None => r is Err,
                }
            }),
        decreases max_depth, 0int,
    {
        target.update_blend_buffer(encoder);
        let child = layer_target(pool, layer + 1, target.depth);
        let child_nearest = if blend_mode == BlendMode::Layer {
            child
        } else {
            *nearest_layer
        };
        let res = CommandRenderer::execute(
            library,
            pool,
            &child,
            list,
            output,
            &child_nearest,
            false,
            layer + 1,
            max_depth - 1,
        );
        match res {
            Err(e) => {
                return Err(e);
            },
            Ok(()) => {},
        }
        composite(target, &child, nearest_layer, masks, first, blend_mode, encoder);
        Ok(())
    }

    /// Executes `commands` on `target` at blend layer `layer`, appending the
    /// command buffers it submits to `output`: those of nested layers first,
    /// then its own. Color is cleared on the first pass, depth too when
    /// `clear_depth`. Blend groups may nest `max_depth` levels deeper.
    pub fn execute(
        library: &Library,
        pool: &LayerPool,
        target: &CommandTarget,
        commands: CommandList,
        output: &mut Vec<Vec<GpuOp>>,
        nearest_layer: &CommandTarget,
        clear_depth: bool,
        layer: u32,
        max_depth: u32,
    ) -> (r: Result<(), RenderError>)
        requires
            pool_fits(*pool, layer as nat + max_depth as nat),
        ensures
            match execute_spec(
                library,
                *pool,
                *target,
                commands.0@,
                *nearest_layer,
                clear_depth,
                layer as nat,
                max_depth as nat,
            ) {
                Some(buffers) => r is Ok && buffers_view(final(output)@) == buffers_view(
                    old(output)@,
                ) + buffers,
                None => r is Err,
            },
        decreases max_depth, 1int,
    {
        let ghost cmds = commands.0@;
        let ghost start = buffers_view(output@);
        let chunks = chunk_blends(commands.0);
        let ghost views = chunks@.map_values(|c: Chunk| c.view());
        let mut encoder: Vec<GpuOp> = Vec::new();
        let mut first = true;
        let mut masks = MaskTracker::new();
        let ghost mut produced: Seq<Seq<GpuOp>> = Seq::empty();
        proof {
            assert(views.take(0) =~= Seq::<ChunkView>::empty());
        }
        for chunk in it: chunks
            invariant
                it.seq() == chunks@,
                views == chunks@.map_values(|c: Chunk| c.view()),
                views == chunks_of(cmds),
                cmds == commands.0@,
                pool_fits(*pool, layer as nat + max_depth as nat),
                run_chunks(
                    library,
                    *pool,
                    *target,
                    *nearest_layer,
                    clear_depth,
                    layer as nat,
                    max_depth as nat,
                    views.take(it.index() as int),
                ) == Some(
                    (RunState { encoder: encoder@, output: produced, masks, first }),
                ),
                buffers_view(output@) == start + produced,
        {
            let ghost i = it.index() as int;
            let ghost st = RunState { encoder: encoder@, output: produced, masks, first };
            let ghost next = run_step(
                library,
                *pool,
                *target,
                *nearest_layer,
                clear_depth,
                layer as nat,
                max_depth as nat,
                st,
                chunk.view(),
            );
            proof {
                let cur = views.take(i + 1);
                assert(cur.drop_last() =~= views.take(i));
                assert(cur.last() == chunk.view());
                assert(run_chunks(
                    library,
                    *pool,
                    *target,
                    *nearest_layer,
                    clear_depth,
                    layer as nat,
                    max_depth as nat,
                    cur,
                ) == next);
            }
            let res = match chunk {
                Chunk::Draw(run) => {
                    CommandRenderer::draw_chunk(
                        library,
                        target,
                        run,
                        &mut masks,
                        first,
                        clear_depth,
                        &mut encoder,
                    );
                    Ok(())
                },
                Chunk::Blend(list, blend_mode) => {
                    if max_depth == 0 {
                        Err(RenderError::NestingTooDeep)
                    } else {
                        let r = CommandRenderer::blend_chunk(
                            library,
                            pool,
                            target,
                            list,
                            blend_mode,
                            &masks,
                            first,
                            nearest_layer,
                            layer,
                            max_depth,
                            &mut encoder,
                            output,
                        );
                        proof {
                            if next is Some {
                                produced = next->Some_0.output;
                            }
                        }
                        r
                    }
                },
            };
            match res {
                Err(e) => {
                    proof {
                        assert(next is None);
                        lemma_run_none_extends(
                            library,
                            *pool,
                            *target,
                            *nearest_layer,
                            clear_depth,
                            layer as nat,
                            max_depth as nat,
                            views,
                            i + 1,
                        );
                        assert(execute_spec(
                            library,
                            *pool,
                            *target,
                            cmds,
                            *nearest_layer,
                            clear_depth,
                            layer as nat,
                            max_depth as nat,
                        ) is None);
                    }
                    return Err(e);
                },
                Ok(()) => {},
            }
            first = false;
            proof {
                assert(next == Some(
                    (RunState { encoder: encoder@, output: produced, masks, first }),
                ));
            }
        }
        proof {
            assert(views.take(views.len() as int) =~= views);
        }
        let ghost enc = encoder@;
        let ghost out0 = output@;
        output.push(encoder);
        proof {
            assert(buffers_view(out0) == start + produced);
            assert(output@.len() == out0.len() + 1);
            assert(buffers_view(output@) =~= buffers_view(out0).push(enc)) by {
                assert forall|k: int| 0 <= k < output@.len() implies #[trigger] buffers_view(output@)[k]
                    == buffers_view(out0).push(enc)[k] by {
                    if k < out0.len() {
                        assert(output@[k] == out0[k]);
                    }
                }
            }
            assert(buffers_view(output@) =~= start + produced.push(enc));
        }
        Ok(())
    }
}

/// Renders a frame: executes `commands` on `target`, which is its own
/// nearest layer, and returns the command buffers to submit in order. With
/// `clear`, the first pass clears depth as well as colour.
pub fn render_frame(
    library: &Library,
    pool: &LayerPool,
    target: &CommandTarget,
    commands: CommandList,
    clear: bool,
    max_depth: u32,
) -> (r: Result<Vec<Vec<GpuOp>>, RenderError>)
    requires
        pool_fits(*pool, max_depth as nat),
    ensures
        match execute_spec(library, *pool, *target, commands.0@, *target, clear, 0, max_depth as nat) {
            Some(buffers) => r is Ok && buffers_view(r->Ok_0@) == buffers,
            None => r is Err,
        },
{
    let mut output: Vec<Vec<GpuOp>> = Vec::new();
    proof {
        assert(buffers_view(output@) =~= Seq::<Seq<GpuOp>>::empty());
    }
    match CommandRenderer::execute(library, pool, target, commands, &mut output, target, clear, 0, max_depth) {
        Ok(()) => {
            proof {
                assert(buffers_view(output@) =~= Seq::<Seq<GpuOp>>::empty() + buffers_view(output@));
            }
            Ok(output)
        },
        Err(e) => Err(e),
    }
}

/// An empty command list opens no pass and draws nothing: executing it
/// submits a single empty command buffer, so a cleared target keeps its
/// clear colour.
pub proof fn lemma_empty_list_draws_nothing(
    lib: &Library,
    pool: LayerPool,
    target: CommandTarget,
    nearest: CommandTarget,
    clear_depth: bool,
    layer: nat,
    fuel: nat,
)
    ensures
        execute_spec(lib, pool, target, Seq::empty(), nearest, clear_depth, layer, fuel) == Some(
            seq![Seq::<GpuOp>::empty()],
        ),
{
    assert(chunks_of(Seq::<Command>::empty()) =~= Seq::<ChunkView>::empty());
    assert(Seq::<Seq<GpuOp>>::empty().push(Seq::<GpuOp>::empty()) =~= seq![Seq::<GpuOp>::empty()]);
}

/// Runs further `chunks` from the progress `st`.
pub open spec fn run_more(
    lib: &Library,
    pool: LayerPool,
    target: CommandTarget,
    nearest: CommandTarget,
    clear_depth: bool,
    layer: nat,
    fuel: nat,
    st: Option<RunState>,
    chunks: Seq<ChunkView>,
) -> Option<RunState>
    decreases chunks.len(),
{
    if chunks.len() == 0 {
        st
    } else {
        match run_more(lib, pool, target, nearest, clear_depth, layer, fuel, st, chunks.drop_last()) {
            None => None,
            Some(s) => run_step(lib, pool, target, nearest, clear_depth, layer, fuel, s, chunks.last()),
        }
    }
}

proof fn lemma_run_append(
    lib: &Library,
    pool: LayerPool,
    target: CommandTarget,
    nearest: CommandTarget,
    clear_depth: bool,
    layer: nat,
    fuel: nat,
    a: Seq<ChunkView>,
    b: Seq<ChunkView>,
)
    ensures
        run_chunks(lib, pool, target, nearest, clear_depth, layer, fuel, a + b) == run_more(
            lib,
            pool,
            target,
            nearest,
            clear_depth,
            layer,
            fuel,
            run_chunks(lib, pool, target, nearest, clear_depth, layer, fuel, a),
            b,
        ),
    decreases b.len(),
{
    if b.len() == 0 {
        assert(a + b =~= a);
    } else {
        lemma_run_append(lib, pool, target, nearest, clear_depth, layer, fuel, a, b.drop_last());
        assert((a + b).drop_last() =~= a + b.drop_last());
        assert((a + b).last() == b.last());
    }
}

/// Progress only grows: later chunks append to the buffers and operations
/// recorded so far.
proof fn lemma_run_more_grows(
    lib: &Library,
    pool: LayerPool,
    target: CommandTarget,
    nearest: CommandTarget,
    clear_depth: bool,
    layer: nat,
    fuel: nat,
    st: RunState,
    chunks: Seq<ChunkView>,
)
    requires
        run_more(lib, pool, target, nearest, clear_depth, layer, fuel, Some(st), chunks) is Some,
    ensures
        ({
            let fin = run_more(lib, pool, target, nearest, clear_depth, layer, fuel, Some(st), chunks)->Some_0;
            &&& st.output.len() <= fin.output.len()
            &&& fin.output.take(st.output.len() as int) == st.output
            &&& st.encoder.len() <= fin.encoder.len()
            &&& fin.encoder.take(st.encoder.len() as int) == st.encoder
        }),
    decreases chunks.len(),
{
    if chunks.len() > 0 {
        let prev = run_more(lib, pool, target, nearest, clear_depth, layer, fuel, Some(st), chunks.drop_last());
        lemma_run_more_grows(lib, pool, target, nearest, clear_depth, layer, fuel, st, chunks.drop_last());
        let mid = prev->Some_0;
        let fin = run_step(lib, pool, target, nearest, clear_depth, layer, fuel, mid, chunks.last())->Some_0;
        assert(fin.output.take(mid.output.len() as int) == mid.output);
        assert(fin.encoder.take(mid.encoder.len() as int) == mid.encoder);
        assert(fin.output.take(st.output.len() as int) =~= mid.output.take(st.output.len() as int));
        assert(fin.encoder.take(st.encoder.len() as int) =~= mid.encoder.take(st.encoder.len() as int));
    }
}

proof fn lemma_run_more_none(
    lib: &Library,
    pool: LayerPool,
    target: CommandTarget,
    nearest: CommandTarget,
    clear_depth: bool,
    layer: nat,
    fuel: nat,
    chunks: Seq<ChunkView>,
)
    ensures
        run_more(lib, pool, target, nearest, clear_depth, layer, fuel, None, chunks) is None,
    decreases chunks.len(),
{
    if chunks.len() > 0 {
        lemma_run_more_none(lib, pool, target, nearest, clear_depth, layer, fuel, chunks.drop_last());
    }
}

/// A blend group is fully resolved before anything that follows it: in
/// `pre`, `Blend(list, mode)`, `post`, the nested list's command buffers are
/// submitted right after those of blends in `pre` and before every later
/// buffer, and in the parent's own buffer the snapshot and composite of the
/// layer come right after the operations of `pre`, before any operation of
/// `post`.
pub proof fn lemma_blend_resolved_before_siblings(
    lib: &Library,
    pool: LayerPool,
    target: CommandTarget,
    nearest: CommandTarget,
    clear_depth: bool,
    layer: nat,
    fuel: nat,
    pre: Seq<Command>,
    list: CommandList,
    mode: BlendMode,
    post: Seq<Command>,
)
    requires
        execute_spec(
            lib,
            pool,
            target,
            pre.push(Command::Blend(list, mode)) + post,
            nearest,
            clear_depth,
            layer,
            fuel,
        ) is Some,
    ensures
        ({
            let before = run_chunks(lib, pool, target, nearest, clear_depth, layer, fuel, chunks_of(pre));
            let child = layer_target_spec(pool, layer + 1, target.depth);
            let child_nearest = if mode == BlendMode::Layer {
                child
            } else {
                nearest
            };
            let nested = execute_spec(
                lib,
                pool,
                child,
                list.0@,
                child_nearest,
                false,
                layer + 1,
                (fuel - 1) as nat,
            );
            let all = execute_spec(
                lib,
                pool,
                target,
                pre.push(Command::Blend(list, mode)) + post,
                nearest,
                clear_depth,
                layer,
                fuel,
            )->Some_0;
            let b = before->Some_0;
            let n = nested->Some_0;
            let own = b.encoder + seq![
                GpuOp::CopyTexture { source: target.color_texture(), destination: target.blend_buffer },
            ] + composite_ops(target, child, nearest, b.masks, b.first, mode);
            &&& fuel > 0
            &&& before is Some
            &&& nested is Some
            &&& b.output.len() + n.len() < all.len()
            &&& all.take((b.output.len() + n.len()) as int) == b.output + n
            &&& own.len() <= all.last().len()
            &&& all.last().take(own.len() as int) == own
        }),
{
    let bv = ChunkView::Blend(list, mode);
    let cp = chunks_of(pre);
    lemma_chunks_around_blend(pre, list, mode, post);
    lemma_run_append(lib, pool, target, nearest, clear_depth, layer, fuel, cp.push(bv), chunks_of(post));
    assert(cp.push(bv).drop_last() =~= cp);
    let before = run_chunks(lib, pool, target, nearest, clear_depth, layer, fuel, cp);
    let mid = run_chunks(lib, pool, target, nearest, clear_depth, layer, fuel, cp.push(bv));
    if mid is None {
        lemma_run_more_none(lib, pool, target, nearest, clear_depth, layer, fuel, chunks_of(post));
    }
    assert(mid is Some);
    assert(before is Some);
    let m = mid->Some_0;
    lemma_run_more_grows(lib, pool, target, nearest, clear_depth, layer, fuel, m, chunks_of(post));
    let fin = run_more(lib, pool, target, nearest, clear_depth, layer, fuel, mid, chunks_of(post))->Some_0;
    let all = fin.output.push(fin.encoder);
    assert(all.take(m.output.len() as int) =~= fin.output.take(m.output.len() as int));
    assert(mid == run_step(lib, pool, target, nearest, clear_depth, layer, fuel, before->Some_0, bv));
    assert(fuel > 0);
    let child = layer_target_spec(pool, layer + 1, target.depth);
    let child_nearest = if mode == BlendMode::Layer {
        child
    } else {
        nearest
    };
    let nested = execute_spec(lib, pool, child, list.0@, child_nearest, false, layer + 1, (fuel - 1) as nat);
    assert(nested is Some);
    assert(m.output == before->Some_0.output + nested->Some_0);
    assert(execute_spec(
        lib,
        pool,
        target,
        pre.push(Command::Blend(list, mode)) + post,
        nearest,
        clear_depth,
        layer,
        fuel,
    )->Some_0 == all);
    assert(all.last() == fin.encoder);
}

/// Within a pass, the renderer's mask state after a run of commands is the
/// mask state machine's state after them.
pub proof fn lemma_draw_run_tracks_masks(lib: &Library, m: MaskTracker, cmds: Seq<Command>)
    ensures
        draw_run(lib, m, cmds).1 == run_masks(m, cmds),
    decreases cmds.len(),
{
    if cmds.len() > 0 {
        lemma_draw_run_tracks_masks(lib, m, cmds.drop_last());
    }
}

/// The blend layers that the blend commands `blends` open, at every
/// nesting depth down to `fuel` further levels.
pub open spec fn layer_count(blends: Seq<Command>, fuel: nat) -> nat
    decreases fuel, 0int, blends.len(),
{
    if blends.len() == 0 {
        0
    } else {
        layer_count(blends.drop_last(), fuel) + match blends.last() {
            Command::Blend(l, _) => if fuel == 0 {
                1
            } else {
                1 + nested_layer_count(l.0@, (fuel - 1) as nat)
            },
            _ => 0,
        }
    }
}

/// The blend layers of `cmds` at every nesting depth.
pub open spec fn nested_layer_count(cmds: Seq<Command>, fuel: nat) -> nat
    decreases fuel, 1int, 0int,
{
    layer_count(blend_commands(cmds), fuel)
}

proof fn lemma_run_output_count(
    lib: &Library,
    pool: LayerPool,
    target: CommandTarget,
    nearest: CommandTarget,
    clear_depth: bool,
    layer: nat,
    fuel: nat,
    chunks: Seq<ChunkView>,
)
    requires
        run_chunks(lib, pool, target, nearest, clear_depth, layer, fuel, chunks) is Some,
    ensures
        run_chunks(lib, pool, target, nearest, clear_depth, layer, fuel, chunks)->Some_0.output.len()
            == layer_count(chunk_blend_commands(chunks), fuel),
    decreases fuel, 0int, chunks.len(),
{
    if chunks.len() > 0 {
        let p = chunks.drop_last();
        let prev = run_chunks(lib, pool, target, nearest, clear_depth, layer, fuel, p);
        assert(prev is Some);
        let st = prev->Some_0;
        assert(run_chunks(lib, pool, target, nearest, clear_depth, layer, fuel, chunks) == run_step(
            lib,
            pool,
            target,
            nearest,
            clear_depth,
            layer,
            fuel,
            st,
            chunks.last(),
        ));
        lemma_run_output_count(lib, pool, target, nearest, clear_depth, layer, fuel, p);
        match chunks.last() {
            ChunkView::Draw(_) => {
                assert(chunk_blend_commands(chunks) =~= chunk_blend_commands(p));
            },
            ChunkView::Blend(l, m) => {
                let child = layer_target_spec(pool, layer + 1, target.depth);
                let child_nearest = if m == BlendMode::Layer {
                    child
                } else {
                    nearest
                };
                lemma_execute_output_count(
                    lib,
                    pool,
                    child,
                    l.0@,
                    child_nearest,
                    false,
                    layer + 1,
                    (fuel - 1) as nat,
                );
                assert(fuel > 0);
                let cb = chunk_blend_commands(chunks);
                assert(cb =~= chunk_blend_commands(p).push(Command::Blend(l, m)));
                assert(cb.drop_last() =~= chunk_blend_commands(p));
            },
        }
    }
}

/// Executing a command list submits one command buffer for each blend
/// layer at every nesting depth, and one for the target itself.
pub proof fn lemma_execute_output_count(
    lib: &Library,
    pool: LayerPool,
    target: CommandTarget,
    cmds: Seq<Command>,
    nearest: CommandTarget,
    clear_depth: bool,
    layer: nat,
    fuel: nat,
)
    requires
        execute_spec(lib, pool, target, cmds, nearest, clear_depth, layer, fuel) is Some,
    ensures
        execute_spec(lib, pool, target, cmds, nearest, clear_depth, layer, fuel)->Some_0.len() == 1
            + nested_layer_count(cmds, fuel),
    decreases fuel, 1int, 0int,
{
    lemma_blends_keep_their_order(cmds);
    lemma_run_output_count(lib, pool, target, nearest, clear_depth, layer, fuel, chunks_of(cmds));
}

} // verus!
