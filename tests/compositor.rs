use stencil_compositor::chunk::{chunk_blends, Chunk};
use stencil_compositor::command::{
    BitmapHandle, BlendMode, Color, ColorTransform, Command, CommandHandler, CommandList, Matrix,
    ShapeHandle, Transform,
};
use stencil_compositor::gpu::{
    ColorAdjustments, ColorAttachment, DepthStencilAttachment, GpuOp, LoadOp, PipelineFamily,
};
use stencil_compositor::mask::{MaskState, MaskTracker};
use stencil_compositor::pipelines::{
    blend_index, copy_pipeline_descriptor, create_pipeline_descriptor, mask_pipeline_state, quad_index_bytes, BlendState,
    CompareFunction, CopyPipelineDescriptor, Descriptors, PipelineCache, PipelineDescriptor, Pipelines, ShapePipeline,
    StencilOperation,
};
use stencil_compositor::render::{
    layer_target, render_frame, BitmapInfo, CommandRenderer, DrawType, LayerPool, Library, Mesh,
    MeshDraw, RenderError,
};
use stencil_compositor::target::CommandTarget;

const WHITE: Color = Color { r: 255, g: 255, b: 255, a: 255 };
const RED: Color = Color { r: 255, g: 0, b: 0, a: 255 };

fn identity() -> Matrix {
    Matrix { a: 1 << 16, b: 0, c: 0, d: 1 << 16, tx: 0, ty: 0 }
}

fn fullscreen() -> Matrix {
    Matrix { a: 800 << 16, b: 0, c: 0, d: 600 << 16, tx: 0, ty: 0 }
}

fn plain_transform() -> Transform {
    Transform {
        matrix: identity(),
        color_transform: ColorTransform {
            r_mult: 256,
            g_mult: 256,
            b_mult: 256,
            a_mult: 256,
            r_add: 0,
            g_add: 0,
            b_add: 0,
            a_add: 0,
        },
    }
}

fn rect(color: Color, matrix: Matrix) -> Command {
    Command::DrawRect { color, matrix }
}

fn root_target() -> CommandTarget {
    CommandTarget::new(0, 1, None, 2)
}

fn pool() -> LayerPool {
    LayerPool { base: 10, multisampled: false }
}

fn begin(target: &CommandTarget, clear_color: bool, clear_depth: bool) -> GpuOp {
    GpuOp::BeginPass {
        color: target.color_attachments(clear_color).unwrap(),
        depth_stencil: target.depth_attachment(clear_depth).unwrap(),
    }
}

fn rect_ops(color: Color, matrix: Matrix, state: MaskState) -> Vec<GpuOp> {
    vec![
        GpuOp::SetTransform {
            matrix,
            scale_x: 1,
            scale_y: 1,
            adjustments: ColorAdjustments::Tint(color),
        },
        GpuOp::SetPipeline { family: PipelineFamily::Color, mask_state: state },
        GpuOp::DrawQuad,
    ]
}

#[test]
fn chunking_keeps_order_and_isolates_blends() {
    let commands = vec![
        rect(WHITE, identity()),
        Command::PushMask,
        Command::Blend(CommandList(vec![rect(RED, identity())]), BlendMode::Multiply),
        Command::Blend(CommandList(vec![]), BlendMode::Layer),
        Command::PopMask,
    ];
    let chunks = chunk_blends(commands);
    assert_eq!(chunks.len(), 4);
    match &chunks[0] {
        Chunk::Draw(run) => {
            assert_eq!(run.len(), 2);
            assert!(matches!(run[0], Command::DrawRect { color: WHITE, .. }));
            assert!(matches!(run[1], Command::PushMask));
        }
        _ => panic!("expected a draw chunk"),
    }
    match &chunks[1] {
        Chunk::Blend(list, mode) => {
            assert_eq!(*mode, BlendMode::Multiply);
            assert_eq!(list.0.len(), 1);
        }
        _ => panic!("expected a blend chunk"),
    }
    assert!(matches!(&chunks[2], Chunk::Blend(list, BlendMode::Layer) if list.0.is_empty()));
    match &chunks[3] {
        Chunk::Draw(run) => {
            assert_eq!(run.len(), 1);
            assert!(matches!(run[0], Command::PopMask));
        }
        _ => panic!("expected a draw chunk"),
    }
}

#[test]
fn chunking_empty_and_plain_lists() {
    assert!(chunk_blends(vec![]).is_empty());
    let chunks = chunk_blends(vec![Command::PushMask, Command::ActivateMask]);
    assert_eq!(chunks.len(), 1);
    assert!(matches!(&chunks[0], Chunk::Draw(run) if run.len() == 2));
}

#[test]
fn recording_handler_reproduces_the_list() {
    let mut original = CommandList::new();
    original.render_bitmap(BitmapHandle(3), &plain_transform(), true);
    original.render_shape(ShapeHandle(1), &plain_transform());
    original.draw_rect(RED, &identity());
    original.push_mask();
    original.activate_mask();
    original.deactivate_mask();
    original.pop_mask();
    original.blend(CommandList::new(), BlendMode::Screen);
    assert_eq!(original.0.len(), 8);

    let mut copy = CommandList::default();
    original.execute(&mut copy);
    assert_eq!(copy.0.len(), 8);
    assert!(matches!(
        copy.0[0],
        Command::RenderBitmap { bitmap: BitmapHandle(3), smoothing: true, .. }
    ));
    assert!(matches!(copy.0[1], Command::RenderShape { shape: ShapeHandle(1), .. }));
    assert!(matches!(copy.0[2], Command::DrawRect { color: RED, .. }));
    assert!(matches!(copy.0[3], Command::PushMask));
    assert!(matches!(copy.0[4], Command::ActivateMask));
    assert!(matches!(copy.0[5], Command::DeactivateMask));
    assert!(matches!(copy.0[6], Command::PopMask));
    assert!(matches!(&copy.0[7], Command::Blend(list, BlendMode::Screen) if list.0.is_empty()));
}

#[test]
fn mask_counter_returns_to_zero() {
    let mut m = MaskTracker::new();
    assert_eq!(m.push_mask(), 0);
    assert_eq!(m.activate_mask(), 1);
    assert_eq!(m.push_mask(), 1);
    assert_eq!(m.activate_mask(), 2);
    assert_eq!(m.stencil_reference(), Some(2));
    assert_eq!(m.deactivate_mask(), 2);
    assert_eq!(m.pop_mask(), 1);
    assert_eq!(m, MaskTracker { num_masks: 1, state: MaskState::DrawMaskedContent });
    assert_eq!(m.deactivate_mask(), 1);
    assert_eq!(m.pop_mask(), 0);
    assert_eq!(m, MaskTracker::new());
    assert_eq!(m.stencil_reference(), None);
}

#[test]
fn nested_pushes_use_increasing_references() {
    let mut m = MaskTracker::new();
    for depth in 0..5u32 {
        assert_eq!(m.push_mask(), depth);
        assert_eq!(m.stencil_reference(), Some(depth));
        m.activate_mask();
        assert_eq!(m.stencil_reference(), Some(depth + 1));
    }
    for depth in (0..5u32).rev() {
        m.deactivate_mask();
        assert_eq!(m.pop_mask(), depth);
    }
    assert_eq!(m.state, MaskState::NoMask);
}

#[test]
fn unbalanced_pop_saturates() {
    let mut m = MaskTracker::new();
    assert_eq!(m.pop_mask(), 0);
    assert_eq!(m, MaskTracker::new());
    let mut full = MaskTracker { num_masks: u32::MAX, state: MaskState::DrawMaskedContent };
    assert_eq!(full.push_mask(), u32::MAX - 1);
    assert_eq!(full.num_masks, u32::MAX);
}

#[test]
fn masked_rect_scenario() {
    let library = Library::new();
    let target = root_target();
    let commands = CommandList(vec![
        Command::PushMask,
        rect(WHITE, fullscreen()),
        Command::ActivateMask,
        rect(RED, fullscreen()),
        Command::DeactivateMask,
        Command::PopMask,
    ]);
    let buffers = render_frame(&library, &pool(), &target, commands, true, 4).unwrap();
    assert_eq!(buffers.len(), 1);
    let mut expected = vec![begin(&target, true, true), GpuOp::SetStencilReference(0)];
    expected.push(GpuOp::SetStencilReference(0));
    expected.extend(rect_ops(WHITE, fullscreen(), MaskState::DrawMaskStencil));
    expected.push(GpuOp::SetStencilReference(0));
    expected.push(GpuOp::SetStencilReference(1));
    expected.push(GpuOp::SetStencilReference(1));
    expected.extend(rect_ops(RED, fullscreen(), MaskState::DrawMaskedContent));
    expected.push(GpuOp::SetStencilReference(1));
    expected.push(GpuOp::SetStencilReference(1));
    expected.push(GpuOp::SetStencilReference(1));
    expected.push(GpuOp::SetStencilReference(0));
    expected.push(GpuOp::EndPass);
    assert_eq!(buffers[0], expected);
}

#[test]
fn multiply_blend_scenario() {
    let library = Library::new();
    let target = root_target();
    let quad = Matrix { a: 100 << 16, b: 0, c: 0, d: 100 << 16, tx: 200, ty: 200 };
    let commands = CommandList(vec![Command::Blend(
        CommandList(vec![rect(RED, quad)]),
        BlendMode::Multiply,
    )]);
    let buffers = render_frame(&library, &pool(), &target, commands, false, 4).unwrap();
    assert_eq!(buffers.len(), 2);

    let child = CommandTarget::new(10, 11, None, 2);
    let mut layer_ops = vec![begin(&child, true, false)];
    layer_ops.extend(rect_ops(RED, quad, MaskState::NoMask));
    layer_ops.push(GpuOp::EndPass);
    assert_eq!(buffers[0], layer_ops);

    let parent = vec![
        GpuOp::CopyTexture { source: 0, destination: 1 },
        begin(&target, true, false),
        GpuOp::SetPipeline { family: PipelineFamily::Blend, mask_state: MaskState::NoMask },
        GpuOp::BindWholeFrameTransform,
        GpuOp::BindBlend { destination: 1, source: 10, layer: 0, blend_mode: BlendMode::Multiply },
        GpuOp::DrawQuad,
        GpuOp::EndPass,
    ];
    assert_eq!(buffers[1], parent);
}

#[test]
fn nested_layer_becomes_nearest_layer() {
    let library = Library::new();
    let target = root_target();
    let inner = CommandList(vec![Command::Blend(CommandList(vec![]), BlendMode::Alpha)]);
    let commands = CommandList(vec![Command::Blend(inner, BlendMode::Layer)]);
    let buffers = render_frame(&library, &pool(), &target, commands, false, 4).unwrap();
    // innermost layer, then the layer, then the root
    assert_eq!(buffers.len(), 3);
    assert!(buffers[0].is_empty());
    assert!(buffers[1].contains(&GpuOp::BindBlend {
        destination: 11,
        source: 13,
        layer: 10,
        blend_mode: BlendMode::Alpha,
    }));
    assert!(buffers[2].contains(&GpuOp::BindBlend {
        destination: 1,
        source: 10,
        layer: 0,
        blend_mode: BlendMode::Layer,
    }));
}

#[test]
fn blend_resolved_before_following_siblings() {
    let library = Library::new();
    let target = root_target();
    let commands = CommandList(vec![
        rect(WHITE, identity()),
        Command::Blend(CommandList(vec![rect(RED, identity())]), BlendMode::Screen),
        rect(RED, identity()),
    ]);
    let buffers = render_frame(&library, &pool(), &target, commands, true, 4).unwrap();
    assert_eq!(buffers.len(), 2);
    let own = &buffers[1];
    let copy = own.iter().position(|op| matches!(op, GpuOp::CopyTexture { .. })).unwrap();
    let composite = own.iter().position(|op| matches!(op, GpuOp::BindBlend { .. })).unwrap();
    let last_rect = own.iter().rposition(|op| *op == GpuOp::DrawQuad).unwrap();
    assert!(copy < composite && composite < last_rect);
    // the pass after the blend keeps the colour
    let passes: Vec<&GpuOp> = own.iter().filter(|op| matches!(op, GpuOp::BeginPass { .. })).collect();
    assert_eq!(passes.len(), 3);
    assert_eq!(*passes[0], begin(&target, true, true));
    assert_eq!(*passes[2], begin(&target, false, false));
}

#[test]
fn empty_list_draws_nothing() {
    let library = Library::new();
    let buffers =
        render_frame(&library, &pool(), &root_target(), CommandList::new(), true, 4).unwrap();
    assert_eq!(buffers, vec![Vec::<GpuOp>::new()]);
}

#[test]
fn blend_nesting_too_deep_fails() {
    let library = Library::new();
    let nested = CommandList(vec![Command::Blend(
        CommandList(vec![Command::Blend(CommandList(vec![]), BlendMode::Add)]),
        BlendMode::Add,
    )]);
    assert_eq!(
        render_frame(&library, &pool(), &root_target(), nested, false, 1),
        Err(RenderError::NestingTooDeep)
    );
    let flat = CommandList(vec![Command::Blend(CommandList(vec![]), BlendMode::Add)]);
    assert!(render_frame(&library, &pool(), &root_target(), flat, false, 1).is_ok());
    let any = CommandList(vec![Command::Blend(CommandList(vec![]), BlendMode::Add)]);
    assert!(render_frame(&library, &pool(), &root_target(), any, false, 0).is_err());
}

#[test]
fn shapes_omit_strokes_in_stencil_draws() {
    let mut library = Library::new();
    library.meshes.push(Mesh {
        draws: vec![
            MeshDraw { draw_type: DrawType::Color, num_indices: 12, num_mask_indices: 6 },
            MeshDraw { draw_type: DrawType::Gradient, num_indices: 9, num_mask_indices: 0 },
        ],
    });
    let t = plain_transform();
    let mut renderer = CommandRenderer::new(&library, MaskTracker::new());
    renderer.render_shape(ShapeHandle(0), &t);
    let set_transform = GpuOp::SetTransform {
        matrix: t.matrix,
        scale_x: 1,
        scale_y: 1,
        adjustments: ColorAdjustments::Transform(t.color_transform),
    };
    assert_eq!(
        renderer.render_pass,
        vec![
            set_transform,
            GpuOp::SetPipeline { family: PipelineFamily::Color, mask_state: MaskState::NoMask },
            GpuOp::DrawShape { shape: ShapeHandle(0), draw: 0, num_indices: 12 },
            GpuOp::SetPipeline { family: PipelineFamily::Gradient, mask_state: MaskState::NoMask },
            GpuOp::BindShapeDraw { shape: ShapeHandle(0), draw: 1 },
            GpuOp::DrawShape { shape: ShapeHandle(0), draw: 1, num_indices: 9 },
        ]
    );

    let stencil = MaskTracker { num_masks: 1, state: MaskState::DrawMaskStencil };
    let mut renderer = CommandRenderer::new(&library, stencil);
    renderer.render_shape(ShapeHandle(0), &t);
    renderer.render_shape(ShapeHandle(7), &t);
    assert_eq!(
        renderer.render_pass,
        vec![
            set_transform,
            GpuOp::SetPipeline {
                family: PipelineFamily::Color,
                mask_state: MaskState::DrawMaskStencil
            },
            GpuOp::DrawShape { shape: ShapeHandle(0), draw: 0, num_indices: 6 },
            set_transform,
        ]
    );
}

#[test]
fn bitmaps_are_scaled_to_their_size() {
    let mut library = Library::new();
    assert_eq!(library.register_bitmap(BitmapInfo { width: 64, height: 32 }), BitmapHandle(0));
    let t = plain_transform();
    let mut renderer = CommandRenderer::new(&library, MaskTracker::new());
    renderer.render_bitmap(BitmapHandle(0), &t, false);
    renderer.render_bitmap(BitmapHandle(5), &t, true);
    assert_eq!(
        renderer.render_pass,
        vec![
            GpuOp::SetTransform {
                matrix: t.matrix,
                scale_x: 64,
                scale_y: 32,
                adjustments: ColorAdjustments::Transform(t.color_transform),
            },
            GpuOp::SetPipeline { family: PipelineFamily::Bitmap, mask_state: MaskState::NoMask },
            GpuOp::BindBitmap { bitmap: BitmapHandle(0), smoothing: false },
            GpuOp::DrawQuad,
        ]
    );
}

#[test]
fn masked_commands_set_the_reference_first() {
    let library = Library::new();
    let masked = MaskTracker { num_masks: 2, state: MaskState::DrawMaskedContent };
    let mut renderer = CommandRenderer::new(&library, masked);
    renderer.run_command(&rect(RED, identity()));
    let mut expected = vec![GpuOp::SetStencilReference(2)];
    expected.extend(rect_ops(RED, identity(), MaskState::DrawMaskedContent));
    assert_eq!(renderer.render_pass, expected);
    assert_eq!(renderer.masks, masked);
}

#[test]
fn command_target_attachments() {
    let msaa = CommandTarget::new(4, 5, Some(6), 7);
    assert_eq!(
        msaa.color_attachments(true),
        Some(ColorAttachment { view: 4, resolve_target: Some(6), load: LoadOp::Clear, store: true })
    );
    assert_eq!(
        msaa.depth_attachment(false),
        Some(DepthStencilAttachment {
            view: 7,
            depth_load: LoadOp::Load,
            stencil_load: LoadOp::Load,
            store: true
        })
    );
    assert_eq!(msaa.color_view(), 6);
    assert_eq!(root_target().color_view(), 0);
    let mut encoder = vec![];
    msaa.update_blend_buffer(&mut encoder);
    assert_eq!(encoder, vec![GpuOp::CopyTexture { source: 6, destination: 5 }]);
}

#[test]
fn layer_targets_reuse_pool_slots() {
    let pool = LayerPool { base: 100, multisampled: true };
    assert_eq!(layer_target(&pool, 1, 9), CommandTarget::new(100, 101, Some(102), 9));
    assert_eq!(layer_target(&pool, 3, 9), CommandTarget::new(106, 107, Some(108), 9));
}

#[test]
fn pipeline_cache_returns_the_same_slot() {
    let mut cache: PipelineCache<String> = PipelineCache::new();
    let a = cache.pipelines(4, 17, || "msaa4 rgba".to_string());
    let b = cache.pipelines(1, 17, || "msaa1 rgba".to_string());
    let again = cache.pipelines(4, 17, || "rebuilt".to_string());
    let c = cache.pipelines(17, 4, || "swapped".to_string());
    assert_eq!(a, again);
    assert_ne!(a, b);
    assert_ne!(a, c);
    assert_ne!(b, c);
    assert!(std::ptr::eq(cache.get(a), cache.get(again)));
    assert_eq!(cache.get(a), "msaa4 rgba");
    assert_eq!(cache.get(b), "msaa1 rgba");
    assert_eq!(cache.get(c), "swapped");
}

#[test]
fn shape_pipeline_per_mask_state() {
    let pipelines = ShapePipeline::build(|m: MaskState| format!("{:?}", m));
    assert_eq!(pipelines.pipeline_for(MaskState::NoMask), "NoMask");
    assert_eq!(pipelines.pipeline_for(MaskState::DrawMaskStencil), "DrawMaskStencil");
    assert_eq!(pipelines.pipeline_for(MaskState::DrawMaskedContent), "DrawMaskedContent");
    assert_eq!(pipelines.pipeline_for(MaskState::ClearMaskStencil), "ClearMaskStencil");
}

#[test]
fn stencil_states_per_mask_state() {
    let stencil = mask_pipeline_state(MaskState::DrawMaskStencil);
    assert_eq!(stencil.compare, CompareFunction::Equal);
    assert_eq!(stencil.pass_op, StencilOperation::IncrementClamp);
    assert!(!stencil.writes_color);
    let clear = mask_pipeline_state(MaskState::ClearMaskStencil);
    assert_eq!(clear.pass_op, StencilOperation::DecrementClamp);
    assert!(!clear.writes_color);
    let content = mask_pipeline_state(MaskState::DrawMaskedContent);
    assert_eq!((content.compare, content.pass_op), (CompareFunction::Equal, StencilOperation::Keep));
    assert!(content.writes_color);
    let none = mask_pipeline_state(MaskState::NoMask);
    assert_eq!(none.compare, CompareFunction::Always);
    for state in [none, stencil, clear, content] {
        assert_eq!(state.fail_op, StencilOperation::Keep);
        assert_eq!(state.depth_fail_op, StencilOperation::Keep);
        assert_eq!((state.read_mask, state.write_mask), (u32::MAX, u32::MAX));
    }
}

fn words(bytes: &[u8]) -> Vec<u32> {
    bytes.chunks(4).map(|c| u32::from_ne_bytes([c[0], c[1], c[2], c[3]])).collect()
}

#[test]
fn blend_uniforms_hold_the_mode_index() {
    assert_eq!(blend_index(BlendMode::Normal), 0);
    assert_eq!(blend_index(BlendMode::Layer), 0);
    assert_eq!(blend_index(BlendMode::HardLight), 12);
    let descriptors: Descriptors<(), ()> = Descriptors::new();
    let bytes = descriptors.blend_buffer(BlendMode::Multiply);
    assert_eq!(bytes.len(), 16);
    assert_eq!(words(bytes), vec![1, 0, 0, 0]);
    assert_eq!(words(descriptors.blend_buffer(BlendMode::Erase)), vec![10, 0, 0, 0]);
    assert_eq!(words(descriptors.blend_buffer(BlendMode::Layer)), vec![0, 0, 0, 0]);
}

#[test]
fn quad_indices_are_two_triangles() {
    let bytes = quad_index_bytes();
    assert_eq!(bytes.len(), 24);
    assert_eq!(words(&bytes), vec![0, 1, 2, 0, 2, 3]);
}

#[test]
fn bitmap_handles_are_sequential() {
    let mut library = Library::new();
    assert_eq!(library.next_bitmap_handle(), BitmapHandle(0));
    assert_eq!(library.next_bitmap_handle(), BitmapHandle(1));
    assert_eq!(library.next_bitmap_handle, BitmapHandle(2));
    let handle = library.register_bitmap(BitmapInfo { width: 3, height: 4 });
    assert_eq!(handle, BitmapHandle(2));
    assert_eq!(library.bitmaps.get(&2), Some(&BitmapInfo { width: 3, height: 4 }));
    assert_eq!(library.bitmaps.len(), 1);
}

#[test]
fn descriptors_cache_each_pipeline_kind() {
    let mut descriptors: Descriptors<PipelineDescriptor, CopyPipelineDescriptor> =
        Descriptors::new();
    let shapes = descriptors.pipelines(4, 3, |d: PipelineDescriptor| d);
    let other = descriptors.pipelines(1, 3, |d: PipelineDescriptor| d);
    assert_eq!(descriptors.pipelines(4, 3, |d: PipelineDescriptor| d), shapes);
    assert_ne!(shapes, other);
    let built = descriptors.pipeline(shapes);
    assert_eq!(
        *built.color.pipeline_for(MaskState::DrawMaskedContent),
        create_pipeline_descriptor(PipelineFamily::Color, MaskState::DrawMaskedContent, 3, 4)
    );
    assert_eq!(descriptors.pipeline(other).blend.pipeline_for(MaskState::NoMask).msaa_sample_count, 1);

    let copy = descriptors.copy_pipeline(3, |d: CopyPipelineDescriptor| d);
    let srgb = descriptors.copy_srgb_pipeline(3, |d: CopyPipelineDescriptor| d);
    let mut rebuilt = false;
    assert_eq!(
        descriptors.copy_pipeline(3, |d: CopyPipelineDescriptor| {
            rebuilt = true;
            d
        }),
        copy
    );
    assert!(!rebuilt);
    assert_eq!(descriptors.copy_srgb_pipeline(3, |d: CopyPipelineDescriptor| d), srgb);
    assert_eq!(*descriptors.copy(copy), copy_pipeline_descriptor(3, false));
    assert_eq!(
        *descriptors.copy_srgb(srgb),
        CopyPipelineDescriptor {
            format: 3,
            srgb: true,
            msaa_sample_count: 1,
            blend: BlendState::PremultipliedAlpha,
            depth_stencil: false,
        }
    );
    let five = descriptors.copy_pipeline(5, |d: CopyPipelineDescriptor| d);
    assert_ne!(five, copy);
    assert_eq!(descriptors.copy(five).format, 5);
    assert_eq!(*descriptors.copy(copy), copy_pipeline_descriptor(3, false));
}

#[test]
fn pipeline_descriptors_follow_family_and_mask() {
    let d = create_pipeline_descriptor(PipelineFamily::Blend, MaskState::DrawMaskStencil, 7, 4);
    assert_eq!(
        d,
        PipelineDescriptor {
            family: PipelineFamily::Blend,
            mask_state: MaskState::DrawMaskStencil,
            format: 7,
            msaa_sample_count: 4,
            stencil: mask_pipeline_state(MaskState::DrawMaskStencil),
            depth_write: false,
            depth_compare: CompareFunction::Always,
            blend: BlendState::Replace,
        }
    );
    let c = create_pipeline_descriptor(PipelineFamily::Gradient, MaskState::NoMask, 7, 1);
    assert_eq!(c.blend, BlendState::PremultipliedAlpha);

    let pipelines = Pipelines::new(7, 4, |d: PipelineDescriptor| d);
    assert_eq!(
        *pipelines.for_family(PipelineFamily::Bitmap).pipeline_for(MaskState::ClearMaskStencil),
        create_pipeline_descriptor(PipelineFamily::Bitmap, MaskState::ClearMaskStencil, 7, 4)
    );
    assert_eq!(pipelines.blend.pipeline_for(MaskState::NoMask).blend, BlendState::Replace);
}

#[test]
fn draw_records_the_call() {
    let library = Library::new();
    let mut renderer = CommandRenderer::new(&library, MaskTracker::new());
    renderer.draw(GpuOp::DrawQuad);
    renderer.draw(GpuOp::DrawShape { shape: ShapeHandle(2), draw: 1, num_indices: 3 });
    assert_eq!(
        renderer.render_pass,
        vec![GpuOp::DrawQuad, GpuOp::DrawShape { shape: ShapeHandle(2), draw: 1, num_indices: 3 }]
    );
}
