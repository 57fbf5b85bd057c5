use vstd::prelude::*;
use crate::command::{BitmapHandle, BlendMode, Color, ColorTransform, Matrix, ShapeHandle};
use crate::mask::MaskState;

verus! {

/// What a render pass does with an attachment's old contents.
#[derive(Clone, Copy, Debug, PartialEq, Eq, Structural)]
pub enum LoadOp {
    /// Clear it (colour to transparent, depth to zero).
    Clear,
    /// Keep it.
    Load,
}

#[derive(Clone, Copy, Debug, PartialEq, Eq, Structural)]
pub struct ColorAttachment {
    pub view: u32,
    pub resolve_target: Option<u32>,
    pub load: LoadOp,
    pub store: bool,
}

#[derive(Clone, Copy, Debug, PartialEq, Eq, Structural)]
pub struct DepthStencilAttachment {
    pub view: u32,
    pub depth_load: LoadOp,
    pub stencil_load: LoadOp,
    pub store: bool,
}

/// The shader families a draw can use; each has one pipeline per mask state.
#[derive(Clone, Copy, Debug, PartialEq, Eq, Structural)]
pub enum PipelineFamily {
    Color,
    Bitmap,
    Gradient,
    Blend,
}

/// The colour adjustment uploaded with a transform.
#[derive(Clone, Copy, Debug, PartialEq, Eq, Structural)]
pub enum ColorAdjustments {
    /// The object's own colour transform.
    Transform(ColorTransform),
    /// Multiply by the colour's channels divided by 255; add nothing.
    Tint(Color),
}

/// One operation of the abstract GPU layer, in recording order.
#[derive(Clone, Copy, Debug, PartialEq, Eq, Structural)]
pub enum GpuOp {
    /// Opens a render pass and binds the per-frame resources.
    BeginPass { color: ColorAttachment, depth_stencil: DepthStencilAttachment },
    SetStencilReference(u32),
    /// Uploads the world matrix `matrix` scaled by `scale_x` and `scale_y`,
    /// with a colour adjustment.
    SetTransform { matrix: Matrix, scale_x: u32, scale_y: u32, adjustments: ColorAdjustments },
    SetPipeline { family: PipelineFamily, mask_state: MaskState },
    BindBitmap { bitmap: BitmapHandle, smoothing: bool },
    /// Binds the gradient or bitmap resources of one draw of a shape's mesh.
    BindShapeDraw { shape: ShapeHandle, draw: usize },
    /// Binds the transform that stretches the unit quad over the whole target.
    BindWholeFrameTransform,
    /// Draws the unit quad (six indices).
    DrawQuad,
    DrawShape { shape: ShapeHandle, draw: usize, num_indices: u32 },
    EndPass,
    CopyTexture { source: u32, destination: u32 },
    /// Binds the inputs of a blend composite: the destination snapshot, the
    /// finished layer, and the nearest enclosing `Layer` target.
    BindBlend { destination: u32, source: u32, layer: u32, blend_mode: BlendMode },
}

} // verus!
