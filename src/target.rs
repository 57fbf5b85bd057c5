use vstd::prelude::*;
use crate::gpu::{ColorAttachment, DepthStencilAttachment, GpuOp, LoadOp};

verus! {

/// The surfaces one execution draws into, by texture id: a colour buffer, a
/// snapshot buffer for blends, an optional multisample resolve buffer, and the
/// shared depth/stencil buffer.
#[derive(Clone, Copy, Debug, PartialEq, Eq, Structural)]
pub struct CommandTarget {
    pub frame_buffer: u32,
    pub blend_buffer: u32,
    pub resolve_buffer: Option<u32>,
    pub depth: u32,
}

pub open spec fn load_op(clear: bool) -> LoadOp {
    if clear {
        LoadOp::Clear
    } else {
        LoadOp::Load
    }
}

impl CommandTarget {
    /// The texture that holds the finished colour: the resolve buffer if
    /// there is one, else the frame buffer.
    pub open spec fn color_texture(self) -> u32 {
        match self.resolve_buffer {
            Some(r) => r,
            None => self.frame_buffer,
        }
    }

    pub open spec fn color_attachment_spec(self, clear: bool) -> ColorAttachment {
        ColorAttachment {
            view: self.frame_buffer,
            resolve_target: self.resolve_buffer,
            load: load_op(clear),
            store: true,
        }
    }

    pub open spec fn depth_attachment_spec(self, clear: bool) -> DepthStencilAttachment {
        DepthStencilAttachment {
            view: self.depth,
            depth_load: load_op(clear),
            stencil_load: LoadOp::Load,
            store: true,
        }
    }

    pub fn new(
        frame_buffer: u32,
        blend_buffer: u32,
        resolve_buffer: Option<u32>,
        depth: u32,
    ) -> (r: CommandTarget)
        ensures
            r == (CommandTarget { frame_buffer, blend_buffer, resolve_buffer, depth }),
    {
        CommandTarget { frame_buffer, blend_buffer, resolve_buffer, depth }
    }

    /// The colour attachment of a pass on this target; `clear` makes the pass
    /// start from transparent black.
    pub fn color_attachments(&self, clear: bool) -> (r: Option<ColorAttachment>)
        ensures
            r == Some(self.color_attachment_spec(clear)),
    {
        Some(
            ColorAttachment {
                view: self.frame_buffer,
                resolve_target: self.resolve_buffer,
                load: if clear {
                    LoadOp::Clear
                } else {
                    LoadOp::Load
                },
                store: true,
            },
        )
    }

    /// The depth/stencil attachment of a pass on this target; `clear` clears
    /// depth, while the stencil is always kept.
    pub fn depth_attachment(&self, clear: bool) -> (r: Option<DepthStencilAttachment>)
        ensures
            r == Some(self.depth_attachment_spec(clear)),
    {
        Some(
            DepthStencilAttachment {
                view: self.depth,
                depth_load: if clear {
                    LoadOp::Clear
                } else {
                    LoadOp::Load
                },
                stencil_load: LoadOp::Load,
                store: true,
            },
        )
    }

    /// Records a copy of the current colour into the blend buffer.
    pub fn update_blend_buffer(&self, encoder: &mut Vec<GpuOp>)
        ensures
            final(encoder)@ == old(encoder)@.push(
                GpuOp::CopyTexture { source: self.color_texture(), destination: self.blend_buffer },
            ),
    {
        encoder.push(GpuOp::CopyTexture { source: self.color_view(), destination: self.blend_buffer });
    }

    /// The texture to sample for this target's finished colour.
    pub fn color_view(&self) -> (r: u32)
        ensures
            r == self.color_texture(),
    {
        match self.resolve_buffer {
            Some(r) => r,
            None => self.frame_buffer,
        }
    }
}

} // verus!
