use vstd::prelude::*;

verus! {

/// An RGBA colour with 8 bits per channel.
#[derive(Clone, Copy, Debug, PartialEq, Eq, Structural)]
pub struct Color {
    pub r: u8,
    pub g: u8,
    pub b: u8,
    pub a: u8,
}

/// How a blend layer is composited onto its parent.
#[derive(Clone, Copy, Debug, PartialEq, Eq, Structural)]
pub enum BlendMode {
    Normal,
    Layer,
    Multiply,
    Screen,
    Lighten,
    Darken,
    Difference,
    Add,
    Subtract,
    Invert,
    Alpha,
    Erase,
    Overlay,
    HardLight,
}

/// A 2-D affine matrix. `a`, `b`, `c` and `d` are 16.16 fixed-point numbers;
/// `tx` and `ty` are translations in twips (1/20 pixel).
#[derive(Clone, Copy, Debug, PartialEq, Eq, Structural)]
pub struct Matrix {
    pub a: i32,
    pub b: i32,
    pub c: i32,
    pub d: i32,
    pub tx: i32,
    pub ty: i32,
}

/// A colour transform: multipliers in 8.8 fixed point, additive terms in
/// colour units.
#[derive(Clone, Copy, Debug, PartialEq, Eq, Structural)]
pub struct ColorTransform {
    pub r_mult: i16,
    pub g_mult: i16,
    pub b_mult: i16,
    pub a_mult: i16,
    pub r_add: i16,
    pub g_add: i16,
    pub b_add: i16,
    pub a_add: i16,
}

/// Placement and colouring of one drawn object.
#[derive(Clone, Copy, Debug, PartialEq, Eq, Structural)]
pub struct Transform {
    pub matrix: Matrix,
    pub color_transform: ColorTransform,
}

/// Index of a bitmap registered with the bitmap provider.
#[derive(Clone, Copy, Debug, PartialEq, Eq, Hash, Structural)]
pub struct BitmapHandle(pub usize);

/// Index of a tessellated shape registered with the mesh provider.
#[derive(Clone, Copy, Debug, PartialEq, Eq, Hash, Structural)]
pub struct ShapeHandle(pub usize);

/// One drawing instruction.
#[derive(Debug)]
pub enum Command {
    RenderBitmap { bitmap: BitmapHandle, transform: Transform, smoothing: bool },
    RenderShape { shape: ShapeHandle, transform: Transform },
    DrawRect { color: Color, matrix: Matrix },
    PushMask,
    ActivateMask,
    DeactivateMask,
    PopMask,
    Blend(CommandList, BlendMode),
}

/// An ordered list of commands; the order is the execution order.
#[derive(Debug)]
pub struct CommandList(pub Vec<Command>);

/// Receiver of a command stream. Each handler keeps, as ghost state, the
/// sequence of commands it has been handed so far.
pub trait CommandHandler {
    spec fn handled(&self) -> Seq<Command>;

    fn render_bitmap(&mut self, bitmap: BitmapHandle, transform: &Transform, smoothing: bool)
        ensures
            final(self).handled() == old(self).handled().push(
                Command::RenderBitmap { bitmap, transform: *transform, smoothing },
            ),
    ;

    fn render_shape(&mut self, shape: ShapeHandle, transform: &Transform)
        ensures
            final(self).handled() == old(self).handled().push(
                Command::RenderShape { shape, transform: *transform },
            ),
    ;

    fn draw_rect(&mut self, color: Color, matrix: &Matrix)
        ensures
            final(self).handled() == old(self).handled().push(
                Command::DrawRect { color, matrix: *matrix },
            ),
    ;

    fn push_mask(&mut self)
        ensures
            final(self).handled() == old(self).handled().push(Command::PushMask),
    ;

    fn activate_mask(&mut self)
        ensures
            final(self).handled() == old(self).handled().push(Command::ActivateMask),
    ;

    fn deactivate_mask(&mut self)
        ensures
            final(self).handled() == old(self).handled().push(Command::DeactivateMask),
    ;

    fn pop_mask(&mut self)
        ensures
            final(self).handled() == old(self).handled().push(Command::PopMask),
    ;

    fn blend(&mut self, commands: CommandList, blend_mode: BlendMode)
        ensures
            final(self).handled() == old(self).handled().push(Command::Blend(commands, blend_mode)),
    ;
}

impl CommandList {
    pub fn new() -> (r: CommandList)
        ensures
            r.0@ == Seq::<Command>::empty(),
    {
        CommandList(Vec::new())
    }

    /// Hands every command, in order, to the matching operation of `handler`.
    pub fn execute<H: CommandHandler>(self, handler: &mut H)
        ensures
            final(handler).handled() == old(handler).handled() + self.0@,
    {
        let ghost start = handler.handled();
        let ghost all = self.0@;
        for command in it: self.0
            invariant
                it.seq() == all,
                handler.handled() == start + all.take(it.index() as int),
        {
            proof {
                assert(all.take(it.index() + 1) =~= all.take(it.index() as int).push(command));
            }
            match command {
                Command::RenderBitmap { bitmap, transform, smoothing } => handler.render_bitmap(
                    bitmap,
                    &transform,
                    smoothing,
                ),
                Command::RenderShape { shape, transform } => handler.render_shape(shape, &transform),
                Command::DrawRect { color, matrix } => handler.draw_rect(color, &matrix),
                Command::PushMask => handler.push_mask(),
                Command::ActivateMask => handler.activate_mask(),
                Command::DeactivateMask => handler.deactivate_mask(),
                Command::PopMask => handler.pop_mask(),
                Command::Blend(commands, blend_mode) => handler.blend(commands, blend_mode),
            }
        }
        proof {
            assert(all.take(all.len() as int) =~= all);
        }
    }
}

impl Default for CommandList {
    fn default() -> (r: CommandList)
        ensures
            r.0@ == Seq::<Command>::empty(),
    {
        CommandList::new()
    }
}

/// A command list records every command it is handed.
impl CommandHandler for CommandList {
    open spec fn handled(&self) -> Seq<Command> {
        self.0@
    }

    fn render_bitmap(&mut self, bitmap: BitmapHandle, transform: &Transform, smoothing: bool) {
        self.0.push(Command::RenderBitmap { bitmap, transform: *transform, smoothing });
    }

    fn render_shape(&mut self, shape: ShapeHandle, transform: &Transform) {
        self.0.push(Command::RenderShape { shape, transform: *transform });
    }

    fn draw_rect(&mut self, color: Color, matrix: &Matrix) {
        self.0.push(Command::DrawRect { color, matrix: *matrix });
    }

    fn push_mask(&mut self) {
        self.0.push(Command::PushMask);
    }

    fn activate_mask(&mut self) {
        self.0.push(Command::ActivateMask);
    }

    fn deactivate_mask(&mut self) {
        self.0.push(Command::DeactivateMask);
    }

    fn pop_mask(&mut self) {
        self.0.push(Command::PopMask);
    }

    fn blend(&mut self, commands: CommandList, blend_mode: BlendMode) {
        self.0.push(Command::Blend(commands, blend_mode));
    }
}

} // verus!
