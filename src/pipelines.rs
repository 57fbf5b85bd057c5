use vstd::prelude::*;
use fnv::FnvHashMap;
use crate::command::BlendMode;
use crate::gpu::PipelineFamily;
use crate::mask::MaskState;

verus! {

#[verifier::external_type_specification]
#[verifier::external_body]
#[verifier::reject_recursive_types(H)]
pub struct ExBuildHasherDefault<H>(std::hash::BuildHasherDefault<H>);

/// fnv's hasher, the hasher of `FnvHashMap`.
#[verifier::external_type_specification]
#[verifier::external_body]
pub struct ExFnvHasher(fnv::FnvHasher);

/// A map keyed by integers, hashed with fnv.
pub type FnvMap<V> = FnvHashMap<u64, V>;

/// Cache slots by key.
pub type SlotMap = FnvMap<usize>;

/// Relies on `FnvHashMap::default` (std's `HashMap` with fnv's hasher): a new
/// map is empty.
#[verifier::external_body]
pub(crate) fn fnv_map_new<V>() -> (r: FnvMap<V>)
    ensures
        r@.dom() =~= Set::empty(),
{
    FnvHashMap::default()
}

/// Relies on `HashMap::get` under fnv's hasher: the value stored for `key`,
/// if any.
#[verifier::external_body]
pub(crate) fn fnv_map_get<V: Copy>(m: &FnvMap<V>, key: u64) -> (r: Option<V>)
    ensures
        r == m@.get(key),
{
    m.get(&key).copied()
}

/// Relies on `HashMap::insert` under fnv's hasher: afterwards `key` maps to
/// `value` and every other key is unchanged.
#[verifier::external_body]
pub(crate) fn fnv_map_insert<V>(m: &mut FnvMap<V>, key: u64, value: V)
    ensures
        final(m)@ == old(m)@.insert(key, value),
{
    m.insert(key, value);
}

/// Position of a mask state in per-state tables.
pub open spec fn mask_index(m: MaskState) -> int {
    match m {
        MaskState::NoMask => 0,
        MaskState::DrawMaskStencil => 1,
        MaskState::DrawMaskedContent => 2,
        MaskState::ClearMaskStencil => 3,
    }
}

pub open spec fn mask_of_index(i: int) -> MaskState {
    if i == 0 {
        MaskState::NoMask
    } else if i == 1 {
        MaskState::DrawMaskStencil
    } else if i == 2 {
        MaskState::DrawMaskedContent
    } else {
        MaskState::ClearMaskStencil
    }
}

/// One pipeline per mask state, for one shader family.
pub struct ShapePipeline<P> {
    pub pipelines: Vec<P>,
}

impl<P> ShapePipeline<P> {
    pub open spec fn wf(&self) -> bool {
        self.pipelines@.len() == 4
    }

    /// The pipeline that draws in `mask_state`.
    pub fn pipeline_for(&self, mask_state: MaskState) -> (r: &P)
        requires
            self.wf(),
        ensures
            *r == self.pipelines@[mask_index(mask_state)],
    {
        let i: usize = match mask_state {
            MaskState::NoMask => 0,
            MaskState::DrawMaskStencil => 1,
            MaskState::DrawMaskedContent => 2,
            MaskState::ClearMaskStencil => 3,
        };
        &self.pipelines[i]
    }

    /// Builds the pipeline of every mask state with `f`.
    pub fn build<F: Fn(MaskState) -> P>(f: F) -> (r: ShapePipeline<P>)
        requires
            forall|m: MaskState| f.requires((m,)),
        ensures
            r.wf(),
            forall|i: int| 0 <= i < 4 ==> f.ensures((mask_of_index(i),), #[trigger] r.pipelines@[i]),
    {
        let mut pipelines: Vec<P> = Vec::new();
        let no_mask = f(MaskState::NoMask);
        pipelines.push(no_mask);
        let draw_stencil = f(MaskState::DrawMaskStencil);
        pipelines.push(draw_stencil);
        let masked = f(MaskState::DrawMaskedContent);
        pipelines.push(masked);
        let clear_stencil = f(MaskState::ClearMaskStencil);
        pipelines.push(clear_stencil);
        ShapePipeline { pipelines }
    }
}

#[derive(Clone, Copy, Debug, PartialEq, Eq, Structural)]
pub enum CompareFunction {
    Always,
    Equal,
}

#[derive(Clone, Copy, Debug, PartialEq, Eq, Structural)]
pub enum StencilOperation {
    Keep,
    IncrementClamp,
    DecrementClamp,
}

/// Stencil test and colour output of the pipelines for one mask state.
#[derive(Clone, Copy, Debug, PartialEq, Eq, Structural)]
pub struct MaskPipelineState {
    pub compare: CompareFunction,
    pub fail_op: StencilOperation,
    pub depth_fail_op: StencilOperation,
    pub pass_op: StencilOperation,
    pub read_mask: u32,
    pub write_mask: u32,
    pub writes_color: bool,
}

pub open spec fn mask_pipeline_state_spec(m: MaskState) -> MaskPipelineState {
    match m {
        MaskState::NoMask => MaskPipelineState {
            compare: CompareFunction::Always,
            fail_op: StencilOperation::Keep,
            depth_fail_op: StencilOperation::Keep,
            read_mask: 0xffff_ffff,
            write_mask: 0xffff_ffff,
            pass_op: StencilOperation::Keep,
            writes_color: true,
        },
        MaskState::DrawMaskStencil => MaskPipelineState {
            compare: CompareFunction::Equal,
            fail_op: StencilOperation::Keep,
            depth_fail_op: StencilOperation::Keep,
            read_mask: 0xffff_ffff,
            write_mask: 0xffff_ffff,
            pass_op: StencilOperation::IncrementClamp,
            writes_color: false,
        },
        MaskState::DrawMaskedContent => MaskPipelineState {
            compare: CompareFunction::Equal,
            fail_op: StencilOperation::Keep,
            depth_fail_op: StencilOperation::Keep,
            read_mask: 0xffff_ffff,
            write_mask: 0xffff_ffff,
            pass_op: StencilOperation::Keep,
            writes_color: true,
        },
        MaskState::ClearMaskStencil => MaskPipelineState {
            compare: CompareFunction::Equal,
            fail_op: StencilOperation::Keep,
            depth_fail_op: StencilOperation::Keep,
            read_mask: 0xffff_ffff,
            write_mask: 0xffff_ffff,
            pass_op: StencilOperation::DecrementClamp,
            writes_color: false,
        },
    }
}

/// The stencil behaviour of a mask state: stencil draws increment where the
/// stencil equals the reference, clearing draws decrement, masked content is
/// kept to equal cells, and unmasked draws ignore the stencil.
pub fn mask_pipeline_state(mask_state: MaskState) -> (r: MaskPipelineState)
    ensures
        r == mask_pipeline_state_spec(mask_state),
{
    match mask_state {
        MaskState::NoMask => MaskPipelineState {
            compare: CompareFunction::Always,
            fail_op: StencilOperation::Keep,
            depth_fail_op: StencilOperation::Keep,
            read_mask: 0xffff_ffff,
            write_mask: 0xffff_ffff,
            pass_op: StencilOperation::Keep,
            writes_color: true,
        },
        MaskState::DrawMaskStencil => MaskPipelineState {
            compare: CompareFunction::Equal,
            fail_op: StencilOperation::Keep,
            depth_fail_op: StencilOperation::Keep,
            read_mask: 0xffff_ffff,
            write_mask: 0xffff_ffff,
            pass_op: StencilOperation::IncrementClamp,
            writes_color: false,
        },
        MaskState::DrawMaskedContent => MaskPipelineState {
            compare: CompareFunction::Equal,
            fail_op: StencilOperation::Keep,
            depth_fail_op: StencilOperation::Keep,
            read_mask: 0xffff_ffff,
            write_mask: 0xffff_ffff,
            pass_op: StencilOperation::Keep,
            writes_color: true,
        },
        MaskState::ClearMaskStencil => MaskPipelineState {
            compare: CompareFunction::Equal,
            fail_op: StencilOperation::Keep,
            depth_fail_op: StencilOperation::Keep,
            read_mask: 0xffff_ffff,
            write_mask: 0xffff_ffff,
            pass_op: StencilOperation::DecrementClamp,
            writes_color: false,
        },
    }
}

/// The cache key of a (sample count, texture format) pair.
pub open spec fn pipeline_key(msaa_sample_count: u32, format: u32) -> u64 {
    (msaa_sample_count as int * 0x1_0000_0000 + format as int) as u64
}

/// The cache after one request: a known key keeps its slot, a new key gets
/// the next free slot.
pub open spec fn request(slots: Map<u64, usize>, len: nat, key: u64) -> (Map<u64, usize>, nat, usize) {
    if slots.contains_key(key) {
        (slots, len, slots[key])
    } else {
        (slots.insert(key, len as usize), len + 1, len as usize)
    }
}

/// Slots of distinct keys differ, and every slot holds an entry.
pub open spec fn slots_wf(slots: Map<u64, usize>, len: nat) -> bool {
    &&& forall|k: u64| #[trigger] slots.contains_key(k) ==> slots[k] < len
    &&& forall|k1: u64, k2: u64|
        #[trigger] slots.contains_key(k1) && #[trigger] slots.contains_key(k2) && k1 != k2
            ==> slots[k1] != slots[k2]
}

/// Pipelines built on first use and kept, one per key.
pub struct PipelineCache<P> {
    slots: SlotMap,
    entries: Vec<P>,
}

impl<P> PipelineCache<P> {
    pub closed spec fn slots(&self) -> Map<u64, usize> {
        self.slots@
    }

    pub closed spec fn entries(&self) -> Seq<P> {
        self.entries@
    }

    pub open spec fn wf(&self) -> bool {
        slots_wf(self.slots(), self.entries().len())
    }

    pub fn new() -> (r: PipelineCache<P>)
        ensures
            r.wf(),
            r.slots() == Map::<u64, usize>::empty(),
            r.entries() == Seq::<P>::empty(),
    {
        PipelineCache { slots: fnv_map_new(), entries: Vec::new() }
    }

    /// The slot already holding the pipeline for a sample count and
    /// texture format, if any.
    pub fn lookup(&self, msaa_sample_count: u32, format: u32) -> (r: Option<usize>)
        ensures
            r == self.slots().get(pipeline_key(msaa_sample_count, format)),
    {
        let key: u64 = (msaa_sample_count as u64) * 0x1_0000_0000u64 + format as u64;
        fnv_map_get(&self.slots, key)
    }

    /// Stores `pipeline` for a sample count and texture format not cached
    /// yet, in the next free slot.
    pub fn insert(&mut self, msaa_sample_count: u32, format: u32, pipeline: P) -> (r: usize)
        requires
            old(self).wf(),
            old(self).entries().len() < usize::MAX,
            !old(self).slots().contains_key(pipeline_key(msaa_sample_count, format)),
        ensures
            final(self).wf(),
            (final(self).slots(), final(self).entries().len(), r) == request(
                old(self).slots(),
                old(self).entries().len(),
                pipeline_key(msaa_sample_count, format),
            ),
            final(self).entries() == old(self).entries().push(pipeline),
    {
        let key: u64 = (msaa_sample_count as u64) * 0x1_0000_0000u64 + format as u64;
        let slot = self.entries.len();
        self.entries.push(pipeline);
        fnv_map_insert(&mut self.slots, key, slot);
        slot
    }

    /// The slot of the pipeline for a sample count and texture format,
    /// building it with `build` on the first request. Entries are never
    /// replaced or removed.
    pub fn pipelines<F: FnOnce() -> P>(&mut self, msaa_sample_count: u32, format: u32, build: F) -> (r: usize)
        requires
            old(self).wf(),
            old(self).entries().len() < usize::MAX,
            build.requires(()),
        ensures
            final(self).wf(),
            (final(self).slots(), final(self).entries().len(), r) == request(
                old(self).slots(),
                old(self).entries().len(),
                pipeline_key(msaa_sample_count, format),
            ),
            r < final(self).entries().len(),
            old(self).slots().contains_key(pipeline_key(msaa_sample_count, format))
                ==> final(self).entries() == old(self).entries(),
            !old(self).slots().contains_key(pipeline_key(msaa_sample_count, format)) ==> {
                &&& final(self).entries() == old(self).entries().push(final(self).entries().last())
                &&& build.ensures((), final(self).entries().last())
            },
    {
        match self.lookup(msaa_sample_count, format) {
            Some(slot) => slot,
            None => {
                let pipeline = build();
                self.insert(msaa_sample_count, format, pipeline)
            },
        }
    }

    /// The pipeline held in `slot`.
    pub fn get(&self, slot: usize) -> (r: &P)
        requires
            slot < self.entries().len(),
        ensures
            *r == self.entries()[slot as int],
    {
        &self.entries[slot]
    }
}

/// Distinct (sample count, format) pairs have distinct cache keys.
pub proof fn lemma_pipeline_keys_distinct(m1: u32, f1: u32, m2: u32, f2: u32)
    requires
        (m1, f1) != (m2, f2),
    ensures
        pipeline_key(m1, f1) != pipeline_key(m2, f2),
{
    let k1 = m1 as int * 0x1_0000_0000 + f1 as int;
    let k2 = m2 as int * 0x1_0000_0000 + f2 as int;
    assert(k1 != k2) by (nonlinear_arith)
        requires
            (m1, f1) != (m2, f2),
            k1 == m1 as int * 0x1_0000_0000 + f1 as int,
            k2 == m2 as int * 0x1_0000_0000 + f2 as int,
            0 <= f1 < 0x1_0000_0000,
            0 <= f2 < 0x1_0000_0000,
    ;
    assert(0 <= k1 < 0x1_0000_0000_0000_0000) by (nonlinear_arith)
        requires
            k1 == m1 as int * 0x1_0000_0000 + f1 as int,
            0 <= m1 < 0x1_0000_0000,
            0 <= f1 < 0x1_0000_0000,
    ;
    assert(0 <= k2 < 0x1_0000_0000_0000_0000) by (nonlinear_arith)
        requires
            k2 == m2 as int * 0x1_0000_0000 + f2 as int,
            0 <= m2 < 0x1_0000_0000,
            0 <= f2 < 0x1_0000_0000,
    ;
}

/// Requesting the same sample count and format twice gives the same slot and
/// builds nothing the second time; requests for distinct pairs never share a
/// slot.
pub proof fn lemma_pipeline_cache_requests(
    slots: Map<u64, usize>,
    len: nat,
    m1: u32,
    f1: u32,
    m2: u32,
    f2: u32,
)
    requires
        slots_wf(slots, len),
        len + 2 <= usize::MAX,
    ensures
        ({
            let (s1, n1, r1) = request(slots, len, pipeline_key(m1, f1));
            let (s2, n2, r2) = request(s1, n1, pipeline_key(m2, f2));
            &&& slots_wf(s1, n1)
            &&& slots_wf(s2, n2)
            &&& (m1, f1) == (m2, f2) ==> r2 == r1 && s2 == s1 && n2 == n1
            &&& (m1, f1) != (m2, f2) ==> r2 != r1
        }),
{
    if (m1, f1) != (m2, f2) {
        lemma_pipeline_keys_distinct(m1, f1, m2, f2);
    }
    let (s1, n1, r1) = request(slots, len, pipeline_key(m1, f1));
    let (s2, n2, r2) = request(s1, n1, pipeline_key(m2, f2));
    assert(slots_wf(s1, n1));
    assert(slots_wf(s2, n2));
}

/// Relies on `bytemuck::cast_slice` from `u32` to `u8`: the values' bytes in
/// the machine's byte order, four per value.
#[verifier::external_body]
fn u32s_to_bytes(values: &[u32]) -> (r: Vec<u8>)
    ensures
        r@ == le_bytes(values@) || r@ == be_bytes(values@),
{
    bytemuck::cast_slice::<u32, u8>(values).to_vec()
}

pub open spec fn byte_of(v: u32, j: int) -> u8 {
    ((v as int / if j == 0 {
        1int
    } else if j == 1 {
        0x100int
    } else if j == 2 {
        0x1_0000int
    } else {
        0x100_0000int
    }) % 0x100) as u8
}

/// Each value as four bytes, least significant first.
pub open spec fn le_bytes(values: Seq<u32>) -> Seq<u8> {
    Seq::new(4 * values.len(), |i: int| byte_of(values[i / 4], i % 4))
}

/// Each value as four bytes, most significant first.
pub open spec fn be_bytes(values: Seq<u32>) -> Seq<u8> {
    Seq::new(4 * values.len(), |i: int| byte_of(values[i / 4], 3 - i % 4))
}

/// Index of a blend mode in the compositing shader's table; `Normal` and
/// `Layer` share the plain copy.
pub open spec fn blend_index_spec(mode: BlendMode) -> u32 {
    match mode {
        BlendMode::Normal => 0,
        BlendMode::Layer => 0,
        BlendMode::Multiply => 1,
        BlendMode::Screen => 2,
        BlendMode::Lighten => 3,
        BlendMode::Darken => 4,
        BlendMode::Difference => 5,
        BlendMode::Add => 6,
        BlendMode::Subtract => 7,
        BlendMode::Invert => 8,
        BlendMode::Alpha => 9,
        BlendMode::Erase => 10,
        BlendMode::Overlay => 11,
        BlendMode::HardLight => 12,
    }
}

pub fn blend_index(mode: BlendMode) -> (r: u32)
    ensures
        r == blend_index_spec(mode),
{
    match mode {
        BlendMode::Normal => 0,
        BlendMode::Layer => 0,
        BlendMode::Multiply => 1,
        BlendMode::Screen => 2,
        BlendMode::Lighten => 3,
        BlendMode::Darken => 4,
        BlendMode::Difference => 5,
        BlendMode::Add => 6,
        BlendMode::Subtract => 7,
        BlendMode::Invert => 8,
        BlendMode::Alpha => 9,
        BlendMode::Erase => 10,
        BlendMode::Overlay => 11,
        BlendMode::HardLight => 12,
    }
}

/// Contents of the index buffer of the unit quad: two triangles.
pub fn quad_index_bytes() -> (r: Vec<u8>)
    ensures
        r@ == le_bytes(seq![0u32, 1, 2, 0, 2, 3]) || r@ == be_bytes(seq![0u32, 1, 2, 0, 2, 3]),
{
    let indices: [u32; 6] = [0, 1, 2, 0, 2, 3];
    let r = u32s_to_bytes(&indices);
    proof {
        assert(indices@ =~= seq![0u32, 1, 2, 0, 2, 3]);
    }
    r
}

/// How a pipeline's output combines with the target.
#[derive(Clone, Copy, Debug, PartialEq, Eq, Structural)]
pub enum BlendState {
    PremultipliedAlpha,
    Replace,
}

/// Everything that distinguishes one shape pipeline from another. Depth is
/// never written and always passes; the stencil does the clipping.
#[derive(Clone, Copy, Debug, PartialEq, Eq, Structural)]
pub struct PipelineDescriptor {
    pub family: PipelineFamily,
    pub mask_state: MaskState,
    pub format: u32,
    pub msaa_sample_count: u32,
    pub stencil: MaskPipelineState,
    pub depth_write: bool,
    pub depth_compare: CompareFunction,
    pub blend: BlendState,
}

pub open spec fn family_blend(family: PipelineFamily) -> BlendState {
    match family {
        PipelineFamily::Blend => BlendState::Replace,
        _ => BlendState::PremultipliedAlpha,
    }
}

/// The pipeline of a shader family for one mask state, target format and
/// sample count: the mask state decides the stencil test, and the blend
/// family replaces the target while the others blend premultiplied alpha.
pub fn create_pipeline_descriptor(
    family: PipelineFamily,
    mask_state: MaskState,
    format: u32,
    msaa_sample_count: u32,
) -> (r: PipelineDescriptor)
    ensures
        r == (PipelineDescriptor {
            family,
            mask_state,
            format,
            msaa_sample_count,
            stencil: mask_pipeline_state_spec(mask_state),
            depth_write: false,
            depth_compare: CompareFunction::Always,
            blend: family_blend(family),
        }),
{
    let blend = match family {
        PipelineFamily::Blend => BlendState::Replace,
        _ => BlendState::PremultipliedAlpha,
    };
    PipelineDescriptor {
        family,
        mask_state,
        format,
        msaa_sample_count,
        stencil: mask_pipeline_state(mask_state),
        depth_write: false,
        depth_compare: CompareFunction::Always,
        blend,
    }
}

/// The pipelines of every shader family and mask state for one target
/// format and sample count.
pub struct Pipelines<P> {
    pub color: ShapePipeline<P>,
    pub bitmap: ShapePipeline<P>,
    pub gradient: ShapePipeline<P>,
    pub blend: ShapePipeline<P>,
}

impl<P> Pipelines<P> {
    pub open spec fn wf(&self) -> bool {
        self.color.wf() && self.bitmap.wf() && self.gradient.wf() && self.blend.wf()
    }

    /// Every pipeline is what `f` builds from its family's descriptor for
    /// its mask state, `format` and `msaa_sample_count`.
    pub open spec fn built_by<F: Fn(PipelineDescriptor) -> P>(
        &self,
        f: F,
        format: u32,
        msaa_sample_count: u32,
    ) -> bool {
        &&& self.wf()
        &&& forall|i: int|
            0 <= i < 4 ==> {
                &&& f.ensures(
                    (create_descriptor_spec(PipelineFamily::Color, mask_of_index(i), format, msaa_sample_count),),
                    #[trigger] self.color.pipelines@[i],
                )
                &&& f.ensures(
                    (create_descriptor_spec(PipelineFamily::Bitmap, mask_of_index(i), format, msaa_sample_count),),
                    self.bitmap.pipelines@[i],
                )
                &&& f.ensures(
                    (create_descriptor_spec(PipelineFamily::Gradient, mask_of_index(i), format, msaa_sample_count),),
                    self.gradient.pipelines@[i],
                )
                &&& f.ensures(
                    (create_descriptor_spec(PipelineFamily::Blend, mask_of_index(i), format, msaa_sample_count),),
                    self.blend.pipelines@[i],
                )
            }
    }

    /// Builds each pipeline from its descriptor with `f`.
    pub fn new<F: Fn(PipelineDescriptor) -> P>(format: u32, msaa_sample_count: u32, f: F) -> (r: Pipelines<P>)
        requires
            forall|d: PipelineDescriptor| f.requires((d,)),
        ensures
            r.built_by(f, format, msaa_sample_count),
    {
        let color = Pipelines::family(PipelineFamily::Color, format, msaa_sample_count, &f);
        let bitmap = Pipelines::family(PipelineFamily::Bitmap, format, msaa_sample_count, &f);
        let gradient = Pipelines::family(PipelineFamily::Gradient, format, msaa_sample_count, &f);
        let blend = Pipelines::family(PipelineFamily::Blend, format, msaa_sample_count, &f);
        Pipelines { color, bitmap, gradient, blend }
    }

    fn family<F: Fn(PipelineDescriptor) -> P>(
        family: PipelineFamily,
        format: u32,
        msaa_sample_count: u32,
        f: &F,
    ) -> (r: ShapePipeline<P>)
        requires
            forall|d: PipelineDescriptor| f.requires((d,)),
        ensures
            r.wf(),
            forall|i: int|
                0 <= i < 4 ==> f.ensures(
                    (create_descriptor_spec(family, mask_of_index(i), format, msaa_sample_count),),
                    #[trigger] r.pipelines@[i],
                ),
    {
        let mut pipelines: Vec<P> = Vec::new();
        let no_mask = f(create_pipeline_descriptor(family, MaskState::NoMask, format, msaa_sample_count));
        pipelines.push(no_mask);
        let draw_stencil = f(
            create_pipeline_descriptor(family, MaskState::DrawMaskStencil, format, msaa_sample_count),
        );
        pipelines.push(draw_stencil);
        let masked = f(
            create_pipeline_descriptor(family, MaskState::DrawMaskedContent, format, msaa_sample_count),
        );
        pipelines.push(masked);
        let clear_stencil = f(
            create_pipeline_descriptor(family, MaskState::ClearMaskStencil, format, msaa_sample_count),
        );
        pipelines.push(clear_stencil);
        ShapePipeline { pipelines }
    }

    /// The pipelines of one shader family.
    pub fn for_family(&self, family: PipelineFamily) -> (r: &ShapePipeline<P>)
        ensures
            *r == match family {
                PipelineFamily::Color => self.color,
                PipelineFamily::Bitmap => self.bitmap,
                PipelineFamily::Gradient => self.gradient,
                PipelineFamily::Blend => self.blend,
            },
    {
        match family {
            PipelineFamily::Color => &self.color,
            PipelineFamily::Bitmap => &self.bitmap,
            PipelineFamily::Gradient => &self.gradient,
            PipelineFamily::Blend => &self.blend,
        }
    }
}

pub open spec fn create_descriptor_spec(
    family: PipelineFamily,
    mask_state: MaskState,
    format: u32,
    msaa_sample_count: u32,
) -> PipelineDescriptor {
    PipelineDescriptor {
        family,
        mask_state,
        format,
        msaa_sample_count,
        stencil: mask_pipeline_state_spec(mask_state),
        depth_write: false,
        depth_compare: CompareFunction::Always,
        blend: family_blend(family),
    }
}

/// What distinguishes the pipelines that copy a texture onto a target: one
/// colour target of `format`, premultiplied-alpha blending, one sample, no
/// depth/stencil, with or without conversion to sRGB.
#[derive(Clone, Copy, Debug, PartialEq, Eq, Structural)]
pub struct CopyPipelineDescriptor {
    pub format: u32,
    pub srgb: bool,
    pub msaa_sample_count: u32,
    pub blend: BlendState,
    pub depth_stencil: bool,
}

pub open spec fn copy_descriptor_spec(format: u32, srgb: bool) -> CopyPipelineDescriptor {
    CopyPipelineDescriptor {
        format,
        srgb,
        msaa_sample_count: 1,
        blend: BlendState::PremultipliedAlpha,
        depth_stencil: false,
    }
}

pub fn copy_pipeline_descriptor(format: u32, srgb: bool) -> (r: CopyPipelineDescriptor)
    ensures
        r == copy_descriptor_spec(format, srgb),
{
    CopyPipelineDescriptor {
        format,
        srgb,
        msaa_sample_count: 1,
        blend: BlendState::PremultipliedAlpha,
        depth_stencil: false,
    }
}

/// Long-lived GPU state shared by frames: the blend-mode uniforms, made
/// once, and the pipelines, built on first use and kept.
pub struct Descriptors<P, C> {
    blend_buffers: Vec<Vec<u8>>,
    copy_pipeline: PipelineCache<C>,
    copy_srgb_pipeline: PipelineCache<C>,
    pipelines: PipelineCache<Pipelines<P>>,
}

/// Number of distinct blend-mode uniforms.
pub const MAX_BLEND_MODES: usize = 13;

impl<P, C> Descriptors<P, C> {
    pub closed spec fn uniforms(&self) -> Seq<Seq<u8>> {
        self.blend_buffers@.map_values(|b: Vec<u8>| b@)
    }

    pub closed spec fn copy_cache(&self) -> PipelineCache<C> {
        self.copy_pipeline
    }

    pub closed spec fn copy_srgb_cache(&self) -> PipelineCache<C> {
        self.copy_srgb_pipeline
    }

    pub closed spec fn pipeline_cache(&self) -> PipelineCache<Pipelines<P>> {
        self.pipelines
    }

    pub open spec fn wf(&self) -> bool {
        &&& self.uniforms().len() == MAX_BLEND_MODES
        &&& forall|i: int|
            0 <= i < MAX_BLEND_MODES ==> #[trigger] self.uniforms()[i] == le_bytes(
                seq![i as u32, 0u32, 0u32, 0u32],
            ) || self.uniforms()[i] == be_bytes(seq![i as u32, 0u32, 0u32, 0u32])
        &&& self.copy_cache().wf()
        &&& self.copy_srgb_cache().wf()
        &&& self.pipeline_cache().wf()
    }

    pub fn new() -> (r: Descriptors<P, C>)
        ensures
            r.wf(),
            r.pipeline_cache().entries().len() == 0,
            r.copy_cache().entries().len() == 0,
            r.copy_srgb_cache().entries().len() == 0,
    {
        let mut blend_buffers: Vec<Vec<u8>> = Vec::new();
        let mut blend_id: usize = 0;
        while blend_id < MAX_BLEND_MODES
            invariant
                blend_id <= MAX_BLEND_MODES,
                blend_buffers@.len() == blend_id,
                forall|i: int|
                    0 <= i < blend_id ==> #[trigger] blend_buffers@[i]@ == le_bytes(
                        seq![i as u32, 0u32, 0u32, 0u32],
                    ) || blend_buffers@[i]@ == be_bytes(seq![i as u32, 0u32, 0u32, 0u32]),
            decreases MAX_BLEND_MODES - blend_id,
        {
            let words: [u32; 4] = [blend_id as u32, 0, 0, 0];
            let bytes = u32s_to_bytes(&words);
            proof {
                assert(words@ =~= seq![blend_id as u32, 0u32, 0u32, 0u32]);
            }
            blend_buffers.push(bytes);
            blend_id = blend_id + 1;
        }
        Descriptors {
            blend_buffers,
            copy_pipeline: PipelineCache::new(),
            copy_srgb_pipeline: PipelineCache::new(),
            pipelines: PipelineCache::new(),
        }
    }

    /// The uniform that selects `mode` in the compositing shader.
    pub fn blend_buffer(&self, mode: BlendMode) -> (r: &Vec<u8>)
        requires
            self.wf(),
        ensures
            r@ == self.uniforms()[blend_index_spec(mode) as int],
            r@ == le_bytes(seq![blend_index_spec(mode), 0u32, 0u32, 0u32]) || r@ == be_bytes(
                seq![blend_index_spec(mode), 0u32, 0u32, 0u32],
            ),
    {
        let index = blend_index(mode) as usize;
        proof {
            assert(self.uniforms()[index as int] == self.blend_buffers@[index as int]@);
        }
        &self.blend_buffers[index]
    }

    /// The slot of the shape pipelines for a sample count and format. On the
    /// first request they are built by `Pipelines::new` with `build`; later
    /// requests return the same slot, whose entry is never replaced.
    pub fn pipelines<F: Fn(PipelineDescriptor) -> P>(
        &mut self,
        msaa_sample_count: u32,
        format: u32,
        build: F,
    ) -> (r: usize)
        requires
            old(self).wf(),
            old(self).pipeline_cache().entries().len() < usize::MAX,
            forall|d: PipelineDescriptor| build.requires((d,)),
        ensures
            final(self).wf(),
            final(self).copy_cache() == old(self).copy_cache(),
            final(self).copy_srgb_cache() == old(self).copy_srgb_cache(),
            (final(self).pipeline_cache().slots(), final(self).pipeline_cache().entries().len(), r)
                == request(
                old(self).pipeline_cache().slots(),
                old(self).pipeline_cache().entries().len(),
                pipeline_key(msaa_sample_count, format),
            ),
            r < final(self).pipeline_cache().entries().len(),
            old(self).pipeline_cache().slots().contains_key(pipeline_key(msaa_sample_count, format))
                ==> final(self).pipeline_cache().entries() == old(self).pipeline_cache().entries(),
            !old(self).pipeline_cache().slots().contains_key(pipeline_key(msaa_sample_count, format))
                ==> {
                &&& final(self).pipeline_cache().entries() == old(self).pipeline_cache().entries().push(
                    final(self).pipeline_cache().entries()[r as int],
                )
                &&& final(self).pipeline_cache().entries()[r as int].built_by(
                    build,
                    format,
                    msaa_sample_count,
                )
            },
    {
        match self.pipelines.lookup(msaa_sample_count, format) {
            Some(slot) => slot,
            None => {
                let built = Pipelines::new(format, msaa_sample_count, build);
                self.pipelines.insert(msaa_sample_count, format, built)
            },
        }
    }

    /// The slot of the plain copy pipeline for a format. On the first
    /// request it is built by `build` from the format's copy descriptor;
    /// later requests return the same slot, whose entry is never replaced.
    pub fn copy_pipeline<F: FnOnce(CopyPipelineDescriptor) -> C>(&mut self, format: u32, build: F) -> (r: usize)
        requires
            old(self).wf(),
            old(self).copy_cache().entries().len() < usize::MAX,
            build.requires((copy_descriptor_spec(format, false),)),
        ensures
            final(self).wf(),
            final(self).pipeline_cache() == old(self).pipeline_cache(),
            final(self).copy_srgb_cache() == old(self).copy_srgb_cache(),
            (final(self).copy_cache().slots(), final(self).copy_cache().entries().len(), r) == request(
                old(self).copy_cache().slots(),
                old(self).copy_cache().entries().len(),
                pipeline_key(1, format),
            ),
            r < final(self).copy_cache().entries().len(),
            old(self).copy_cache().slots().contains_key(pipeline_key(1, format))
                ==> final(self).copy_cache().entries() == old(self).copy_cache().entries(),
            !old(self).copy_cache().slots().contains_key(pipeline_key(1, format)) ==> {
                &&& final(self).copy_cache().entries() == old(self).copy_cache().entries().push(
                    final(self).copy_cache().entries()[r as int],
                )
                &&& build.ensures(
                    (copy_descriptor_spec(format, false),),
                    final(self).copy_cache().entries()[r as int],
                )
            },
    {
        match self.copy_pipeline.lookup(1, format) {
            Some(slot) => slot,
            None => {
                let built = build(copy_pipeline_descriptor(format, false));
                self.copy_pipeline.insert(1, format, built)
            },
        }
    }

    /// The slot of the sRGB-converting copy pipeline for a format, cached
    /// apart from the plain one, in the same way.
    pub fn copy_srgb_pipeline<F: FnOnce(CopyPipelineDescriptor) -> C>(
        &mut self,
        format: u32,
        build: F,
    ) -> (r: usize)
        requires
            old(self).wf(),
            old(self).copy_srgb_cache().entries().len() < usize::MAX,
            build.requires((copy_descriptor_spec(format, true),)),
        ensures
            final(self).wf(),
            final(self).pipeline_cache() == old(self).pipeline_cache(),
            final(self).copy_cache() == old(self).copy_cache(),
            (final(self).copy_srgb_cache().slots(), final(self).copy_srgb_cache().entries().len(), r)
                == request(
                old(self).copy_srgb_cache().slots(),
                old(self).copy_srgb_cache().entries().len(),
                pipeline_key(1, format),
            ),
            r < final(self).copy_srgb_cache().entries().len(),
            old(self).copy_srgb_cache().slots().contains_key(pipeline_key(1, format))
                ==> final(self).copy_srgb_cache().entries() == old(self).copy_srgb_cache().entries(),
            !old(self).copy_srgb_cache().slots().contains_key(pipeline_key(1, format)) ==> {
                &&& final(self).copy_srgb_cache().entries() == old(
                    self,
                ).copy_srgb_cache().entries().push(final(self).copy_srgb_cache().entries()[r as int])
                &&& build.ensures(
                    (copy_descriptor_spec(format, true),),
                    final(self).copy_srgb_cache().entries()[r as int],
                )
            },
    {
        match self.copy_srgb_pipeline.lookup(1, format) {
            Some(slot) => slot,
            None => {
                let built = build(copy_pipeline_descriptor(format, true));
                self.copy_srgb_pipeline.insert(1, format, built)
            },
        }
    }

    /// The shape pipelines held in `slot`.
    pub fn pipeline(&self, slot: usize) -> (r: &Pipelines<P>)
        requires
            slot < self.pipeline_cache().entries().len(),
        ensures
            *r == self.pipeline_cache().entries()[slot as int],
    {
        self.pipelines.get(slot)
    }

    /// The plain copy pipeline held in `slot`.
    pub fn copy(&self, slot: usize) -> (r: &C)
        requires
            slot < self.copy_cache().entries().len(),
        ensures
            *r == self.copy_cache().entries()[slot as int],
    {
        self.copy_pipeline.get(slot)
    }

    /// The sRGB copy pipeline held in `slot`.
    pub fn copy_srgb(&self, slot: usize) -> (r: &C)
        requires
            slot < self.copy_srgb_cache().entries().len(),
        ensures
            *r == self.copy_srgb_cache().entries()[slot as int],
    {
        self.copy_srgb_pipeline.get(slot)
    }
}

} // verus!
