//! The render pipeline a splat is drawn with, as plain data.
//!
//! The pipeline is specialised per view (HDR target, sample count) and per
//! blend setting carried in the pipeline key. [`specialize_splat_pipeline`]
//! states the buffer layouts, blending and depth writes; the render world
//! turns them into a GPU pipeline descriptor.

use vstd::prelude::*;
use crate::quad::{quad_vertex_words, QuadVertex};
use crate::splat::{point_words, SplatPoint};
use crate::splat_material::SplatBlend;

verus! {

/// The blend setting carried in a mesh pipeline key.
#[derive(Clone, Copy, Debug, PartialEq, Eq, Hash)]
pub enum BlendKey {
    Opaque,
    PremultipliedAlpha,
    Alpha,
    /// Any other blend setting a key can carry.
    Other,
}

/// The key a splat's blend mode is queued with.
pub open spec fn blend_key_spec(blend: SplatBlend) -> BlendKey {
    match blend {
        SplatBlend::Additive => BlendKey::PremultipliedAlpha,
        SplatBlend::Alpha => BlendKey::Alpha,
        SplatBlend::Opaque => BlendKey::Opaque,
    }
}

/// The key a splat's blend mode is queued with: additive splats use the
/// premultiplied-alpha slot, alpha splats the alpha slot, opaque splats
/// none.
pub fn blend_key(blend: SplatBlend) -> (k: BlendKey)
    ensures
        k == blend_key_spec(blend),
{
    match blend {
        SplatBlend::Additive => BlendKey::PremultipliedAlpha,
        SplatBlend::Alpha => BlendKey::Alpha,
        SplatBlend::Opaque => BlendKey::Opaque,
    }
}

/// A factor of the blend equation.
#[derive(Clone, Copy, Debug, PartialEq, Eq)]
pub enum BlendFactor {
    Zero,
    One,
    SrcAlpha,
    OneMinusSrcAlpha,
}

/// The operation of the blend equation.
#[derive(Clone, Copy, Debug, PartialEq, Eq)]
pub enum BlendOperation {
    Add,
}

/// `result = src * src_factor (operation) dst * dst_factor`.
#[derive(Clone, Copy, Debug, PartialEq, Eq)]
pub struct BlendComponent {
    pub src_factor: BlendFactor,
    pub dst_factor: BlendFactor,
    pub operation: BlendOperation,
}

/// Blending of the color and of the alpha channel.
#[derive(Clone, Copy, Debug, PartialEq, Eq)]
pub struct BlendState {
    pub color: BlendComponent,
    pub alpha: BlendComponent,
}

/// Additive blending: color scaled by source alpha is added to what is
/// drawn; alpha accumulates.
pub open spec fn additive_blend() -> BlendState {
    BlendState {
        color: BlendComponent {
            src_factor: BlendFactor::SrcAlpha,
            dst_factor: BlendFactor::One,
            operation: BlendOperation::Add,
        },
        alpha: BlendComponent {
            src_factor: BlendFactor::One,
            dst_factor: BlendFactor::One,
            operation: BlendOperation::Add,
        },
    }
}

/// Standard (non-premultiplied) alpha blending.
pub open spec fn alpha_blending() -> BlendState {
    BlendState {
        color: BlendComponent {
            src_factor: BlendFactor::SrcAlpha,
            dst_factor: BlendFactor::OneMinusSrcAlpha,
            operation: BlendOperation::Add,
        },
        alpha: BlendComponent {
            src_factor: BlendFactor::One,
            dst_factor: BlendFactor::OneMinusSrcAlpha,
            operation: BlendOperation::Add,
        },
    }
}

/// The blending a key selects: additive for the premultiplied-alpha slot,
/// alpha blending for the alpha slot, none (replace) otherwise.
pub open spec fn pipeline_blend(key: BlendKey) -> Option<BlendState> {
    match key {
        BlendKey::PremultipliedAlpha => Some(additive_blend()),
        BlendKey::Alpha => Some(alpha_blending()),
        _ => None,
    }
}

/// Whether a key's pipeline writes depth: only when it does not blend.
pub open spec fn pipeline_depth_write(key: BlendKey) -> bool {
    pipeline_blend(key) is None
}

/// The layout of one vertex attribute.
#[derive(Clone, Copy, Debug, PartialEq, Eq)]
pub enum VertexFormat {
    Float32x2,
    Float32x4,
}

/// How many 32-bit words an attribute of `format` reads.
pub open spec fn format_words(format: VertexFormat) -> int {
    match format {
        VertexFormat::Float32x2 => 2,
        VertexFormat::Float32x4 => 4,
    }
}

/// Whether a buffer advances per vertex or per instance.
#[derive(Clone, Copy, Debug, PartialEq, Eq)]
pub enum StepMode {
    Vertex,
    Instance,
}

/// One attribute a vertex buffer feeds to the shader.
#[derive(Clone, Copy, Debug, PartialEq, Eq)]
pub struct VertexAttribute {
    pub format: VertexFormat,
    pub offset: u64,
    pub shader_location: u32,
}

/// One vertex buffer of the pipeline.
#[derive(Debug)]
pub struct VertexBufferLayout {
    pub array_stride: u64,
    pub step_mode: StepMode,
    pub attributes: Vec<VertexAttribute>,
}

/// The attributes of the quad buffer: the corner offset at location 0.
pub open spec fn quad_attributes() -> Seq<VertexAttribute> {
    seq![VertexAttribute { format: VertexFormat::Float32x2, offset: 0, shader_location: 0 }]
}

/// The attributes of the instance buffer: position and size at location 1,
/// color at location 2.
pub open spec fn instance_attributes() -> Seq<VertexAttribute> {
    seq![
        VertexAttribute { format: VertexFormat::Float32x4, offset: 0, shader_location: 1 },
        VertexAttribute { format: VertexFormat::Float32x4, offset: 16, shader_location: 2 },
    ]
}

/// How vertices are assembled into primitives.
#[derive(Clone, Copy, Debug, PartialEq, Eq)]
pub enum PrimitiveTopology {
    PointList,
    LineList,
    LineStrip,
    TriangleList,
    TriangleStrip,
}

/// The format of an index buffer.
#[derive(Clone, Copy, Debug, PartialEq, Eq)]
pub enum IndexFormat {
    Uint16,
    Uint32,
}

/// Which winding counts as the front of a triangle.
#[derive(Clone, Copy, Debug, PartialEq, Eq)]
pub enum FrontFace {
    Ccw,
    Cw,
}

/// A face of a triangle, for culling.
#[derive(Clone, Copy, Debug, PartialEq, Eq)]
pub enum Face {
    Front,
    Back,
}

/// How triangles are rasterised.
#[derive(Clone, Copy, Debug, PartialEq, Eq)]
pub enum PolygonMode {
    Fill,
    Line,
    Point,
}

/// How primitives are assembled and rasterised.
#[derive(Clone, Copy, Debug, PartialEq, Eq)]
pub struct PrimitiveState {
    pub topology: PrimitiveTopology,
    pub strip_index_format: Option<IndexFormat>,
    pub front_face: FrontFace,
    /// `None` culls no face.
    pub cull_mode: Option<Face>,
    pub unclipped_depth: bool,
    pub polygon_mode: PolygonMode,
    pub conservative: bool,
}

/// The comparison a fragment's depth must pass against the depth buffer.
#[derive(Clone, Copy, Debug, PartialEq, Eq)]
pub enum CompareFunction {
    Never,
    Less,
    Equal,
    LessEqual,
    Greater,
    NotEqual,
    GreaterEqual,
    Always,
}

/// Which color channels a fragment writes.
#[derive(Clone, Copy, Debug, PartialEq, Eq)]
pub struct ColorWrites {
    pub red: bool,
    pub green: bool,
    pub blue: bool,
    pub alpha: bool,
}

/// Splats are indexed triangle lists, counter-clockwise in front, with no
/// face culled (billboards are expanded in clip space), filled, depth
/// clipped, without conservative rasterisation.
pub open spec fn splat_primitive() -> PrimitiveState {
    PrimitiveState {
        topology: PrimitiveTopology::TriangleList,
        strip_index_format: None,
        front_face: FrontFace::Ccw,
        cull_mode: None,
        unclipped_depth: false,
        polygon_mode: PolygonMode::Fill,
        conservative: false,
    }
}

/// Every color channel.
pub open spec fn all_color_writes() -> ColorWrites {
    ColorWrites { red: true, green: true, blue: true, alpha: true }
}

/// Stride of the quad buffer: one 16-byte corner.
pub const QUAD_STRIDE: u64 = 16;

/// Stride of the instance buffer: one 32-byte point.
pub const INSTANCE_STRIDE: u64 = 32;

/// The pipeline a splat is drawn with, for one view and blend setting.
#[derive(Debug)]
pub struct SplatPipelineSpec {
    /// Render into the HDR target format (otherwise the default surface format).
    pub hdr_target: bool,
    pub sample_count: u32,
    /// The quad buffer, then the instance buffer.
    pub vertex_buffers: Vec<VertexBufferLayout>,
    /// `None` replaces what is drawn.
    pub blend: Option<BlendState>,
    pub depth_write: bool,
    pub primitive: PrimitiveState,
    /// The depth test (reverse-Z: nearer fragments have greater depth).
    pub depth_compare: CompareFunction,
    pub write_mask: ColorWrites,
    /// The multisample coverage mask.
    pub sample_mask: u64,
    pub alpha_to_coverage: bool,
}

/// What [`specialize_splat_pipeline`] returns for a view (`hdr` target,
/// `msaa_samples` samples) and a blend setting `key`.
pub open spec fn specialized(p: SplatPipelineSpec, hdr: bool, msaa_samples: u32, key: BlendKey) -> bool {
    &&& p.hdr_target == hdr
    &&& p.sample_count == msaa_samples
    &&& p.vertex_buffers@.len() == 2
    &&& p.vertex_buffers@[0].array_stride == QUAD_STRIDE
    &&& p.vertex_buffers@[0].step_mode == StepMode::Vertex
    &&& p.vertex_buffers@[0].attributes@ == quad_attributes()
    &&& p.vertex_buffers@[1].array_stride == INSTANCE_STRIDE
    &&& p.vertex_buffers@[1].step_mode == StepMode::Instance
    &&& p.vertex_buffers@[1].attributes@ == instance_attributes()
    &&& p.blend == pipeline_blend(key)
    &&& p.depth_write == pipeline_depth_write(key)
    &&& p.primitive == splat_primitive()
    &&& p.depth_compare == CompareFunction::GreaterEqual
    &&& p.write_mask == all_color_writes()
    &&& p.sample_mask == u64::MAX
    &&& !p.alpha_to_coverage
}

/// The pipeline for a view (`hdr` target, `msaa_samples` samples) and the
/// blend setting of its key: the quad buffer stepped per vertex and the
/// instance buffer stepped per instance, with blending and depth writes as
/// the key selects; triangle lists with no culling, the greater-or-equal
/// depth test, every color channel written, every sample covered.
pub fn specialize_splat_pipeline(hdr: bool, msaa_samples: u32, key: BlendKey) -> (p: SplatPipelineSpec)
    ensures
        specialized(p, hdr, msaa_samples, key),
        p.hdr_target == hdr,
        p.sample_count == msaa_samples,
        p.vertex_buffers@.len() == 2,
        p.vertex_buffers@[0].array_stride == QUAD_STRIDE,
        p.vertex_buffers@[0].step_mode == StepMode::Vertex,
        p.vertex_buffers@[0].attributes@ == quad_attributes(),
        p.vertex_buffers@[1].array_stride == INSTANCE_STRIDE,
        p.vertex_buffers@[1].step_mode == StepMode::Instance,
        p.vertex_buffers@[1].attributes@ == instance_attributes(),
        p.blend == pipeline_blend(key),
        p.depth_write == pipeline_depth_write(key),
        p.primitive == splat_primitive(),
        p.depth_compare == CompareFunction::GreaterEqual,
        p.write_mask == all_color_writes(),
        p.sample_mask == u64::MAX,
        !p.alpha_to_coverage,
{
    let quad_layout = VertexBufferLayout {
        array_stride: QUAD_STRIDE,
        step_mode: StepMode::Vertex,
        attributes: vec![VertexAttribute { format: VertexFormat::Float32x2, offset: 0, shader_location: 0 }],
    };
    let instance_layout = VertexBufferLayout {
        array_stride: INSTANCE_STRIDE,
        step_mode: StepMode::Instance,
        attributes: vec![
            VertexAttribute { format: VertexFormat::Float32x4, offset: 0, shader_location: 1 },
            VertexAttribute { format: VertexFormat::Float32x4, offset: 16, shader_location: 2 },
        ],
    };
    assert(quad_layout.attributes@ =~= quad_attributes());
    assert(instance_layout.attributes@ =~= instance_attributes());
    let (blend, depth_write) = match key {
        BlendKey::PremultipliedAlpha => (
            Some(BlendState {
                color: BlendComponent {
                    src_factor: BlendFactor::SrcAlpha,
                    dst_factor: BlendFactor::One,
                    operation: BlendOperation::Add,
                },
                alpha: BlendComponent {
                    src_factor: BlendFactor::One,
                    dst_factor: BlendFactor::One,
                    operation: BlendOperation::Add,
                },
            }),
            false,
        ),
        BlendKey::Alpha => (
            Some(BlendState {
                color: BlendComponent {
                    src_factor: BlendFactor::SrcAlpha,
                    dst_factor: BlendFactor::OneMinusSrcAlpha,
                    operation: BlendOperation::Add,
                },
                alpha: BlendComponent {
                    src_factor: BlendFactor::One,
                    dst_factor: BlendFactor::OneMinusSrcAlpha,
                    operation: BlendOperation::Add,
                },
            }),
            false,
        ),
        _ => (None, true),
    };
    let vertex_buffers = vec![quad_layout, instance_layout];
    let primitive = PrimitiveState {
        topology: PrimitiveTopology::TriangleList,
        strip_index_format: None,
        front_face: FrontFace::Ccw,
        cull_mode: None,
        unclipped_depth: false,
        polygon_mode: PolygonMode::Fill,
        conservative: false,
    };
    SplatPipelineSpec {
        hdr_target: hdr,
        sample_count: msaa_samples,
        vertex_buffers,
        blend,
        depth_write,
        primitive,
        depth_compare: CompareFunction::GreaterEqual,
        write_mask: ColorWrites { red: true, green: true, blue: true, alpha: true },
        sample_mask: u64::MAX,
        alpha_to_coverage: false,
    }
}

/// As the blend-mode table has it: additive and alpha splats blend and do
/// not write depth; opaque splats replace what is drawn and write depth;
/// additive splats add their color onto what is drawn.
pub proof fn law_depth_write_only_when_opaque(blend: SplatBlend)
    ensures
        pipeline_depth_write(blend_key_spec(blend)) == (blend == SplatBlend::Opaque),
        (pipeline_blend(blend_key_spec(blend)) is None) == (blend == SplatBlend::Opaque),
        blend == SplatBlend::Additive ==> pipeline_blend(blend_key_spec(blend)) == Some(additive_blend())
            && additive_blend().color.dst_factor == BlendFactor::One,
        blend == SplatBlend::Alpha ==> pipeline_blend(blend_key_spec(blend)) == Some(alpha_blending()),
{
}

/// The first 32-bit word of a record an attribute reads.
pub open spec fn first_word(a: VertexAttribute) -> int {
    a.offset as int / 4
}

/// One past the last 32-bit word of a record an attribute reads.
pub open spec fn end_word(a: VertexAttribute) -> int {
    first_word(a) + format_words(a.format)
}

/// The instance buffer's attributes read each uploaded point as packed:
/// the stride is the point's eight words, the attribute at location 1 reads
/// its position and size, the one at location 2 its color, and the two
/// together read every word once.
pub proof fn law_instance_layout_matches_points(p: SplatPoint)
    ensures
        INSTANCE_STRIDE == 4 * point_words(p).len(),
        first_word(instance_attributes()[0]) == 0,
        end_word(instance_attributes()[0]) == first_word(instance_attributes()[1]),
        end_word(instance_attributes()[1]) == point_words(p).len(),
        point_words(p).subrange(first_word(instance_attributes()[0]), end_word(instance_attributes()[0]))
            == seq![p.position@[0], p.position@[1], p.position@[2], p.size],
        point_words(p).subrange(first_word(instance_attributes()[1]), end_word(instance_attributes()[1]))
            == p.color@,
{
    assert(point_words(p).subrange(0, 4) =~= seq![p.position@[0], p.position@[1], p.position@[2], p.size]);
    assert(point_words(p).subrange(4, 8) =~= p.color@);
}

/// The quad buffer's single attribute reads each corner's offset, and the
/// stride is one padded corner.
pub proof fn law_quad_layout_matches_vertices(v: QuadVertex)
    ensures
        QUAD_STRIDE == 4 * quad_vertex_words(v).len(),
        quad_attributes().len() == 1,
        quad_vertex_words(v).subrange(first_word(quad_attributes()[0]), end_word(quad_attributes()[0]))
            == v.offset@,
{
    assert(quad_vertex_words(v).subrange(0, 2) =~= v.offset@);
}

/// Views differ only in their target format and sample count: for one
/// blend setting, every view gets the same blending, depth writes, vertex
/// buffers, primitive state, depth test and write mask.
pub proof fn law_view_settings_change_only_target(
    p1: SplatPipelineSpec,
    hdr1: bool,
    msaa1: u32,
    p2: SplatPipelineSpec,
    hdr2: bool,
    msaa2: u32,
    key: BlendKey,
)
    requires
        specialized(p1, hdr1, msaa1, key),
        specialized(p2, hdr2, msaa2, key),
    ensures
        p1.blend == p2.blend,
        p1.depth_write == p2.depth_write,
        p1.primitive == p2.primitive,
        p1.depth_compare == p2.depth_compare,
        p1.write_mask == p2.write_mask,
        p1.sample_mask == p2.sample_mask,
        p1.alpha_to_coverage == p2.alpha_to_coverage,
        p1.vertex_buffers@.len() == p2.vertex_buffers@.len(),
        forall|i: int|
            0 <= i < p1.vertex_buffers@.len() ==> {
                &&& #[trigger] p1.vertex_buffers@[i].array_stride == p2.vertex_buffers@[i].array_stride
                &&& p1.vertex_buffers@[i].step_mode == p2.vertex_buffers@[i].step_mode
                &&& p1.vertex_buffers@[i].attributes@ == p2.vertex_buffers@[i].attributes@
            },
{
    assert forall|i: int| 0 <= i < p1.vertex_buffers@.len() implies {
        &&& #[trigger] p1.vertex_buffers@[i].array_stride == p2.vertex_buffers@[i].array_stride
        &&& p1.vertex_buffers@[i].step_mode == p2.vertex_buffers@[i].step_mode
        &&& p1.vertex_buffers@[i].attributes@ == p2.vertex_buffers@[i].attributes@
    } by {
        if i == 0 {
        } else {
            assert(i == 1);
        }
    }
}

/// The value of a blend factor, in units of `1 / scale`, for a fragment of
/// source alpha `src_alpha` (between 0 and `scale`).
pub open spec fn factor_value(f: BlendFactor, src_alpha: int, scale: int) -> int {
    match f {
        BlendFactor::Zero => 0,
        BlendFactor::One => scale,
        BlendFactor::SrcAlpha => src_alpha,
        BlendFactor::OneMinusSrcAlpha => scale - src_alpha,
    }
}

/// What a blend component makes of a source value `src` over a destination
/// value `dst` (in units of `1 / scale`, times `scale`).
pub open spec fn blended(c: BlendComponent, src: int, dst: int, src_alpha: int, scale: int) -> int {
    match c.operation {
        BlendOperation::Add => src * factor_value(c.src_factor, src_alpha, scale) + dst * factor_value(
            c.dst_factor,
            src_alpha,
            scale,
        ),
    }
}

/// What each blend mode draws, with values in units of `1 / scale` and the
/// fragment's alpha `a`: alpha splats are composited over what is drawn
/// (`src·a + dst·(1 − a)`, and alpha `a + dst_alpha·(1 − a)`); additive
/// splats add their alpha-weighted color to it (`src·a + dst`) and
/// accumulate alpha; opaque splats do not blend.
pub proof fn law_blend_equations(src: int, dst: int, a: int, dst_alpha: int, scale: int)
    requires
        0 <= a <= scale,
    ensures
        ({
            let s = pipeline_blend(blend_key_spec(SplatBlend::Alpha));
            &&& s is Some
            &&& blended(s->0.color, src, dst, a, scale) == src * a + dst * (scale - a)
            &&& blended(s->0.alpha, a, dst_alpha, a, scale) == a * scale + dst_alpha * (scale - a)
        }),
        ({
            let s = pipeline_blend(blend_key_spec(SplatBlend::Additive));
            &&& s is Some
            &&& blended(s->0.color, src, dst, a, scale) == src * a + dst * scale
            &&& blended(s->0.alpha, a, dst_alpha, a, scale) == a * scale + dst_alpha * scale
        }),
        pipeline_blend(blend_key_spec(SplatBlend::Opaque)) is None,
{
}

} // verus!
