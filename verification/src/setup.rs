//! How the render pipelines are put together.

use vstd::prelude::*;
use crate::blur::{kawase_run, PingPong, MAX_KAWASE_PASSES};
use crate::draw::PassShader;

verus! {

/// A piece of shader source.
#[derive(Clone, Copy, Debug, PartialEq, Eq, Structural)]
pub enum ShaderPart {
    /// Filters of a single colour.
    Filters,
    /// Filters that sample around a pixel. They call the former.
    TextureFilters,
    /// Rounded rectangles.
    Geometry,
    VideoBody,
    BlurBody,
    KawaseBody,
    FrostedBody,
    PreblurBody,
}

/// How a pass mixes with what is under it.
#[derive(Clone, Copy, Debug, PartialEq, Eq, Structural)]
pub enum Blend {
    Alpha,
    Replace,
}

/// Which bind group layout a pipeline takes.
#[derive(Clone, Copy, Debug, PartialEq, Eq, Structural)]
pub enum Layout {
    /// A source's texture and its filter's arguments.
    Source,
    /// One of the blur's textures and a step's arguments.
    Blur,
}

/// A slot of a bind group.
#[derive(Clone, Copy, Debug, PartialEq, Eq, Structural)]
pub enum Slot {
    /// A texture; `filtered` where it is sampled between texels.
    Texture { filtered: bool },
    FilteringSampler,
    Uniform,
    /// The RGBA texture that a conversion writes.
    Output,
}

/// How one render pipeline is built.
#[derive(Debug)]
pub struct PipelineRecipe {
    pub parts: Vec<ShaderPart>,
    pub fragment_entry: &'static str,
    pub blend: Blend,
    pub layout: Layout,
}

/// The pieces of a shader, callees first.
pub open spec fn shader_parts(shader: PassShader) -> Seq<ShaderPart> {
    match shader {
        PassShader::Rgba => seq![
            ShaderPart::Filters,
            ShaderPart::TextureFilters,
            ShaderPart::Geometry,
            ShaderPart::VideoBody,
        ],
        PassShader::BlurTransform => seq![
            ShaderPart::Filters,
            ShaderPart::TextureFilters,
            ShaderPart::BlurBody,
        ],
        PassShader::KawaseDown => seq![ShaderPart::KawaseBody],
        PassShader::KawaseUp => seq![ShaderPart::KawaseBody],
        PassShader::FrostedComposite => seq![ShaderPart::Geometry, ShaderPart::FrostedBody],
        PassShader::Preblur => seq![ShaderPart::PreblurBody],
    }
}

/// The fragment stage of a shader. Both Kawase kernels stand in one module.
pub open spec fn fragment_entry(shader: PassShader) -> &'static str {
    match shader {
        PassShader::KawaseDown => "fs_down",
        PassShader::KawaseUp => "fs_up",
        _ => "fs_main",
    }
}

/// How a pass mixes with what is under it.
pub open spec fn blend_of(shader: PassShader) -> Blend {
    match shader {
        PassShader::KawaseDown | PassShader::KawaseUp | PassShader::Preblur => Blend::Replace,
        _ => Blend::Alpha,
    }
}

/// The bind group layout of a pass.
pub open spec fn layout_of(shader: PassShader) -> Layout {
    match shader {
        PassShader::Rgba | PassShader::Preblur => Layout::Source,
        _ => Layout::Blur,
    }
}

/// How the pipeline of a pass is built.
pub fn pipeline_recipe(shader: PassShader) -> (recipe: PipelineRecipe)
    ensures
        recipe.parts@ == shader_parts(shader),
        recipe.fragment_entry == fragment_entry(shader),
        recipe.blend == blend_of(shader),
        recipe.layout == layout_of(shader),
{
    match shader {
        PassShader::Rgba => PipelineRecipe {
            parts: vec![
                ShaderPart::Filters,
                ShaderPart::TextureFilters,
                ShaderPart::Geometry,
                ShaderPart::VideoBody,
            ],
            fragment_entry: "fs_main",
            blend: Blend::Alpha,
            layout: Layout::Source,
        },
        PassShader::BlurTransform => PipelineRecipe {
            parts: vec![ShaderPart::Filters, ShaderPart::TextureFilters, ShaderPart::BlurBody],
            fragment_entry: "fs_main",
            blend: Blend::Alpha,
            layout: Layout::Blur,
        },
        PassShader::KawaseDown => PipelineRecipe {
            parts: vec![ShaderPart::KawaseBody],
            fragment_entry: "fs_down",
            blend: Blend::Replace,
            layout: Layout::Blur,
        },
        PassShader::KawaseUp => PipelineRecipe {
            parts: vec![ShaderPart::KawaseBody],
            fragment_entry: "fs_up",
            blend: Blend::Replace,
            layout: Layout::Blur,
        },
        PassShader::FrostedComposite => PipelineRecipe {
            parts: vec![ShaderPart::Geometry, ShaderPart::FrostedBody],
            fragment_entry: "fs_main",
            blend: Blend::Alpha,
            layout: Layout::Blur,
        },
        PassShader::Preblur => PipelineRecipe {
            parts: vec![ShaderPart::PreblurBody],
            fragment_entry: "fs_main",
            blend: Blend::Replace,
            layout: Layout::Source,
        },
    }
}

/// The slots of a render bind group, in both layouts.
pub open spec fn render_slot_list() -> Seq<Slot> {
    seq![Slot::Texture { filtered: true }, Slot::FilteringSampler, Slot::Uniform]
}

/// The slots of the conversion's bind group.
pub open spec fn conversion_slot_list() -> Seq<Slot> {
    seq![
        Slot::Texture { filtered: false },
        Slot::Texture { filtered: false },
        Slot::Texture { filtered: false },
        Slot::Output,
        Slot::Uniform,
    ]
}

/// The slots of a render bind group, in both layouts.
pub fn render_slots() -> (slots: Vec<Slot>)
    ensures
        slots@ == render_slot_list(),
{
    vec![Slot::Texture { filtered: true }, Slot::FilteringSampler, Slot::Uniform]
}

/// The slots of the conversion's bind group: luma, chroma, second chroma, what
/// it writes, and its arguments.
pub fn conversion_slots() -> (slots: Vec<Slot>)
    ensures
        slots@ == conversion_slot_list(),
{
    vec![
        Slot::Texture { filtered: false },
        Slot::Texture { filtered: false },
        Slot::Texture { filtered: false },
        Slot::Output,
        Slot::Uniform,
    ]
}

/// The sources one after the other, a line break between them.
pub open spec fn joined(sources: Seq<Seq<char>>) -> Seq<char>
    decreases sources.len(),
{
    if sources.len() == 0 {
        Seq::empty()
    } else if sources.len() == 1 {
        sources[0]
    } else {
        joined(sources.drop_last()) + "\n"@ + sources.last()
    }
}

/// Puts the source of a module together.
pub fn compose_source(sources: &Vec<String>) -> (source: String)
    ensures
        source@ == joined(sources@.map_values(|part: String| part@)),
{
    let ghost parts = sources@.map_values(|part: String| part@);
    let mut source: String = String::new();
    let mut i: usize = 0;
    while i < sources.len()
        invariant
            i <= sources@.len(),
            parts == sources@.map_values(|part: String| part@),
            source@ == joined(parts.take(i as int)),
        decreases sources@.len() - i,
    {
        proof {
            assert(parts.take(i + 1).drop_last() =~= parts.take(i as int));
            assert(parts.take(i + 1).last() == sources@[i as int]@);
            if i == 0 {
                assert(joined(parts.take(0)) =~= Seq::<char>::empty());
            }
        }
        if i > 0 {
            source.append("\n");
        }
        source.append(sources[i].as_str());
        i = i + 1;
        assert(source@ =~= joined(parts.take(i as int)));
    }
    assert(parts.take(i as int) =~= parts);
    source
}

/// The texture that allocated blur step `k` samples.
pub open spec fn step_source(k: int) -> PingPong {
    if k % 2 == 0 {
        PingPong::A
    } else {
        PingPong::B
    }
}

/// The texture that each blur step samples, for as many steps as any blur takes.
pub fn allocated_step_sources() -> (sources: Vec<PingPong>)
    ensures
        sources@.len() == 2 * MAX_KAWASE_PASSES,
        forall|k: int| 0 <= k < sources@.len() ==> #[trigger] sources@[k] == step_source(k),
{
    let mut sources: Vec<PingPong> = Vec::new();
    let mut k: u32 = 0;
    while k < 2 * MAX_KAWASE_PASSES
        invariant
            k <= 2 * MAX_KAWASE_PASSES,
            sources@.len() == k,
            forall|j: int| 0 <= j < sources@.len() ==> #[trigger] sources@[j] == step_source(j),
        decreases 2 * MAX_KAWASE_PASSES - k,
    {
        sources.push(if k % 2 == 0 { PingPong::A } else { PingPong::B });
        k = k + 1;
    }
    sources
}

/// Whatever blur is asked for, on whatever target, every step of it is
/// allocated and samples the texture that its allocation is bound to.
pub proof fn law_allocation_covers_every_blur(width: u32, height: u32, passes: u32, k: int)
    requires
        0 <= k < kawase_run(width, height, passes).len(),
    ensures
        k < 2 * MAX_KAWASE_PASSES,
        kawase_run(width, height, passes)[k].source == step_source(k),
{
}

/// A module's body comes last, and the filters that sample around a pixel come
/// after the filters that they call.
pub proof fn law_callees_come_first(shader: PassShader, k: int)
    requires
        0 <= k < shader_parts(shader).len(),
    ensures
        k == shader_parts(shader).len() - 1 <==> !(shader_parts(shader)[k] is Filters
            || shader_parts(shader)[k] is TextureFilters || shader_parts(shader)[k] is Geometry),
        shader_parts(shader)[k] is TextureFilters ==> k == 1 && shader_parts(shader)[0] is Filters,
{
}

/// What a pass does decides what it is made of: only what rounds corners carries the
/// geometry, only what filters a source carries the filters, and every pass has a
/// body of its own but for the two kernels of the blur, which share one and differ
/// in where they start.
pub proof fn law_passes_carry_what_they_need(shader: PassShader)
    ensures
        ({
            let parts = shader_parts(shader);
            let filters = shader is Rgba || shader is BlurTransform;
            let rounds = shader is Rgba || shader is FrostedComposite;
            let kernel = shader is KawaseDown || shader is KawaseUp;
            let body = parts[parts.len() - 1];
            &&& parts.contains(ShaderPart::Filters) <==> filters
            &&& parts.contains(ShaderPart::TextureFilters) <==> filters
            &&& parts.contains(ShaderPart::Geometry) <==> rounds
            &&& body is VideoBody <==> shader is Rgba
            &&& body is BlurBody <==> shader is BlurTransform
            &&& body is KawaseBody <==> kernel
            &&& body is FrostedBody <==> shader is FrostedComposite
            &&& body is PreblurBody <==> shader is Preblur
            &&& shader is KawaseDown ==> fragment_entry(shader)@ == "fs_down"@
            &&& shader is KawaseUp ==> fragment_entry(shader)@ == "fs_up"@
            &&& !kernel ==> fragment_entry(shader)@ == "fs_main"@
            &&& blend_of(shader) is Replace <==> kernel || shader is Preblur
            &&& layout_of(shader) is Source <==> shader is Rgba || shader is Preblur
        }),
{
    let parts = shader_parts(shader);
    if shader is Rgba {
        assert(parts[0] is Filters && parts[1] is TextureFilters && parts[2] is Geometry);
    } else if shader is BlurTransform {
        assert(parts[0] is Filters && parts[1] is TextureFilters);
    } else if shader is FrostedComposite {
        assert(parts[0] is Geometry);
    }
}

/// A bind group has its slots where the shaders declare them: the texture, sampled
/// between texels, its sampler, and the arguments; for a conversion the three planes
/// texel by texel, what it writes, and the arguments.
pub proof fn law_slots_stand_where_shaders_look()
    ensures
        render_slot_list().len() == 3,
        render_slot_list()[0] == (Slot::Texture { filtered: true }),
        render_slot_list()[1] is FilteringSampler,
        render_slot_list()[2] is Uniform,
        conversion_slot_list().len() == 5,
        forall|k: int| 0 <= k < 3 ==> #[trigger] conversion_slot_list()[k] == (Slot::Texture {
            filtered: false,
        }),
        conversion_slot_list()[3] is Output,
        conversion_slot_list()[4] is Uniform,
{
}

/// Sources stay whole and in order: the text of every one stands in what they are put
/// together to, right after a line break or at the start.
pub proof fn law_sources_stay_whole(before: Seq<Seq<char>>, source: Seq<char>)
    ensures
        before.len() == 0 ==> joined(before.push(source)) == source,
        before.len() > 0 ==> joined(before.push(source)) == joined(before) + seq!['\n'] + source,
{
    assert(before.push(source).drop_last() =~= before);
    reveal_strlit("\n");
    assert("\n"@ =~= seq!['\n']);
}

/// Each allocated step samples the other texture than the one before it, the first
/// the one that the transform fills.
pub proof fn law_steps_alternate(k: int)
    requires
        k >= 0,
    ensures
        step_source(0) is A,
        step_source(k) != step_source(k + 1),
{
}

} // verus!
