//! The passes that draw a source.

use vstd::prelude::*;
use crate::blur::{kawase_chain, kawase_run, KawaseStep, PingPong};
use crate::pipeline::{
    blurred_source, is_blurred_source, BlurTargets, PipelineState, VideoPipeline, VIDEO_ID_BLUR,
    VIDEO_ID_FROSTED,
};

verus! {

/// Which render pipeline a pass runs.
#[derive(Clone, Copy, Debug, PartialEq, Eq, Structural)]
pub enum PassShader {
    /// The preview's own shader: transform, fit and filter.
    Rgba,
    /// The transform alone, into the blur's first texture.
    BlurTransform,
    KawaseDown,
    KawaseUp,
    /// One sample, with dim, grain and rounded corners.
    FrostedComposite,
    /// The light blur ahead of a filter.
    Preblur,
}

/// What a pass renders into.
#[derive(Clone, Copy, Debug, PartialEq, Eq, Structural)]
pub enum PassTarget {
    Screen,
    Blur(PingPong),
    PreblurTexture,
}

/// What a pass finds in its target.
#[derive(Clone, Copy, Debug, PartialEq, Eq, Structural)]
pub enum PassLoad {
    /// What is there already.
    Keep,
    /// Nothing at all: the blur reads transparency as "outside the image".
    Transparent,
    Black,
}

/// Which part of its target a pass draws to.
#[derive(Clone, Copy, Debug, PartialEq, Eq, Structural)]
pub enum PassArea {
    Whole,
    /// The widget, cut to its visible part.
    Widget,
    /// The top left corner, so wide and so high.
    Corner(u32, u32),
}

/// What a pass samples, and with which arguments.
#[derive(Clone, Copy, Debug, PartialEq, Eq, Structural)]
pub enum PassBinding {
    /// The source's texture, with the filter's arguments.
    Source,
    /// What the step before it drew.
    BlurStep(u32),
    /// The blur, with the arguments that every panel shares.
    SharedComposite,
    /// The blur, with the panel's own arguments.
    OwnComposite,
    /// The pre-blurred image, with the panel's own arguments.
    OwnPreblur,
}

/// One full-screen triangle.
#[derive(Clone, Copy, Debug, PartialEq, Eq, Structural)]
pub struct DrawPass {
    pub shader: PassShader,
    pub target: PassTarget,
    pub load: PassLoad,
    pub area: PassArea,
    pub binding: PassBinding,
}

/// What a widget asks to have drawn.
#[derive(Clone, Copy, Debug, PartialEq, Eq, Structural)]
pub struct DrawRequest {
    pub video_id: u64,
    pub filter_mode: u32,
    /// The filter works on a pre-blurred image.
    pub needs_preblur: bool,
    /// Blur passes asked for.
    pub passes: u32,
    /// Size of the visible part.
    pub clip_width: u32,
    pub clip_height: u32,
    /// The widget brings a binding of its own for the composite.
    pub own_composite: bool,
    /// The widget brings a binding of its own for the filter.
    pub own_preblur: bool,
}

/// A pass over the preview, on top of what is on the screen.
pub open spec fn screen_pass(shader: PassShader, binding: PassBinding) -> DrawPass {
    DrawPass {
        shader,
        target: PassTarget::Screen,
        load: PassLoad::Keep,
        area: PassArea::Widget,
        binding,
    }
}

/// The transform of the source into the blur's first texture.
pub open spec fn transform_pass() -> DrawPass {
    DrawPass {
        shader: PassShader::BlurTransform,
        target: PassTarget::Blur(PingPong::A),
        load: PassLoad::Transparent,
        area: PassArea::Whole,
        binding: PassBinding::Source,
    }
}

/// Step `k` of a blur.
pub open spec fn blur_step_pass(step: KawaseStep, k: int) -> DrawPass {
    DrawPass {
        shader: if step.downsample {
            PassShader::KawaseDown
        } else {
            PassShader::KawaseUp
        },
        target: PassTarget::Blur(step.target),
        load: PassLoad::Transparent,
        area: PassArea::Corner(step.target_width, step.target_height),
        binding: PassBinding::BlurStep(k as u32),
    }
}

/// The steps of a blur.
pub open spec fn blur_step_passes(steps: Seq<KawaseStep>) -> Seq<DrawPass> {
    Seq::new(steps.len(), |k: int| blur_step_pass(steps[k], k))
}

/// The blur of a source, from its frame to the blur's first texture.
pub open spec fn blur_passes(targets: BlurTargets, passes: u32) -> Seq<DrawPass> {
    seq![transform_pass()] + blur_step_passes(kawase_run(targets.width, targets.height, passes))
}

/// The last pass of a blur.
pub open spec fn composite_draw(own: bool) -> DrawPass {
    screen_pass(
        PassShader::FrostedComposite,
        if own {
            PassBinding::OwnComposite
        } else {
            PassBinding::SharedComposite
        },
    )
}

/// The pre-blur of a source.
pub open spec fn preblur_pass() -> DrawPass {
    DrawPass {
        shader: PassShader::Preblur,
        target: PassTarget::PreblurTexture,
        load: PassLoad::Black,
        area: PassArea::Whole,
        binding: PassBinding::Source,
    }
}

impl PipelineState {
    /// A request that there is something to draw for: its binding exists, and
    /// part of it is visible.
    pub open spec fn drawable(self, request: DrawRequest) -> bool {
        &&& self.bindings.contains((request.video_id, request.filter_mode))
        &&& request.clip_width != 0
        &&& request.clip_height != 0
    }

    /// The passes that a request takes.
    pub open spec fn draw_passes(self, request: DrawRequest) -> Seq<DrawPass> {
        let id = request.video_id;
        if !self.drawable(request) {
            seq![]
        } else if blurred_source(id) {
            if !self.blur_targets.contains_key(id) {
                seq![screen_pass(PassShader::BlurTransform, PassBinding::Source)]
            } else if self.blur_targets[id].cached {
                seq![composite_draw(request.own_composite)]
            } else {
                blur_passes(self.blur_targets[id], request.passes).push(
                    composite_draw(request.own_composite),
                )
            }
        } else if request.needs_preblur {
            if self.preblur is None {
                seq![]
            } else {
                seq![
                    preblur_pass(),
                    screen_pass(
                        PassShader::Rgba,
                        if request.own_preblur {
                            PassBinding::OwnPreblur
                        } else {
                            PassBinding::Source
                        },
                    ),
                ]
            }
        } else {
            seq![screen_pass(PassShader::Rgba, PassBinding::Source)]
        }
    }

    /// After a request was drawn: a blur that was run is kept.
    pub open spec fn after_draw(self, request: DrawRequest) -> PipelineState {
        let id = request.video_id;
        if self.drawable(request) && blurred_source(id) && self.blur_targets.contains_key(id) {
            PipelineState {
                blur_targets: self.blur_targets.insert(
                    id,
                    BlurTargets { cached: true, ..self.blur_targets[id] },
                ),
                ..self
            }
        } else {
            self
        }
    }
}

fn on_screen(shader: PassShader, binding: PassBinding) -> (pass: DrawPass)
    ensures
        pass == screen_pass(shader, binding),
{
    DrawPass {
        shader,
        target: PassTarget::Screen,
        load: PassLoad::Keep,
        area: PassArea::Widget,
        binding,
    }
}

/// Adds the passes of a whole blur.
fn push_blur(draws: &mut Vec<DrawPass>, targets: &BlurTargets, passes: u32)
    ensures
        final(draws)@ == old(draws)@ + blur_passes(*targets, passes),
{
    let ghost before = draws@;
    draws.push(
        DrawPass {
            shader: PassShader::BlurTransform,
            target: PassTarget::Blur(PingPong::A),
            load: PassLoad::Transparent,
            area: PassArea::Whole,
            binding: PassBinding::Source,
        },
    );
    let steps = kawase_chain(targets.width, targets.height, passes);
    let ghost run = kawase_run(targets.width, targets.height, passes);
    let mut k: usize = 0;
    while k < steps.len()
        invariant
            k <= steps@.len() <= 62,
            steps@ == run,
            draws@ == before.push(transform_pass()) + blur_step_passes(run.take(k as int)),
        decreases steps@.len() - k,
    {
        let step: KawaseStep = steps[k];
        draws.push(
            DrawPass {
                shader: if step.downsample {
                    PassShader::KawaseDown
                } else {
                    PassShader::KawaseUp
                },
                target: PassTarget::Blur(step.target),
                load: PassLoad::Transparent,
                area: PassArea::Corner(step.target_width, step.target_height),
                binding: PassBinding::BlurStep(k as u32),
            },
        );
        assert(blur_step_passes(run.take(k + 1)) =~= blur_step_passes(run.take(k as int)).push(
            blur_step_pass(run[k as int], k as int),
        ));
        k = k + 1;
        assert(draws@ =~= before.push(transform_pass()) + blur_step_passes(run.take(k as int)));
    }
    assert(run.take(k as int) =~= run);
    assert(draws@ =~= before + blur_passes(*targets, passes));
}

impl VideoPipeline {
    /// Plans the passes of a request. A blur that has been run for the current
    /// frame is not run again: every panel after the first only composites it.
    pub fn render(&mut self, request: &DrawRequest) -> (draws: Vec<DrawPass>)
        requires
            old(self).wf(),
        ensures
            final(self).wf(),
            final(self)@ == old(self)@.after_draw(*request),
            draws@ == old(self)@.draw_passes(*request),
    {
        let mut draws: Vec<DrawPass> = Vec::new();
        let id: u64 = request.video_id;
        if !self.has_binding(id, request.filter_mode) {
            return draws;
        }
        if request.clip_width == 0 || request.clip_height == 0 {
            return draws;
        }
        if is_blurred_source(id) {
            let known: Option<BlurTargets> = match self.blur_targets.get(&id) {
                Some(targets) => Some(*targets),
                None => None,
            };
            let Some(targets) = known else {
                draws.push(on_screen(PassShader::BlurTransform, PassBinding::Source));
                assert(draws@ =~= old(self)@.draw_passes(*request));
                return draws;
            };
            if !targets.cached {
                push_blur(&mut draws, &targets, request.passes);
            }
            self.blur_targets.insert(
                id,
                BlurTargets { width: targets.width, height: targets.height, cached: true },
            );
            assert(self@ =~= old(self)@.after_draw(*request));
            draws.push(
                on_screen(
                    PassShader::FrostedComposite,
                    if request.own_composite {
                        PassBinding::OwnComposite
                    } else {
                        PassBinding::SharedComposite
                    },
                ),
            );
        } else if request.needs_preblur {
            if self.preblur.is_some() {
                draws.push(
                    DrawPass {
                        shader: PassShader::Preblur,
                        target: PassTarget::PreblurTexture,
                        load: PassLoad::Black,
                        area: PassArea::Whole,
                        binding: PassBinding::Source,
                    },
                );
                draws.push(
                    on_screen(
                        PassShader::Rgba,
                        if request.own_preblur {
                            PassBinding::OwnPreblur
                        } else {
                            PassBinding::Source
                        },
                    ),
                );
            }
        } else {
            draws.push(on_screen(PassShader::Rgba, PassBinding::Source));
        }
        assert(draws@ =~= old(self)@.draw_passes(*request));
        draws
    }
}

/// Within a frame the blur of a source runs once: whatever is drawn after the
/// first panel only composites.
pub proof fn law_blur_runs_once_per_frame(
    state: PipelineState,
    first: DrawRequest,
    later: DrawRequest,
)
    requires
        blurred_source(first.video_id),
        state.blur_targets.contains_key(first.video_id),
        state.drawable(first),
        state.drawable(later),
        later.video_id == first.video_id,
    ensures
        state.after_draw(first).draw_passes(later) == seq![composite_draw(later.own_composite)],
        state.after_draw(first).after_draw(later) == state.after_draw(first),
{
    assert(state.after_draw(first).after_draw(later) =~= state.after_draw(first));
}

/// After a new frame the blur runs again.
pub proof fn law_new_frames_are_blurred(state: PipelineState, request: DrawRequest)
    requires
        blurred_source(request.video_id),
        state.blur_targets.contains_key(request.video_id),
        state.drawable(request),
    ensures
        state.after_invalidation(request.video_id).draw_passes(request) == blur_passes(
            state.blur_targets[request.video_id],
            request.passes,
        ).push(composite_draw(request.own_composite)),
{
    let fresh = state.after_invalidation(request.video_id);
    assert(blur_passes(fresh.blur_targets[request.video_id], request.passes) == blur_passes(
        state.blur_targets[request.video_id],
        request.passes,
    ));
}

/// The two blurred sources never draw each other's blur: drawing one leaves the
/// passes of the other unchanged.
pub proof fn law_sources_do_not_share_a_blur(
    state: PipelineState,
    drawn: DrawRequest,
    other: DrawRequest,
)
    requires
        drawn.video_id != other.video_id,
    ensures
        state.after_draw(drawn).draw_passes(other) == state.draw_passes(other),
{
    if state.blur_targets.contains_key(other.video_id) {
        assert(state.after_draw(drawn).blur_targets[other.video_id]
            == state.blur_targets[other.video_id]);
    }
}

/// Whatever is drawn, the screen changes in the last pass alone, which keeps
/// what is under it; every pass before that clears an intermediate first.
pub proof fn law_only_the_last_pass_reaches_the_screen(
    state: PipelineState,
    request: DrawRequest,
    k: int,
)
    requires
        0 <= k < state.draw_passes(request).len(),
    ensures
        ({
            let passes = state.draw_passes(request);
            let pass = passes[k];
            if k == passes.len() - 1 {
                pass.target is Screen && pass.load is Keep && pass.area is Widget
            } else {
                !(pass.target is Screen) && !(pass.load is Keep) && !(pass.area is Widget)
            }
        }),
{
}

/// A blur draws exactly the steps that arguments were worked out for, each with
/// its own and into the part that the next one samples; before them comes the
/// transform, and nothing after.
pub proof fn law_blur_draws_its_steps(targets: BlurTargets, passes: u32, k: int)
    requires
        0 <= k < kawase_run(targets.width, targets.height, passes).len(),
    ensures
        ({
            let run = kawase_run(targets.width, targets.height, passes);
            let draws = blur_passes(targets, passes);
            &&& draws.len() == run.len() + 1
            &&& draws[0] == transform_pass()
            &&& draws[k + 1].binding == PassBinding::BlurStep(k as u32)
            &&& draws[k + 1].target == PassTarget::Blur(run[k].target)
            &&& draws[k + 1].area == PassArea::Corner(run[k].target_width, run[k].target_height)
            &&& draws[k + 1].shader is KawaseDown <==> run[k].downsample
        }),
{
}

/// What the screen gets: nothing where nothing is bound or visible; the preview in
/// one pass with its filter; a pre-blurred filter in two, and in none while there is
/// no texture for the first; the frosted backdrop and the transition from their blur,
/// and straight from the source while there is no blur.
pub proof fn law_what_is_drawn(state: PipelineState, request: DrawRequest)
    ensures
        ({
            let passes = state.draw_passes(request);
            let id = request.video_id;
            let through_blur = id == VIDEO_ID_BLUR || id == VIDEO_ID_FROSTED;
            let bound = state.bindings.contains((id, request.filter_mode));
            let shown = bound && request.clip_width > 0 && request.clip_height > 0;
            let targets = state.blur_targets[id];
            &&& !shown ==> passes.len() == 0
            &&& shown && !through_blur && !request.needs_preblur ==> {
                &&& passes.len() == 1
                &&& passes[0].shader is Rgba && passes[0].binding is Source
            }
            &&& shown && !through_blur && request.needs_preblur && state.preblur is None
                ==> passes.len() == 0
            &&& shown && !through_blur && request.needs_preblur && state.preblur is Some ==> {
                &&& passes.len() == 2
                &&& passes[0].shader is Preblur && passes[0].binding is Source
                &&& passes[0].target is PreblurTexture && passes[0].load is Black
                &&& passes[1].shader is Rgba
                &&& request.own_preblur ==> passes[1].binding is OwnPreblur
                &&& !request.own_preblur ==> passes[1].binding is Source
            }
            &&& shown && through_blur && !state.blur_targets.contains_key(id) ==> {
                &&& passes.len() == 1
                &&& passes[0].shader is BlurTransform && passes[0].binding is Source
            }
            &&& shown && through_blur && state.blur_targets.contains_key(id) ==> {
                let last = passes[passes.len() - 1];
                &&& passes.len() == (if targets.cached {
                    1nat
                } else {
                    2 + kawase_run(targets.width, targets.height, request.passes).len()
                })
                &&& last.shader is FrostedComposite
                &&& request.own_composite ==> last.binding is OwnComposite
                &&& !request.own_composite ==> last.binding is SharedComposite
            }
        }),
{
}

/// A blur that is run starts from the source, in the texture where every run ends,
/// over nothing; its steps come in order, down before up, each over nothing too.
pub proof fn law_how_a_blur_is_run(state: PipelineState, request: DrawRequest, k: int)
    requires
        request.video_id == VIDEO_ID_BLUR || request.video_id == VIDEO_ID_FROSTED,
        state.bindings.contains((request.video_id, request.filter_mode)),
        request.clip_width > 0,
        request.clip_height > 0,
        state.blur_targets.contains_key(request.video_id),
        !state.blur_targets[request.video_id].cached,
        0 < k < state.draw_passes(request).len() - 1,
    ensures
        ({
            let passes = state.draw_passes(request);
            let targets = state.blur_targets[request.video_id];
            let steps = kawase_run(targets.width, targets.height, request.passes);
            &&& passes[0].shader is BlurTransform && passes[0].binding is Source
            &&& passes[0].target == PassTarget::Blur(PingPong::A)
            &&& passes[0].load is Transparent && passes[0].area is Whole
            &&& passes[k].binding == PassBinding::BlurStep((k - 1) as u32)
            &&& passes[k].target == PassTarget::Blur(steps[k - 1].target)
            &&& passes[k].area == PassArea::Corner(
                steps[k - 1].target_width,
                steps[k - 1].target_height,
            )
            &&& passes[k].load is Transparent
            &&& steps[k - 1].downsample ==> passes[k].shader is KawaseDown
            &&& !steps[k - 1].downsample ==> passes[k].shader is KawaseUp
        }),
{
    let targets = state.blur_targets[request.video_id];
    law_blur_draws_its_steps(targets, request.passes, k - 1);
}

/// What is drawn from a blur keeps it for the rest of the frame, at the size that it
/// has; nothing else changes, and drawing anything else changes nothing.
pub proof fn law_drawing_keeps_the_blur(state: PipelineState, request: DrawRequest)
    ensures
        ({
            let after = state.after_draw(request);
            let id = request.video_id;
            let drawn = state.bindings.contains((id, request.filter_mode)) && request.clip_width > 0
                && request.clip_height > 0;
            let blurred = (id == VIDEO_ID_BLUR || id == VIDEO_ID_FROSTED)
                && state.blur_targets.contains_key(id);
            &&& drawn && blurred ==> {
                &&& after.blur_targets.contains_key(id)
                &&& after.blur_targets[id].cached
                &&& after.blur_targets[id].width == state.blur_targets[id].width
                &&& after.blur_targets[id].height == state.blur_targets[id].height
            }
            &&& !(drawn && blurred) ==> after == state
            &&& after.textures == state.textures
            &&& after.bindings == state.bindings
            &&& after.preblur == state.preblur
            &&& after.planes == state.planes
        }),
{
}

} // verus!
