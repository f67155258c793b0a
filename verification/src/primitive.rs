//! A widget that shows a source, and what it takes to draw it.

use vstd::prelude::*;
use crate::bits::{law_whole_numbers_have_a_single, F32, ONE_BITS};
use crate::blur::{
    kawase_chain, kawase_run, run_offsets, step_offsets, transition_blur, transition_blur_params,
    CompositorBlurParams, KawaseStep, StepOffset,
};
use crate::draw::{
    blur_passes, composite_draw, preblur_pass, screen_pass, DrawRequest, PassBinding, PassShader,
};
use crate::frame::{at_least_one, VideoFrame};
use crate::insets::BarInsets;
use crate::pipeline::{
    blurred_source, is_blurred_source, shared_texture, source_texture_id, upload_answers,
    BindingOutcome, PipelineState, UploadAction, VideoPipeline, VIDEO_ID_BLUR,
    VIDEO_ID_FILTER_PREVIEW, VIDEO_ID_FROSTED, VIDEO_ID_NORMAL,
};
use crate::uniform::{
    black, composite_pass, composite_uniform, filter_pass, filter_uniform, full_content_rect,
    law_composite_words, law_plain_words, law_preview_words, law_source_words, preview_pass,
    preview_uniform, round_corners, rounded_pass, source_pass, source_uniform,
    CornerCut, PreviewFit, SourceTransform, ViewportUniform, VisiblePart, FROSTED_NOISE_BITS,
    TRANSITION_DIM_BITS,
};

verus! {

/// A filter as the shaders know it.
#[derive(Clone, Copy, Debug, PartialEq, Eq, Structural)]
pub struct FilterType {
    pub gpu_code: u32,
    /// It works on a pre-blurred image.
    pub preblur: bool,
}

impl FilterType {
    /// No filter.
    pub open spec fn standard_value() -> FilterType {
        FilterType { gpu_code: 0, preblur: false }
    }

    /// No filter.
    #[verifier::when_used_as_spec(standard_value)]
    pub fn standard() -> (filter: FilterType)
        ensures
            filter == FilterType::standard_value(),
    {
        FilterType { gpu_code: 0, preblur: false }
    }
}

/// What a widget shows, and where it was last laid out.
#[derive(Debug)]
pub struct FrameViewportData {
    pub frame: Option<VideoFrame>,
    pub viewport: PreviewFit,
    /// The widget in physical pixels, cut to the render target.
    pub physical_bounds: Option<(F32, F32, F32, F32)>,
    pub visible: VisiblePart,
    /// The whole preview in physical pixels, for the frosted backdrop.
    pub frosted_full_physical: Option<(F32, F32, F32, F32)>,
    /// The widget's own arguments for the blur's last pass are in place.
    pub frosted_final_binding: bool,
    /// The widget's own arguments for a pre-blurred filter are in place.
    pub preblur_binding: bool,
}

impl FrameViewportData {
    /// Nothing to show, nowhere to show it.
    pub open spec fn blank(self) -> bool {
        &&& self.frame is None
        &&& self.viewport == (PreviewFit {
            width: F32::zero(),
            height: F32::zero(),
            cover_blend: F32::zero(),
            insets: BarInsets {
                top: F32::zero(),
                right: F32::zero(),
                bottom: F32::zero(),
                left: F32::zero(),
            },
        })
        &&& self.physical_bounds is None
        &&& self.visible == (VisiblePart {
            uv_offset: (F32::zero(), F32::zero()),
            uv_scale: (F32::one(), F32::one()),
        })
        &&& self.frosted_full_physical is None
        &&& !self.frosted_final_binding
        &&& !self.preblur_binding
    }
}

impl Default for FrameViewportData {
    fn default() -> (data: Self)
        ensures
            data.blank(),
    {
        FrameViewportData {
            frame: None,
            viewport: PreviewFit {
                width: F32::zero(),
                height: F32::zero(),
                cover_blend: F32::zero(),
                insets: BarInsets {
                    top: F32::zero(),
                    right: F32::zero(),
                    bottom: F32::zero(),
                    left: F32::zero(),
                },
            },
            physical_bounds: None,
            visible: VisiblePart {
                uv_offset: (F32::zero(), F32::zero()),
                uv_scale: (F32::one(), F32::one()),
            },
            frosted_full_physical: None,
            frosted_final_binding: false,
            preblur_binding: false,
        }
    }
}

/// A widget that shows a source.
#[derive(Debug)]
pub struct VideoPrimitive {
    pub video_id: u64,
    pub data: FrameViewportData,
    pub filter_type: FilterType,
    /// In logical pixels; 0 keeps the corners square.
    pub corner_radius: F32,
    pub mirror_horizontal: bool,
    /// Quarter turns of the sensor.
    pub rotation: u32,
    /// Least u and v, then greatest; the whole image where unset.
    pub crop_uv: Option<(F32, F32, F32, F32)>,
    pub zoom_level: F32,
    pub letterbox_color: (F32, F32, F32, F32),
    pub blur_params: CompositorBlurParams,
}

/// Where a widget stands when it is about to be drawn.
#[derive(Clone, Copy, Debug, PartialEq, Eq)]
pub struct Surroundings {
    /// The widget in physical pixels, cut to the render target.
    pub bounds: (F32, F32, F32, F32),
    pub visible: VisiblePart,
    /// The corners in physical pixels.
    pub corners: CornerCut,
    /// Size of the render target, in physical pixels.
    pub target: (u32, u32),
    /// Size of the render target, in logical pixels.
    pub logical_target: (F32, F32),
}

/// The whole render target, in physical pixels.
pub open spec fn whole_target(around: Surroundings) -> (F32, F32, F32, F32) {
    (
        F32::zero(),
        F32::zero(),
        F32::of_whole(around.target.0),
        F32::of_whole(around.target.1),
    )
}

/// What the frame asks for before any argument is written.
#[derive(Debug)]
pub struct FrameStage {
    /// Size to make the source's blur textures at.
    pub create_targets: Option<(u32, u32)>,
    /// Size to make the pre-blur texture at.
    pub create_preblur: Option<(u32, u32)>,
    /// The frame that was waiting, and what to do with it.
    pub upload: Option<(VideoFrame, UploadAction)>,
}

/// Arguments of a source's blur.
#[derive(Debug)]
pub struct BlurArguments {
    /// The steps to write arguments for.
    pub steps: Vec<KawaseStep>,
    /// The sample offset of each step.
    pub offsets: Vec<StepOffset>,
    /// Arguments of the last pass, shared by every panel.
    pub composite: ViewportUniform,
    /// Arguments of the last pass, for this panel alone.
    pub own_composite: Option<ViewportUniform>,
}

/// The arguments to write.
#[derive(Debug)]
pub struct UniformStage {
    pub binding: BindingOutcome,
    /// Arguments of the pass that samples the source.
    pub source: Option<ViewportUniform>,
    /// Arguments of a pre-blurred filter, for this widget alone.
    pub filter: Option<ViewportUniform>,
    pub blur: Option<BlurArguments>,
}

impl Clone for VideoPrimitive {
    /// The copy has data of its own, and does not inherit what one drawing put
    /// in place for itself.
    fn clone(&self) -> (copy: Self)
        ensures
            copy == (VideoPrimitive {
                data: FrameViewportData {
                    frosted_final_binding: false,
                    preblur_binding: false,
                    ..self.data
                },
                ..*self
            }),
    {
        VideoPrimitive {
            video_id: self.video_id,
            data: FrameViewportData {
                frame: match &self.data.frame {
                    Some(frame) => Some(frame.clone()),
                    None => None,
                },
                viewport: self.data.viewport,
                physical_bounds: self.data.physical_bounds,
                visible: self.data.visible,
                frosted_full_physical: self.data.frosted_full_physical,
                frosted_final_binding: false,
                preblur_binding: false,
            },
            filter_type: self.filter_type,
            corner_radius: self.corner_radius,
            mirror_horizontal: self.mirror_horizontal,
            rotation: self.rotation,
            crop_uv: self.crop_uv,
            zoom_level: self.zoom_level,
            letterbox_color: self.letterbox_color,
            blur_params: self.blur_params,
        }
    }
}

impl VideoPrimitive {
    /// A widget for source `video_id`, with nothing to show yet.
    pub fn new(video_id: u64) -> (primitive: VideoPrimitive)
        ensures
            primitive.video_id == video_id,
            primitive.data.blank(),
            primitive.filter_type == FilterType::standard(),
            primitive.corner_radius == F32::zero(),
            !primitive.mirror_horizontal,
            primitive.rotation == 0,
            primitive.crop_uv is None,
            primitive.zoom_level == F32::one(),
            primitive.letterbox_color == black(),
            primitive.blur_params == transition_blur(),
    {
        VideoPrimitive {
            video_id,
            data: FrameViewportData::default(),
            filter_type: FilterType::standard(),
            corner_radius: F32::zero(),
            mirror_horizontal: false,
            rotation: 0,
            crop_uv: None,
            zoom_level: F32::one(),
            letterbox_color: black(),
            blur_params: transition_blur_params(),
        }
    }

    /// Hands the widget a frame.
    pub fn update_frame(&mut self, frame: VideoFrame)
        ensures
            *final(self) == (VideoPrimitive {
                data: FrameViewportData { frame: Some(frame), ..old(self).data },
                ..*old(self)
            }),
    {
        self.data.frame = Some(frame);
    }

    /// Tells the widget its size and the bars in front of it.
    pub fn update_viewport(
        &mut self,
        width: F32,
        height: F32,
        cover_blend: F32,
        insets: BarInsets<F32>,
    )
        ensures
            *final(self) == (VideoPrimitive {
                data: FrameViewportData {
                    viewport: PreviewFit { width, height, cover_blend, insets },
                    ..old(self).data
                },
                ..*old(self)
            }),
    {
        self.data.viewport = PreviewFit { width, height, cover_blend, insets };
    }

    /// RGB multiplier of the blur's last pass: only a transition dims.
    pub open spec fn dim(self) -> F32 {
        if self.video_id == VIDEO_ID_FROSTED {
            F32::one()
        } else {
            F32 { bits: TRANSITION_DIM_BITS }
        }
    }

    /// Grain of the blur's last pass: only frosted glass has any.
    pub open spec fn grain(self) -> F32 {
        if self.video_id == VIDEO_ID_FROSTED {
            F32 { bits: FROSTED_NOISE_BITS }
        } else {
            F32::zero()
        }
    }

    /// RGB multiplier of the blur's last pass.
    pub fn dim_factor(&self) -> (factor: F32)
        ensures
            factor == self.dim(),
    {
        if self.video_id == VIDEO_ID_FROSTED {
            F32::one()
        } else {
            F32 { bits: TRANSITION_DIM_BITS }
        }
    }

    /// Grain of the blur's last pass.
    pub fn noise(&self) -> (amplitude: F32)
        ensures
            amplitude == self.grain(),
    {
        if self.video_id == VIDEO_ID_FROSTED {
            F32 { bits: FROSTED_NOISE_BITS }
        } else {
            F32::zero()
        }
    }

    /// What the pass that samples the source does to it.
    pub open spec fn source_transform(self) -> SourceTransform {
        SourceTransform {
            filter_mode: self.filter_type.gpu_code,
            mirror: self.mirror_horizontal,
            rotation: self.rotation,
            zoom_level: self.zoom_level,
            crop_uv: self.crop_uv,
            letterbox_color: self.letterbox_color,
        }
    }

    /// What the pass that samples the source does to it.
    pub fn transform(&self) -> (transform: SourceTransform)
        ensures
            transform == self.source_transform(),
    {
        SourceTransform {
            filter_mode: self.filter_type.gpu_code,
            mirror: self.mirror_horizontal,
            rotation: self.rotation,
            zoom_level: self.zoom_level,
            crop_uv: self.crop_uv,
            letterbox_color: self.letterbox_color,
        }
    }

    /// Where the image goes. Every frosted panel shares one blur, so its fit
    /// follows the render target, which all of them see alike, and no panel's own
    /// size.
    pub open spec fn image_fit(self, around: Surroundings) -> PreviewFit {
        if self.video_id == VIDEO_ID_FROSTED {
            PreviewFit {
                width: around.logical_target.0,
                height: around.logical_target.1,
                ..self.data.viewport
            }
        } else {
            self.data.viewport
        }
    }

    /// Where the image goes.
    pub fn fit(&self, around: &Surroundings) -> (fit: PreviewFit)
        ensures
            fit == self.image_fit(*around),
    {
        let mut fit = self.data.viewport;
        if self.video_id == VIDEO_ID_FROSTED {
            fit.width = around.logical_target.0;
            fit.height = around.logical_target.1;
        }
        fit
    }

    /// The rectangle that the blur spans: the whole render target behind frosted
    /// glass, for the same reason, or else the widget.
    pub open spec fn blur_rect(self, around: Surroundings) -> (F32, F32, F32, F32) {
        if self.video_id == VIDEO_ID_FROSTED {
            whole_target(around)
        } else {
            around.bounds
        }
    }

    /// Size of the blur's textures.
    pub open spec fn blur_extent(self, around: Surroundings) -> (u32, u32) {
        let (_, _, width, height) = self.blur_rect(around);
        (width.texels() as u32, height.texels() as u32)
    }

    /// The filter goes through the pre-blur texture.
    pub open spec fn preblurs(self) -> bool {
        self.filter_type.preblur && !blurred_source(self.video_id)
    }

    /// The widget once it was laid out: it knows where, and its frame is taken.
    pub open spec fn laid_out(self, around: Surroundings) -> VideoPrimitive {
        VideoPrimitive {
            data: FrameViewportData {
                frame: None,
                physical_bounds: Some(around.bounds),
                visible: around.visible,
                frosted_full_physical: if self.video_id == VIDEO_ID_FROSTED {
                    Some(whole_target(around))
                } else {
                    self.data.frosted_full_physical
                },
                ..self.data
            },
            ..self
        }
    }

    /// The resources once the blur's textures were made sure of.
    pub open spec fn with_targets(
        self,
        state: PipelineState,
        around: Surroundings,
    ) -> PipelineState {
        let (width, height) = self.blur_extent(around);
        if blurred_source(self.video_id) {
            state.after_targets(self.video_id, at_least_one(width), at_least_one(height))
        } else {
            state
        }
    }

    /// The resources ready for the frame: the blur of the one before is stale,
    /// and the pre-blur texture has its size.
    pub open spec fn ready_for_frame(
        self,
        state: PipelineState,
        frame: VideoFrame,
    ) -> PipelineState {
        let stale = if blurred_source(self.video_id) {
            state.after_invalidation(self.video_id)
        } else {
            state
        };
        if self.preblurs() {
            stale.after_preblur(frame.width, frame.height)
        } else {
            stale
        }
    }

    /// The resources once the frame was offered.
    pub open spec fn after_frame_stage(
        self,
        state: PipelineState,
        around: Surroundings,
        frame_ptr: usize,
    ) -> PipelineState {
        let sized = self.with_targets(state, around);
        match self.data.frame {
            None => sized,
            Some(frame) => self.ready_for_frame(sized, frame).after_offer(frame, frame_ptr),
        }
    }

    /// Lays the widget out and offers its frame. `frame_ptr` is where the data
    /// of the frame lies, `format_code` the number that the conversion shader
    /// knows its format by.
    pub fn prepare_frame(
        &mut self,
        pipeline: &mut VideoPipeline,
        around: &Surroundings,
        frame_ptr: usize,
        format_code: u32,
    ) -> (stage: FrameStage)
        requires
            old(pipeline).wf(),
            old(self).data.frame matches Some(frame) ==> old(pipeline)@.verdict(
                frame,
                frame_ptr,
            ) is Upload ==> frame.planes_in_bounds(),
        ensures
            final(pipeline).wf(),
            *final(self) == old(self).laid_out(*around),
            final(pipeline)@ == old(self).after_frame_stage(old(pipeline)@, *around, frame_ptr),
            stage.create_targets == ({
                let (width, height) = old(self).blur_extent(*around);
                let size = (at_least_one(width), at_least_one(height));
                if !blurred_source(old(self).video_id) || old(pipeline)@.targets_fit(
                    old(self).video_id,
                    size.0,
                    size.1,
                ) {
                    None
                } else {
                    Some(size)
                }
            }),
            stage.create_preblur == (match old(self).data.frame {
                Some(frame) => if old(self).preblurs() && old(pipeline)@.preblur != Some(
                    (frame.width, frame.height),
                ) {
                    Some((frame.width, frame.height))
                } else {
                    None
                },
                None => None,
            }),
            match old(self).data.frame {
                None => stage.upload is None,
                Some(frame) => {
                    &&& stage.upload matches Some((taken, action))
                    &&& taken == frame
                    &&& upload_answers(
                        action,
                        old(self).ready_for_frame(
                            old(self).with_targets(old(pipeline)@, *around),
                            frame,
                        ),
                        frame,
                        frame_ptr,
                        format_code,
                    )
                },
            },
    {
        self.data.physical_bounds = Some(around.bounds);
        self.data.visible = around.visible;
        let mut blur_rect = around.bounds;
        if self.video_id == VIDEO_ID_FROSTED {
            blur_rect = (
                F32::zero(),
                F32::zero(),
                F32::from_whole(around.target.0),
                F32::from_whole(around.target.1),
            );
            self.data.frosted_full_physical = Some(blur_rect);
        }
        let taken = self.data.frame.take();
        let blurred = is_blurred_source(self.video_id);
        let width: u32 = blur_rect.2.to_texels();
        let height: u32 = blur_rect.3.to_texels();
        let mut create_targets: Option<(u32, u32)> = None;
        // Even without a frame: a frozen blur has to follow the window's size.
        if blurred {
            create_targets = pipeline.ensure_blur_targets(self.video_id, width, height);
        }
        let mut create_preblur: Option<(u32, u32)> = None;
        let mut upload: Option<(VideoFrame, UploadAction)> = None;
        if let Some(frame) = taken {
            if blurred {
                pipeline.invalidate_blur_cache(self.video_id);
            }
            if self.filter_type.preblur && !blurred {
                if pipeline.ensure_filter_preblur_intermediate(frame.width, frame.height) {
                    create_preblur = Some((frame.width, frame.height));
                }
            }
            let action = pipeline.upload(&frame, frame_ptr, format_code);
            upload = Some((frame, action));
        }
        FrameStage { create_targets, create_preblur, upload }
    }

    /// Size of the texture that the widget's source is drawn from.
    pub fn source_size(&self, pipeline: &VideoPipeline) -> (size: Option<(u32, u32)>)
        ensures
            size == (if pipeline@.textures.contains_key(shared_texture(self.video_id)) {
                let texture = pipeline@.textures[shared_texture(self.video_id)];
                Some((texture.width, texture.height))
            } else {
                None
            }),
    {
        match pipeline.textures.get(&source_texture_id(self.video_id)) {
            Some(texture) => Some((texture.width, texture.height)),
            None => None,
        }
    }

    /// The part of the preview that the image covers, for the blur's last pass:
    /// all of it while there is no image.
    pub open spec fn covered(
        self,
        state: PipelineState,
        content_rect: (F32, F32, F32, F32),
    ) -> (F32, F32, F32, F32) {
        if state.textures.contains_key(shared_texture(self.video_id)) {
            content_rect
        } else {
            full_content_rect()
        }
    }

    /// Arguments of the pass that samples the source.
    pub open spec fn source_arguments(self, around: Surroundings) -> ViewportUniform {
        if blurred_source(self.video_id) {
            source_pass(self.source_transform(), self.image_fit(around))
        } else {
            preview_pass(
                self.source_transform(),
                self.image_fit(around),
                self.data.visible,
                around.corners,
            )
        }
    }

    /// Arguments of the blur's last pass, shared by every panel.
    pub open spec fn composite_arguments(
        self,
        state: PipelineState,
        around: Surroundings,
        content_rect: (F32, F32, F32, F32),
    ) -> ViewportUniform {
        let fit = self.image_fit(around);
        composite_pass(
            (fit.width, fit.height),
            self.dim(),
            self.grain(),
            self.covered(state, content_rect),
        )
    }

    /// The widget once its arguments were worked out: what it needs for itself
    /// alone is in place.
    pub open spec fn readied(self, state: PipelineState) -> VideoPrimitive {
        let bound = state.bindings.contains((self.video_id, self.filter_type.gpu_code));
        VideoPrimitive {
            data: FrameViewportData {
                frosted_final_binding: self.data.frosted_final_binding || (bound
                    && self.video_id == VIDEO_ID_FROSTED && state.blur_targets.contains_key(
                    self.video_id,
                )),
                preblur_binding: self.data.preblur_binding || (bound && self.preblurs()
                    && state.preblur is Some),
                ..self.data
            },
            ..self
        }
    }

    /// Works out every argument that the widget's passes read. `content_rect` is
    /// the part of the preview that the image covers.
    pub fn prepare_uniforms(
        &mut self,
        pipeline: &mut VideoPipeline,
        around: &Surroundings,
        content_rect: (F32, F32, F32, F32),
    ) -> (stage: UniformStage)
        requires
            old(pipeline).wf(),
        ensures
            final(pipeline).wf(),
            final(pipeline)@ == old(pipeline)@.after_bind(
                old(self).video_id,
                old(self).filter_type.gpu_code,
            ),
            stage.binding is NoTexture <==> !final(pipeline)@.bindings.contains(
                (old(self).video_id, old(self).filter_type.gpu_code),
            ),
            stage.binding is Present <==> old(pipeline)@.bindings.contains(
                (old(self).video_id, old(self).filter_type.gpu_code),
            ),
            stage.source == (if stage.binding is NoTexture {
                None
            } else {
                Some(old(self).source_arguments(*around))
            }),
            stage.source is Some <==> old(pipeline)@.textures.contains_key(
                shared_texture(old(self).video_id),
            ),
            stage.filter == (match old(pipeline)@.preblur {
                Some((width, height)) => if stage.binding is NoTexture || !old(self).preblurs() {
                    None
                } else {
                    Some(
                        filter_pass(
                            (F32::of_whole(width), F32::of_whole(height)),
                            old(self).filter_type.gpu_code,
                            old(self).letterbox_color,
                            around.corners,
                        ),
                    )
                },
                None => None,
            }),
            stage.blur is Some <==> (!(stage.binding is NoTexture) && old(
                pipeline,
            )@.blur_targets.contains_key(old(self).video_id)),
            stage.blur matches Some(blur) ==> {
                let targets = old(pipeline)@.blur_targets[old(self).video_id];
                let composite = old(self).composite_arguments(
                    old(pipeline)@,
                    *around,
                    content_rect,
                );
                &&& blur.steps@ == kawase_run(
                    targets.width,
                    targets.height,
                    old(self).blur_params.passes,
                )
                &&& blur.offsets@ == run_offsets(old(self).blur_params, blur.steps@)
                &&& blur.composite == composite
                &&& blur.own_composite == (if old(self).video_id == VIDEO_ID_FROSTED {
                    Some(rounded_pass(composite, around.corners))
                } else {
                    None
                })
            },
            *final(self) == old(self).readied(final(pipeline)@),
    {
        let fit = self.fit(around);
        let transform = self.transform();
        let filter_mode: u32 = self.filter_type.gpu_code;
        let blurred = is_blurred_source(self.video_id);
        let ghost state = pipeline@;
        let binding = pipeline.get_or_create_binding(self.video_id, filter_mode);
        if let BindingOutcome::NoTexture = binding {
            return UniformStage { binding, source: None, filter: None, blur: None };
        }
        let source = if blurred {
            source_uniform(&transform, &fit)
        } else {
            preview_uniform(&transform, &fit, &self.data.visible, &around.corners)
        };
        let mut filter: Option<ViewportUniform> = None;
        if self.filter_type.preblur && !blurred {
            if let Some((width, height)) = pipeline.preblur {
                filter = Some(
                    filter_uniform(
                        (F32::from_whole(width), F32::from_whole(height)),
                        filter_mode,
                        self.letterbox_color,
                        &around.corners,
                    ),
                );
                self.data.preblur_binding = true;
            }
        }
        let mut blur: Option<BlurArguments> = None;
        let has_image = self.source_size(pipeline).is_some();
        if let Some(targets) = pipeline.blur_targets.get(&self.video_id) {
            let steps = kawase_chain(targets.width, targets.height, self.blur_params.passes);
            let offsets = step_offsets(&self.blur_params, &steps);
            let covered = if has_image { content_rect } else { full_content_rect() };
            let composite = composite_uniform(
                (fit.width, fit.height),
                self.dim_factor(),
                self.noise(),
                covered,
            );
            let mut own_composite: Option<ViewportUniform> = None;
            if self.video_id == VIDEO_ID_FROSTED {
                let mut own = composite;
                round_corners(&mut own, &around.corners);
                own_composite = Some(own);
                self.data.frosted_final_binding = true;
            }
            blur = Some(BlurArguments { steps, offsets, composite, own_composite });
        }
        UniformStage { binding, source: Some(source), filter, blur }
    }

    /// The rectangle that the widget's passes are laid over: the frosted backdrop
    /// spans the whole preview, so that its blur lines up with the sharp image;
    /// `clip`, the visible part, where nothing is known.
    pub open spec fn viewport_rect(self, clip: (u32, u32, u32, u32)) -> (F32, F32, F32, F32) {
        if self.video_id == VIDEO_ID_FROSTED && self.data.frosted_full_physical is Some {
            self.data.frosted_full_physical->0
        } else if self.data.physical_bounds is Some {
            self.data.physical_bounds->0
        } else {
            (
                F32::of_whole(clip.0),
                F32::of_whole(clip.1),
                F32::of_whole(clip.2),
                F32::of_whole(clip.3),
            )
        }
    }

    /// The rectangle that the widget's passes are laid over.
    pub fn widget_bounds(&self, clip: (u32, u32, u32, u32)) -> (rect: (F32, F32, F32, F32))
        ensures
            rect == self.viewport_rect(clip),
    {
        if self.video_id == VIDEO_ID_FROSTED {
            if let Some(rect) = self.data.frosted_full_physical {
                return rect;
            }
        }
        match self.data.physical_bounds {
            Some(rect) => rect,
            None => (
                F32::from_whole(clip.0),
                F32::from_whole(clip.1),
                F32::from_whole(clip.2),
                F32::from_whole(clip.3),
            ),
        }
    }

    /// What the widget asks to have drawn, with so much of it visible.
    pub open spec fn request(self, clip_width: u32, clip_height: u32) -> DrawRequest {
        DrawRequest {
            video_id: self.video_id,
            filter_mode: self.filter_type.gpu_code,
            needs_preblur: self.filter_type.preblur,
            passes: self.blur_params.passes,
            clip_width,
            clip_height,
            own_composite: self.data.frosted_final_binding,
            own_preblur: self.data.preblur_binding,
        }
    }

    /// What the widget asks to have drawn.
    pub fn render(&self, clip_width: u32, clip_height: u32) -> (request: DrawRequest)
        ensures
            request == self.request(clip_width, clip_height),
    {
        DrawRequest {
            video_id: self.video_id,
            filter_mode: self.filter_type.gpu_code,
            needs_preblur: self.filter_type.preblur,
            passes: self.blur_params.passes,
            clip_width,
            clip_height,
            own_composite: self.data.frosted_final_binding,
            own_preblur: self.data.preblur_binding,
        }
    }
}

/// Frosted panels agree on their blur by construction: on one render target they
/// ask for textures of one size and lay the image out alike, wherever they
/// stand. So whichever prepares later finds the textures as they are, and takes
/// nothing from under the others.
pub proof fn law_frosted_panels_agree(
    first: VideoPrimitive,
    later: VideoPrimitive,
    state: PipelineState,
    around_first: Surroundings,
    around_later: Surroundings,
)
    requires
        first.video_id == VIDEO_ID_FROSTED,
        later.video_id == VIDEO_ID_FROSTED,
        around_first.target == around_later.target,
        around_first.logical_target == around_later.logical_target,
        first.data.viewport.cover_blend == later.data.viewport.cover_blend,
        first.data.viewport.insets == later.data.viewport.insets,
    ensures
        first.image_fit(around_first) == later.image_fit(around_later),
        later.with_targets(first.with_targets(state, around_first), around_later)
            == first.with_targets(state, around_first),
{
}

/// Panels with the same settings share the arguments of the blur: whichever
/// prepares last writes what the others wrote.
pub proof fn law_shared_arguments_agree(
    first: VideoPrimitive,
    later: VideoPrimitive,
    state: PipelineState,
    around_first: Surroundings,
    around_later: Surroundings,
    content_rect: (F32, F32, F32, F32),
)
    requires
        first.video_id == VIDEO_ID_FROSTED,
        later.video_id == VIDEO_ID_FROSTED,
        around_first.logical_target == around_later.logical_target,
        first.data.viewport.cover_blend == later.data.viewport.cover_blend,
        first.data.viewport.insets == later.data.viewport.insets,
        first.source_transform() == later.source_transform(),
    ensures
        first.source_arguments(around_first) == later.source_arguments(around_later),
        first.composite_arguments(state, around_first, content_rect)
            == later.composite_arguments(state, around_later, content_rect),
{
}

/// Only the transition dims the image, and only frosted glass grains it.
pub proof fn law_dim_and_grain_exclude_each_other(primitive: VideoPrimitive)
    ensures
        primitive.dim() == F32::one() <==> primitive.video_id == VIDEO_ID_FROSTED,
        primitive.grain() != F32::zero() <==> primitive.video_id == VIDEO_ID_FROSTED,
{
}

/// A new frame on a blurred source makes its blur stale, whether or not its
/// pixels have been uploaded before: what the blur starts from moves with zoom
/// and fit too.
pub proof fn law_frames_make_the_blur_stale(
    primitive: VideoPrimitive,
    state: PipelineState,
    around: Surroundings,
    frame_ptr: usize,
)
    requires
        blurred_source(primitive.video_id),
        primitive.data.frame is Some,
    ensures
        ({
            let after = primitive.after_frame_stage(state, around, frame_ptr);
            &&& after.blur_targets.contains_key(primitive.video_id)
            &&& !after.blur_targets[primitive.video_id].cached
        }),
{
}

/// Only the two blurred sources ever have blur textures, so there are never more
/// than two pairs of them.
pub proof fn law_two_blurs_at_most(
    primitive: VideoPrimitive,
    state: PipelineState,
    around: Surroundings,
    frame_ptr: usize,
)
    requires
        forall|id: u64| #[trigger] state.blur_targets.contains_key(id) ==> blurred_source(id),
    ensures
        forall|id: u64| #[trigger]
            primitive.after_frame_stage(state, around, frame_ptr).blur_targets.contains_key(id)
                ==> blurred_source(id),
{
}

/// What a widget with a frame of its own comes to on the screen: once laid out
/// and readied it is drawn, whether its frame was uploaded, had been before, or
/// was skipped. A blur is run anew; frosted glass composites it with arguments of
/// its own, and so does a pre-blurred filter, so no widget draws with another's
/// corners.
pub proof fn law_prepared_widgets_are_drawn(
    widget: VideoPrimitive,
    state: PipelineState,
    around: Surroundings,
    frame_ptr: usize,
    clip_width: u32,
    clip_height: u32,
)
    requires
        widget.data.frame matches Some(frame) && {
            &&& frame.id == widget.video_id
            &&& frame.width != 0
            &&& frame.height != 0
        },
        !widget.data.frosted_final_binding,
        !widget.data.preblur_binding,
        clip_width != 0,
        clip_height != 0,
    ensures
        ({
            let id = widget.video_id;
            let prepared = widget.after_frame_stage(state, around, frame_ptr).after_bind(
                id,
                widget.filter_type.gpu_code,
            );
            let request = widget.laid_out(around).readied(prepared).request(
                clip_width,
                clip_height,
            );
            prepared.draw_passes(request) == (if blurred_source(id) {
                blur_passes(prepared.blur_targets[id], widget.blur_params.passes).push(
                    composite_draw(id == VIDEO_ID_FROSTED),
                )
            } else if widget.filter_type.preblur {
                seq![preblur_pass(), screen_pass(PassShader::Rgba, PassBinding::OwnPreblur)]
            } else {
                seq![screen_pass(PassShader::Rgba, PassBinding::Source)]
            })
        }),
{
    let staged = widget.after_frame_stage(state, around, frame_ptr);
    assert(staged.textures.contains_key(shared_texture(widget.video_id)));
    if blurred_source(widget.video_id) {
        law_frames_make_the_blur_stale(widget, state, around, frame_ptr);
    }
}

/// The pass that samples the camera frame carries the widget's own settings, word
/// by word: a turned sensor is turned back, a mirrored preview mirrored, a zoom, a
/// crop, a filter and a fit are what the widget was told, for every source and
/// wherever the widget stands.
pub proof fn law_the_preview_obeys_its_widget(widget: VideoPrimitive, around: Surroundings)
    ensures
        ({
            let words = widget.source_arguments(around).layout();
            &&& words[2] == widget.data.viewport.cover_blend.bits
            &&& words[3] == widget.filter_type.gpu_code
            &&& words[5] == 1 <==> widget.mirror_horizontal
            &&& words[5] == 0 <==> !widget.mirror_horizontal
            &&& words[14] == widget.zoom_level.bits
            &&& words[15] == widget.rotation
            &&& words[16] == widget.data.viewport.insets.top.bits
            &&& words[17] == widget.data.viewport.insets.bottom.bits
            &&& words[36] == widget.data.viewport.insets.left.bits
            &&& words[37] == widget.data.viewport.insets.right.bits
            &&& words[20] == widget.letterbox_color.0.bits
            &&& words[21] == widget.letterbox_color.1.bits
            &&& words[22] == widget.letterbox_color.2.bits
            &&& words[23] == widget.letterbox_color.3.bits
            &&& match widget.crop_uv {
                Some((u_min, v_min, u_max, v_max)) => {
                    &&& words[10] == u_min.bits && words[11] == v_min.bits
                    &&& words[12] == u_max.bits && words[13] == v_max.bits
                },
                None => {
                    &&& words[10] == 0 && words[11] == 0
                    &&& words[12] == ONE_BITS && words[13] == ONE_BITS
                },
            }
        }),
{
    let transform = widget.source_transform();
    let fit = widget.image_fit(around);
    law_source_words(transform, fit);
    assert forall|k: int| 0 <= k < 40 implies #[trigger] preview_pass(
        transform,
        fit,
        widget.data.visible,
        around.corners,
    ).layout()[k] == source_pass(transform, fit).layout()[k] || k == 4 || 6 <= k <= 9 || 24 <= k
        <= 27 by {
        law_preview_words(transform, fit, widget.data.visible, around.corners, k);
    }
}

/// The size that the fit works in is the widget's own, but for frosted glass, whose
/// panels all take the render target's. Only a pass straight to the screen is told
/// the visible part and the corners; a pass into a blur keeps both out.
pub proof fn law_where_the_image_goes(widget: VideoPrimitive, around: Surroundings)
    ensures
        ({
            let words = widget.source_arguments(around).layout();
            let frosted = widget.video_id == VIDEO_ID_FROSTED;
            let into_blur = frosted || widget.video_id == VIDEO_ID_BLUR;
            let visible = widget.data.visible;
            let corners = around.corners;
            &&& frosted ==> words[0] == around.logical_target.0.bits && words[1]
                == around.logical_target.1.bits
            &&& !frosted ==> words[0] == widget.data.viewport.width.bits && words[1]
                == widget.data.viewport.height.bits
            &&& into_blur ==> {
                &&& words[4] == 0
                &&& words[6] == 0 && words[7] == 0
                &&& words[8] == ONE_BITS && words[9] == ONE_BITS
                &&& words[24] == 0 && words[25] == 0 && words[26] == 0 && words[27] == 0
            }
            &&& !into_blur ==> {
                &&& words[4] == corners.corner_radius.bits
                &&& words[6] == visible.uv_offset.0.bits && words[7] == visible.uv_offset.1.bits
                &&& words[8] == visible.uv_scale.0.bits && words[9] == visible.uv_scale.1.bits
                &&& words[24] == corners.panel_rect.0.bits && words[25]
                    == corners.panel_rect.1.bits
                &&& words[26] == corners.panel_rect.2.bits && words[27]
                    == corners.panel_rect.3.bits
            }
            &&& words[18] == 0 && words[19] == ONE_BITS && words[28] == 0
        }),
{
    let transform = widget.source_transform();
    let fit = widget.image_fit(around);
    let visible = widget.data.visible;
    law_source_words(transform, fit);
    law_plain_words(transform, fit);
    law_preview_words(transform, fit, visible, around.corners, 0);
    law_preview_words(transform, fit, visible, around.corners, 1);
    law_preview_words(transform, fit, visible, around.corners, 18);
    law_preview_words(transform, fit, visible, around.corners, 19);
    law_preview_words(transform, fit, visible, around.corners, 28);
}

/// What the blur's last pass does to the image: frosted glass stays as bright and
/// takes grain, a transition dims and takes none; the image is cut to where it is
/// once there is one, and not at all before.
pub proof fn law_how_the_blur_is_shown(
    widget: VideoPrimitive,
    state: PipelineState,
    around: Surroundings,
    content_rect: (F32, F32, F32, F32),
)
    ensures
        ({
            let words = widget.composite_arguments(state, around, content_rect).layout();
            let frosted = widget.video_id == VIDEO_ID_FROSTED;
            let texture = if frosted || widget.video_id == VIDEO_ID_FILTER_PREVIEW {
                VIDEO_ID_NORMAL
            } else {
                widget.video_id
            };
            &&& frosted ==> words[0] == around.logical_target.0.bits && words[1]
                == around.logical_target.1.bits
            &&& !frosted ==> words[0] == widget.data.viewport.width.bits && words[1]
                == widget.data.viewport.height.bits
            &&& frosted ==> words[19] == ONE_BITS && words[28] == FROSTED_NOISE_BITS
            &&& !frosted ==> words[19] == TRANSITION_DIM_BITS && words[28] == 0
            &&& words[4] == 0
            &&& state.textures.contains_key(texture) ==> {
                &&& words[32] == content_rect.0.bits && words[33] == content_rect.1.bits
                &&& words[34] == content_rect.2.bits && words[35] == content_rect.3.bits
            }
            &&& !state.textures.contains_key(texture) ==> {
                &&& words[32] == 0 && words[33] == 0
                &&& words[34] == ONE_BITS && words[35] == ONE_BITS
            }
        }),
{
    let fit = widget.image_fit(around);
    law_composite_words(
        (fit.width, fit.height),
        widget.dim(),
        widget.grain(),
        widget.covered(state, content_rect),
        around.corners,
        0,
    );
}

/// The blur is as big as what it is behind: frosted glass as the render target,
/// texel for texel, and a transition as its own widget, rounded to texels.
pub proof fn law_blurs_span_what_they_are_behind(widget: VideoPrimitive, around: Surroundings)
    ensures
        widget.video_id == VIDEO_ID_FROSTED && 1 <= around.target.0 < 0x100_0000 && 1
            <= around.target.1 < 0x100_0000 ==> widget.blur_extent(around) == around.target,
        widget.video_id != VIDEO_ID_FROSTED ==> {
            &&& widget.blur_extent(around).0 == around.bounds.2.texels()
            &&& widget.blur_extent(around).1 == around.bounds.3.texels()
        },
{
    law_whole_numbers_have_a_single(around.target.0);
    law_whole_numbers_have_a_single(around.target.1);
    crate::bits::law_texels_are_nearest(around.bounds.2);
    crate::bits::law_texels_are_nearest(around.bounds.3);
}

/// A widget that was laid out knows where it stands and what of it is visible, and
/// its frame is taken; everything else of it is as it was. Its passes then go where
/// it stands, whatever is visible of it, but for frosted glass, which lines up with
/// the whole render target.
pub proof fn law_laid_out_widgets_know_their_place(
    widget: VideoPrimitive,
    around: Surroundings,
    clip: (u32, u32, u32, u32),
)
    ensures
        ({
            let after = widget.laid_out(around);
            let rect = after.viewport_rect(clip);
            &&& after.data.frame is None
            &&& after.data.physical_bounds == Some(around.bounds)
            &&& after.data.visible == around.visible
            &&& after.data.viewport == widget.data.viewport
            &&& after.data.frosted_final_binding == widget.data.frosted_final_binding
            &&& after.data.preblur_binding == widget.data.preblur_binding
            &&& widget.video_id != VIDEO_ID_FROSTED ==> after.data.frosted_full_physical
                == widget.data.frosted_full_physical
            &&& after.video_id == widget.video_id && after.filter_type == widget.filter_type
            &&& after.corner_radius == widget.corner_radius && after.mirror_horizontal
                == widget.mirror_horizontal
            &&& after.rotation == widget.rotation && after.crop_uv == widget.crop_uv
            &&& after.zoom_level == widget.zoom_level && after.letterbox_color
                == widget.letterbox_color
            &&& after.blur_params == widget.blur_params
            &&& widget.video_id != VIDEO_ID_FROSTED ==> rect == around.bounds
            &&& widget.video_id == VIDEO_ID_FROSTED ==> {
                &&& rect.0 == F32::zero() && rect.1 == F32::zero()
                &&& rect.2.rounds(around.target.0 as nat)
                &&& rect.3.rounds(around.target.1 as nat)
            }
        }),
{
    law_whole_numbers_have_a_single(around.target.0);
    law_whole_numbers_have_a_single(around.target.1);
}

/// A widget that was never laid out is drawn over its visible part.
pub proof fn law_unplaced_widgets_fill_their_clip(
    widget: VideoPrimitive,
    clip: (u32, u32, u32, u32),
)
    requires
        widget.data.physical_bounds is None,
        widget.data.frosted_full_physical is None,
    ensures
        widget.viewport_rect(clip).0.rounds(clip.0 as nat),
        widget.viewport_rect(clip).1.rounds(clip.1 as nat),
        widget.viewport_rect(clip).2.rounds(clip.2 as nat),
        widget.viewport_rect(clip).3.rounds(clip.3 as nat),
{
    law_whole_numbers_have_a_single(clip.0);
    law_whole_numbers_have_a_single(clip.1);
    law_whole_numbers_have_a_single(clip.2);
    law_whole_numbers_have_a_single(clip.3);
}

/// What a frame makes ready: a blurred source has blur textures of its size, even
/// without a frame, and a new frame makes what they hold stale; a filter that works
/// on a pre-blurred image has a texture of the frame's size. Sources that are not
/// blurred touch no blur, and the frame itself is offered as it would be without all
/// that.
pub proof fn law_frames_find_their_textures(
    widget: VideoPrimitive,
    state: PipelineState,
    around: Surroundings,
    frame_ptr: usize,
)
    ensures
        ({
            let after = widget.after_frame_stage(state, around, frame_ptr);
            let id = widget.video_id;
            let size = widget.blur_extent(around);
            let into_blur = id == VIDEO_ID_FROSTED || id == VIDEO_ID_BLUR;
            &&& into_blur ==> {
                &&& after.blur_targets.contains_key(id)
                &&& size.0 >= 1 ==> after.blur_targets[id].width == size.0
                &&& size.1 >= 1 ==> after.blur_targets[id].height == size.1
                &&& widget.data.frame is Some ==> !after.blur_targets[id].cached
                &&& after.preblur == state.preblur
            }
            &&& !into_blur ==> {
                &&& after.blur_targets == state.blur_targets
                &&& widget.data.frame matches Some(frame) ==> after.preblur == (
                if widget.filter_type.preblur {
                    Some((frame.width, frame.height))
                } else {
                    state.preblur
                })
            }
            &&& forall|other: u64| #[trigger]
                after.blur_targets.contains_key(other) && other != id
                    ==> state.blur_targets.contains_key(other) && after.blur_targets[other]
                    == state.blur_targets[other]
            &&& widget.data.frame is None ==> {
                &&& after.textures == state.textures
                &&& after.bindings == state.bindings
                &&& after.planes == state.planes
                &&& after.preblur == state.preblur
                &&& after.skipped == state.skipped
            }
            &&& widget.data.frame matches Some(frame) ==> {
                let offered = state.after_offer(frame, frame_ptr);
                &&& after.textures == offered.textures
                &&& after.bindings == offered.bindings
                &&& after.planes == offered.planes
                &&& after.skipped == offered.skipped
            }
        }),
{
}

/// A widget brings arguments of its own once it was readied over a texture: frosted
/// glass for the blur's last pass, where there is a blur, and any other source for a
/// pre-blurred filter, where there is a texture for that. Without a texture to draw
/// from nothing is readied. What it had it keeps, and all else of it stays.
pub proof fn law_own_arguments(widget: VideoPrimitive, state: PipelineState)
    ensures
        ({
            let after = widget.readied(state);
            let id = widget.video_id;
            let bound = state.bindings.contains((id, widget.filter_type.gpu_code));
            &&& after.data.frosted_final_binding <==> widget.data.frosted_final_binding || (bound
                && id == VIDEO_ID_FROSTED && state.blur_targets.contains_key(id))
            &&& after.data.preblur_binding <==> widget.data.preblur_binding || (bound
                && widget.filter_type.preblur && id != VIDEO_ID_FROSTED && id != VIDEO_ID_BLUR
                && state.preblur is Some)
            &&& after.data.frame == widget.data.frame
            &&& after.data.viewport == widget.data.viewport
            &&& after.data.visible == widget.data.visible
            &&& after.data.physical_bounds == widget.data.physical_bounds
            &&& after.data.frosted_full_physical == widget.data.frosted_full_physical
            &&& after.video_id == widget.video_id && after.filter_type == widget.filter_type
            &&& after.corner_radius == widget.corner_radius && after.mirror_horizontal
                == widget.mirror_horizontal
            &&& after.rotation == widget.rotation && after.crop_uv == widget.crop_uv
            &&& after.zoom_level == widget.zoom_level && after.letterbox_color
                == widget.letterbox_color
            &&& after.blur_params == widget.blur_params
        }),
{
}

/// A request asks for what the widget is: its source and filter, as many blur passes
/// as it was set to, and the arguments that it brings.
pub proof fn law_requests_speak_for_their_widget(
    widget: VideoPrimitive,
    clip_width: u32,
    clip_height: u32,
)
    ensures
        ({
            let request = widget.request(clip_width, clip_height);
            &&& request.video_id == widget.video_id
            &&& request.filter_mode == widget.filter_type.gpu_code
            &&& request.needs_preblur == widget.filter_type.preblur
            &&& request.passes == widget.blur_params.passes
            &&& request.clip_width == clip_width && request.clip_height == clip_height
            &&& request.own_composite == widget.data.frosted_final_binding
            &&& request.own_preblur == widget.data.preblur_binding
        }),
{
}

/// A widget with nothing to show yet has no frame and no place, shows all of itself,
/// and has put nothing in place.
pub proof fn law_blank_widgets_show_nothing(data: FrameViewportData)
    requires
        data.blank(),
    ensures
        data.frame is None && data.physical_bounds is None && data.frosted_full_physical is None,
        data.viewport.width.bits == 0 && data.viewport.height.bits == 0,
        data.viewport.cover_blend.bits == 0,
        data.viewport.insets.top.bits == 0 && data.viewport.insets.bottom.bits == 0,
        data.viewport.insets.left.bits == 0 && data.viewport.insets.right.bits == 0,
        data.visible.uv_offset.0.bits == 0 && data.visible.uv_offset.1.bits == 0,
        data.visible.uv_scale.0.bits == ONE_BITS && data.visible.uv_scale.1.bits == ONE_BITS,
        !data.frosted_final_binding && !data.preblur_binding,
{
}

} // verus!
