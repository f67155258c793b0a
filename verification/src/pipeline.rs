//! What the preview's GPU resources hold, and what has to be done to them.
//!
//! The resources live with the renderer. This keeps the books on them: which
//! textures exist and at what size, which frame each one holds, which bindings
//! and blurs are still good. Every operation says what to do to the resources.

use std::collections::HashMap;
use vstd::prelude::*;
use vstd::std_specs::hash::*;
use crate::frame::{
    at_least_one, groups_over, ConversionPlan, ConversionRefusal, PlaneShape, PlaneTextures,
    VideoFrame,
};

verus! {

broadcast use vstd::std_specs::hash::group_hash_axioms;

/// The live preview.
pub const VIDEO_ID_NORMAL: u64 = 0;

/// The blurred preview of transitions.
pub const VIDEO_ID_BLUR: u64 = 1;

/// The frosted backdrop behind overlays.
pub const VIDEO_ID_FROSTED: u64 = 2;

/// The filter picker's swatches, all of them.
pub const VIDEO_ID_FILTER_PREVIEW: u64 = 99;

/// An upload longer than this many milliseconds means that the GPU is behind.
pub const UPLOAD_LIMIT_MS: u64 = 32;

/// Whose texture a source's frames go to. The frosted backdrop and the filter
/// swatches draw the preview's own frame, so one copy of it serves all three;
/// the transition blur outlives the preview's frames and keeps its own.
pub open spec fn shared_texture(video_id: u64) -> u64 {
    if video_id == VIDEO_ID_FROSTED || video_id == VIDEO_ID_FILTER_PREVIEW {
        VIDEO_ID_NORMAL
    } else {
        video_id
    }
}

/// Whose texture a source's frames go to.
pub fn source_texture_id(video_id: u64) -> (texture: u64)
    ensures
        texture == shared_texture(video_id),
{
    if video_id == VIDEO_ID_FROSTED || video_id == VIDEO_ID_FILTER_PREVIEW {
        VIDEO_ID_NORMAL
    } else {
        video_id
    }
}

/// The sources that are drawn through the blur.
pub open spec fn blurred_source(video_id: u64) -> bool {
    video_id == VIDEO_ID_BLUR || video_id == VIDEO_ID_FROSTED
}

/// Whether a source is drawn through the blur.
pub fn is_blurred_source(video_id: u64) -> (answer: bool)
    ensures
        answer == blurred_source(video_id),
{
    video_id == VIDEO_ID_BLUR || video_id == VIDEO_ID_FROSTED
}

/// A texture that frames are uploaded to.
#[derive(Clone, Copy, Debug, PartialEq, Eq, Structural)]
pub struct SourceTexture {
    pub width: u32,
    pub height: u32,
    /// Where the data of the frame that was last handled lies.
    pub last_frame_ptr: usize,
    /// How long the last upload took.
    pub last_upload_ms: u64,
}

/// The pair of textures that a source's blur bounces between.
#[derive(Clone, Copy, Debug, PartialEq, Eq, Structural)]
pub struct BlurTargets {
    pub width: u32,
    pub height: u32,
    /// They hold the blur of the current frame.
    pub cached: bool,
}

/// The plane textures of a source that is converted.
#[derive(Clone, Copy, Debug, PartialEq, Eq, Structural)]
pub struct YuvTextures {
    pub shape: PlaneShape,
    /// They are bound to the conversion, together with its output.
    pub bound: bool,
}

/// Figures on the last upload.
#[derive(Clone, Copy, Debug, PartialEq, Eq, Structural)]
pub struct GpuMetrics {
    pub upload_time_us: u64,
    pub frame_size: u64,
}

/// Microseconds that the last upload took.
pub fn get_gpu_upload_time_us(metrics: &GpuMetrics) -> (micros: u64)
    ensures
        micros == metrics.upload_time_us,
{
    metrics.upload_time_us
}

/// Bytes of the frame that was uploaded last.
pub fn get_gpu_frame_size(metrics: &GpuMetrics) -> (bytes: u64)
    ensures
        bytes == metrics.frame_size,
{
    metrics.frame_size
}

/// What the GPU resources hold.
#[verifier::ext_equal]
pub ghost struct PipelineState {
    pub textures: Map<u64, SourceTexture>,
    /// Sources and filters that have a binding over their source's texture.
    pub bindings: Set<(u64, u32)>,
    pub blur_targets: Map<u64, BlurTargets>,
    /// Size of the texture that pre-blurred filters go through.
    pub preblur: Option<(u32, u32)>,
    pub planes: Map<u64, YuvTextures>,
    /// Frames skipped since the last upload.
    pub skipped: u32,
    pub metrics: GpuMetrics,
}

/// What becomes of a frame.
#[derive(Clone, Copy, Debug, PartialEq, Eq, Structural)]
pub enum Verdict {
    /// It has no pixels.
    Empty,
    /// It has been handled before.
    Duplicate,
    /// The GPU is behind.
    Skip,
    /// It is uploaded, to a new texture or to the one that is there.
    Upload { create: bool },
}

impl PipelineState {
    /// Nothing exists yet.
    pub open spec fn initial() -> PipelineState {
        PipelineState {
            textures: Map::empty(),
            bindings: Set::empty(),
            blur_targets: Map::empty(),
            preblur: None,
            planes: Map::empty(),
            skipped: 0,
            metrics: GpuMetrics { upload_time_us: 0, frame_size: 0 },
        }
    }

    /// Every binding has a texture under it.
    pub open spec fn bindings_are_backed(self) -> bool {
        forall|video_id: u64, filter_mode: u32| #[trigger]
            self.bindings.contains((video_id, filter_mode)) ==> self.textures.contains_key(
                shared_texture(video_id),
            )
    }

    /// The texture `id` exists at this size.
    pub open spec fn fits(self, id: u64, width: u32, height: u32) -> bool {
        &&& self.textures.contains_key(id)
        &&& self.textures[id].width == width
        &&& self.textures[id].height == height
    }

    /// What becomes of a frame whose data lies at `ptr`.
    pub open spec fn verdict(self, frame: VideoFrame, ptr: usize) -> Verdict {
        let id = shared_texture(frame.id);
        let fits = self.fits(id, frame.width, frame.height);
        if frame.width == 0 || frame.height == 0 {
            Verdict::Empty
        } else if fits && self.textures[id].last_frame_ptr == ptr {
            Verdict::Duplicate
        } else if self.textures.contains_key(id) && self.textures[id].last_upload_ms
            > UPLOAD_LIMIT_MS {
            Verdict::Skip
        } else {
            Verdict::Upload { create: !fits }
        }
    }

    /// After a frame was skipped: it counts as handled, and the next one passes.
    pub open spec fn after_skip(self, frame: VideoFrame, ptr: usize) -> PipelineState {
        let id = shared_texture(frame.id);
        PipelineState {
            textures: self.textures.insert(
                id,
                SourceTexture { last_frame_ptr: ptr, last_upload_ms: 0, ..self.textures[id] },
            ),
            skipped: if self.skipped == u32::MAX {
                0
            } else {
                (self.skipped + 1) as u32
            },
            ..self
        }
    }

    /// After a texture was made for a frame: nothing is bound to the one that it
    /// replaces.
    pub open spec fn after_create(self, frame: VideoFrame) -> PipelineState {
        let id = shared_texture(frame.id);
        PipelineState {
            textures: self.textures.insert(
                id,
                SourceTexture {
                    width: frame.width,
                    height: frame.height,
                    last_frame_ptr: 0,
                    last_upload_ms: 0,
                },
            ),
            bindings: self.bindings.filter(
                |binding: (u64, u32)| shared_texture(binding.0) != id,
            ),
            planes: if self.planes.contains_key(id) {
                self.planes.insert(id, YuvTextures { bound: false, ..self.planes[id] })
            } else {
                self.planes
            },
            ..self
        }
    }

    /// The plane textures of source `id` have to be made anew for `shape`.
    pub open spec fn lacks_planes(self, id: u64, shape: PlaneShape) -> bool {
        !(self.planes.contains_key(id) && self.planes[id].shape == shape)
    }

    /// After plane textures were made sure of.
    pub open spec fn after_planes(self, id: u64, shape: PlaneShape) -> PipelineState {
        if self.lacks_planes(id, shape) {
            PipelineState {
                planes: self.planes.insert(id, YuvTextures { shape, bound: false }),
                ..self
            }
        } else {
            self
        }
    }

    /// After a frame was converted, or could not be.
    pub open spec fn after_conversion(self, id: u64, frame: VideoFrame) -> PipelineState {
        let ready = self.after_planes(id, PlaneShape::of(frame));
        if frame.refusal() is Some {
            ready
        } else {
            PipelineState {
                planes: ready.planes.insert(
                    id,
                    YuvTextures { bound: true, ..ready.planes[id] },
                ),
                ..ready
            }
        }
    }

    /// Before the pixels of a frame move: its texture exists and is marked with
    /// the frame.
    pub open spec fn after_marking(
        self,
        frame: VideoFrame,
        ptr: usize,
        create: bool,
    ) -> PipelineState {
        let id = shared_texture(frame.id);
        let made = if create {
            self.after_create(frame)
        } else {
            self
        };
        PipelineState {
            textures: made.textures.insert(
                id,
                SourceTexture { last_frame_ptr: ptr, ..made.textures[id] },
            ),
            ..made
        }
    }

    /// After a frame was handed to the GPU.
    pub open spec fn after_upload(
        self,
        frame: VideoFrame,
        ptr: usize,
        create: bool,
    ) -> PipelineState {
        let marked = self.after_marking(frame, ptr, create);
        if frame.format is RGBA {
            marked
        } else {
            marked.after_conversion(shared_texture(frame.id), frame)
        }
    }

    /// After a frame was offered.
    pub open spec fn after_offer(self, frame: VideoFrame, ptr: usize) -> PipelineState {
        match self.verdict(frame, ptr) {
            Verdict::Empty => self,
            Verdict::Duplicate => self,
            Verdict::Skip => self.after_skip(frame, ptr),
            Verdict::Upload { create } => self.after_upload(frame, ptr, create),
        }
    }

    /// After the GPU took an upload of `size` bytes: the copy alone took
    /// `copy_us`, all of it `total_ms`.
    pub open spec fn after_finish(
        self,
        id: u64,
        size: u64,
        copy_us: u64,
        total_ms: u64,
    ) -> PipelineState {
        PipelineState {
            textures: if self.textures.contains_key(id) {
                self.textures.insert(
                    id,
                    SourceTexture { last_upload_ms: total_ms, ..self.textures[id] },
                )
            } else {
                self.textures
            },
            skipped: 0,
            metrics: GpuMetrics { upload_time_us: copy_us, frame_size: size },
            ..self
        }
    }

    /// After a binding was asked for: it is there if its texture is.
    pub open spec fn after_bind(self, video_id: u64, filter_mode: u32) -> PipelineState {
        if self.textures.contains_key(shared_texture(video_id)) {
            PipelineState { bindings: self.bindings.insert((video_id, filter_mode)), ..self }
        } else {
            self
        }
    }

    /// After a source's blur was declared stale.
    pub open spec fn after_invalidation(self, video_id: u64) -> PipelineState {
        if self.blur_targets.contains_key(video_id) {
            PipelineState {
                blur_targets: self.blur_targets.insert(
                    video_id,
                    BlurTargets { cached: false, ..self.blur_targets[video_id] },
                ),
                ..self
            }
        } else {
            self
        }
    }

    /// The blur textures of a source exist at this size.
    pub open spec fn targets_fit(self, video_id: u64, width: u32, height: u32) -> bool {
        &&& self.blur_targets.contains_key(video_id)
        &&& self.blur_targets[video_id].width == width
        &&& self.blur_targets[video_id].height == height
    }

    /// After blur textures of a size were made sure of.
    pub open spec fn after_targets(self, video_id: u64, width: u32, height: u32) -> PipelineState {
        if self.targets_fit(video_id, width, height) {
            self
        } else {
            PipelineState {
                blur_targets: self.blur_targets.insert(
                    video_id,
                    BlurTargets { width, height, cached: false },
                ),
                ..self
            }
        }
    }

    /// After the pre-blur texture of a size was made sure of.
    pub open spec fn after_preblur(self, width: u32, height: u32) -> PipelineState {
        PipelineState { preblur: Some((width, height)), ..self }
    }
}

/// The bookkeeper.
#[derive(Debug)]
pub struct VideoPipeline {
    pub textures: HashMap<u64, SourceTexture>,
    pub bindings: Vec<(u64, u32)>,
    pub blur_targets: HashMap<u64, BlurTargets>,
    pub preblur: Option<(u32, u32)>,
    pub yuv_textures: HashMap<u64, YuvTextures>,
    pub frames_skipped: u32,
    pub metrics: GpuMetrics,
}

impl View for VideoPipeline {
    type V = PipelineState;

    open spec fn view(&self) -> PipelineState {
        PipelineState {
            textures: self.textures@,
            bindings: self.bindings@.to_set(),
            blur_targets: self.blur_targets@,
            preblur: self.preblur,
            planes: self.yuv_textures@,
            skipped: self.frames_skipped,
            metrics: self.metrics,
        }
    }
}

/// What to do with the pixels of a frame.
#[derive(Debug)]
pub enum UploadWork {
    /// Copy them as they are.
    Copy { bytes_per_row: u32, width: u32, height: u32 },
    /// Convert them: make the plane textures given, then carry out the plan,
    /// binding the planes first where that is asked for.
    Convert {
        create: Option<PlaneTextures>,
        bind: bool,
        plan: Result<ConversionPlan, ConversionRefusal>,
    },
}

/// What to do with a frame.
#[derive(Debug)]
pub enum UploadAction {
    /// It has no pixels.
    Empty,
    /// It has been handled before.
    Duplicate,
    /// The GPU is behind: let it pass. Every tenth in a row is worth a warning.
    Skipped { count: u32, last_upload_ms: u64, warn: bool },
    /// Upload it to texture `id`, made anew where that is asked for.
    Upload { id: u64, create: bool, work: UploadWork },
}

/// `action` is what becomes of a frame in `state`.
pub open spec fn upload_answers(
    action: UploadAction,
    state: PipelineState,
    frame: VideoFrame,
    ptr: usize,
    format_code: u32,
) -> bool {
    let id = shared_texture(frame.id);
    match state.verdict(frame, ptr) {
        Verdict::Empty => action is Empty,
        Verdict::Duplicate => action is Duplicate,
        Verdict::Skip => {
            let count = state.after_skip(frame, ptr).skipped;
            action == (UploadAction::Skipped {
                count,
                last_upload_ms: state.textures[id].last_upload_ms,
                warn: count % 10 == 1,
            })
        },
        Verdict::Upload { create } => {
            &&& action matches UploadAction::Upload { id: texture, create: made, work }
            &&& texture == id
            &&& made == create
            &&& work_answers(work, state.after_marking(frame, ptr, create), frame, format_code)
        },
    }
}

/// `work` moves the pixels of a frame in `state`.
pub open spec fn work_answers(
    work: UploadWork,
    state: PipelineState,
    frame: VideoFrame,
    format_code: u32,
) -> bool {
    let id = shared_texture(frame.id);
    let shape = PlaneShape::of(frame);
    if frame.format is RGBA {
        work == (UploadWork::Copy {
            bytes_per_row: frame.stride,
            width: frame.width,
            height: frame.height,
        })
    } else {
        &&& work matches UploadWork::Convert { create, bind, plan }
        &&& create == (if state.lacks_planes(id, shape) {
            Some(shape.planes())
        } else {
            None
        })
        &&& bind == (frame.refusal() is None && !state.after_planes(id, shape).planes[id].bound)
        &&& match plan {
            Err(refusal) => frame.refusal() == Some(refusal),
            Ok(plan) => {
                &&& frame.refusal() is None
                &&& plan.writes@ == frame.plane_writes()
                &&& plan.params == frame.convert_params(format_code)
                &&& plan.groups == (groups_over(frame.width), groups_over(frame.height))
            },
        }
    }
}

impl VideoPipeline {
    /// No binding is listed twice, and every one has a texture under it.
    pub open spec fn wf(self) -> bool {
        &&& self.bindings@.no_duplicates()
        &&& self@.bindings_are_backed()
    }

    /// Nothing exists yet.
    pub fn new() -> (pipeline: VideoPipeline)
        ensures
            pipeline.wf(),
            pipeline@ == PipelineState::initial(),
    {
        let pipeline = VideoPipeline {
            textures: HashMap::new(),
            bindings: Vec::new(),
            blur_targets: HashMap::new(),
            preblur: None,
            yuv_textures: HashMap::new(),
            frames_skipped: 0,
            metrics: GpuMetrics { upload_time_us: 0, frame_size: 0 },
        };
        assert(pipeline@ =~= PipelineState::initial());
        pipeline
    }

    /// Drops the bindings over texture `id`.
    fn drop_bindings(&mut self, id: u64)
        requires
            old(self).bindings@.no_duplicates(),
        ensures
            final(self).bindings@.no_duplicates(),
            final(self)@ == (PipelineState {
                bindings: old(self)@.bindings.filter(
                    |binding: (u64, u32)| shared_texture(binding.0) != id,
                ),
                ..old(self)@
            }),
    {
        let ghost before = self.bindings@;
        let mut kept: Vec<(u64, u32)> = Vec::new();
        let mut i: usize = 0;
        while i < self.bindings.len()
            invariant
                i <= self.bindings@.len(),
                self.bindings@ == before,
                *self == *old(self),
                before.no_duplicates(),
                kept@.no_duplicates(),
                forall|binding: (u64, u32)| #[trigger]
                    kept@.contains(binding) <==> (exists|j: int|
                        0 <= j < i && #[trigger] before[j] == binding) && shared_texture(binding.0)
                        != id,
            decreases self.bindings@.len() - i,
        {
            let binding: (u64, u32) = self.bindings[i];
            let ghost so_far = kept@;
            if source_texture_id(binding.0) != id {
                proof {
                    if so_far.contains(binding) {
                        let j = choose|j: int| 0 <= j < i && #[trigger] before[j] == binding;
                        assert(before[j] != before[i as int]);
                    }
                }
                kept.push(binding);
                assert forall|other: (u64, u32)| #[trigger] kept@.contains(other) <==> (exists|
                    j: int,
                |
                    0 <= j < i + 1 && #[trigger] before[j] == other) && shared_texture(other.0)
                    != id by {
                    if kept@.contains(other) {
                        let n = choose|n: int| 0 <= n < kept@.len() && kept@[n] == other;
                        if n < so_far.len() {
                            assert(so_far[n] == other);
                            assert(so_far.contains(other));
                        } else {
                            assert(before[i as int] == other);
                        }
                    }
                    if (exists|j: int| 0 <= j < i + 1 && #[trigger] before[j] == other)
                        && shared_texture(other.0) != id {
                        let j = choose|j: int| 0 <= j < i + 1 && #[trigger] before[j] == other;
                        if j < i {
                            assert(so_far.contains(other));
                            let n = choose|n: int| 0 <= n < so_far.len() && so_far[n] == other;
                            assert(kept@[n] == other);
                        } else {
                            assert(kept@[so_far.len() as int] == other);
                        }
                    }
                }
            } else {
                assert forall|other: (u64, u32)| #[trigger] kept@.contains(other) <==> (exists|
                    j: int,
                |
                    0 <= j < i + 1 && #[trigger] before[j] == other) && shared_texture(other.0)
                    != id by {
                    if (exists|j: int| 0 <= j < i + 1 && #[trigger] before[j] == other)
                        && shared_texture(other.0) != id {
                        let j = choose|j: int| 0 <= j < i + 1 && #[trigger] before[j] == other;
                        assert(j < i);
                    }
                }
            }
            i = i + 1;
        }
        self.bindings = kept;
        proof {
            assert(self@.bindings =~= old(self)@.bindings.filter(
                |binding: (u64, u32)| shared_texture(binding.0) != id,
            )) by {
                assert forall|binding: (u64, u32)| #[trigger] self@.bindings.contains(binding)
                    <==> (before.to_set().contains(binding) && shared_texture(binding.0) != id) by {
                    if before.to_set().contains(binding) {
                        assert(before.contains(binding));
                    }
                }
            }
        }
    }

    /// Makes sure of the plane textures of source `id`; says which to make.
    pub fn ensure_yuv_textures(&mut self, id: u64, shape: PlaneShape) -> (create: Option<
        PlaneTextures,
    >)
        requires
            old(self).wf(),
        ensures
            final(self).wf(),
            final(self)@ == old(self)@.after_planes(id, shape),
            create == (if old(self)@.lacks_planes(id, shape) {
                Some(shape.planes())
            } else {
                None
            }),
    {
        if let Some(planes) = self.yuv_textures.get(&id) {
            if planes.shape == shape {
                return None;
            }
        }
        self.yuv_textures.insert(id, YuvTextures { shape, bound: false });
        assert(self@ =~= old(self)@.after_planes(id, shape));
        Some(shape.textures())
    }

    /// Plans the conversion of a frame into texture `id`.
    fn convert(&mut self, id: u64, frame: &VideoFrame, format_code: u32) -> (work: UploadWork)
        requires
            old(self).wf(),
            frame.planes_in_bounds(),
            id == shared_texture(frame.id),
            !(frame.format is RGBA),
        ensures
            final(self).wf(),
            final(self)@ == old(self)@.after_conversion(id, *frame),
            work_answers(work, old(self)@, *frame, format_code),
    {
        let shape = PlaneShape::for_frame(frame);
        let create = self.ensure_yuv_textures(id, shape);
        let plan = frame.upload_yuv_and_convert(format_code);
        let mut bind = false;
        if plan.is_ok() {
            let mut planes = YuvTextures { shape, bound: false };
            if let Some(known) = self.yuv_textures.get(&id) {
                planes = *known;
            }
            bind = !planes.bound;
            self.yuv_textures.insert(id, YuvTextures { shape: planes.shape, bound: true });
        }
        assert(self@ =~= old(self)@.after_conversion(id, *frame));
        UploadWork::Convert { create, bind, plan }
    }

    /// What will become of a frame whose data lies at `frame_ptr`.
    pub fn judge(&self, frame: &VideoFrame, frame_ptr: usize) -> (verdict: Verdict)
        ensures
            verdict == self@.verdict(*frame, frame_ptr),
    {
        if frame.width == 0 || frame.height == 0 {
            return Verdict::Empty;
        }
        match self.textures.get(&source_texture_id(frame.id)) {
            Some(texture) => {
                let create = texture.width != frame.width || texture.height != frame.height;
                // Before the skip: a frame that is there already costs nothing,
                // and must not use up the skip that a slow source needs.
                if !create && texture.last_frame_ptr == frame_ptr {
                    Verdict::Duplicate
                } else if texture.last_upload_ms > UPLOAD_LIMIT_MS {
                    Verdict::Skip
                } else {
                    Verdict::Upload { create }
                }
            },
            None => Verdict::Upload { create: true },
        }
    }

    /// Offers a frame whose data lies at `frame_ptr`; `format_code` is the number
    /// that the conversion shader knows its format by. The planes of a frame are
    /// read only where it is uploaded.
    pub fn upload(&mut self, frame: &VideoFrame, frame_ptr: usize, format_code: u32) -> (action:
        UploadAction)
        requires
            old(self).wf(),
            old(self)@.verdict(*frame, frame_ptr) is Upload ==> frame.planes_in_bounds(),
        ensures
            final(self).wf(),
            final(self)@ == old(self)@.after_offer(*frame, frame_ptr),
            upload_answers(action, old(self)@, *frame, frame_ptr, format_code),
    {
        let id: u64 = source_texture_id(frame.id);
        let known: Option<SourceTexture> = match self.textures.get(&id) {
            Some(texture) => Some(*texture),
            None => None,
        };
        let create = match self.judge(frame, frame_ptr) {
            Verdict::Empty => {
                return UploadAction::Empty;
            },
            Verdict::Duplicate => {
                return UploadAction::Duplicate;
            },
            Verdict::Skip => {
                let mut last_upload_ms: u64 = 0;
                if let Some(texture) = known {
                    last_upload_ms = texture.last_upload_ms;
                    self.textures.insert(
                        id,
                        SourceTexture {
                            width: texture.width,
                            height: texture.height,
                            last_frame_ptr: frame_ptr,
                            last_upload_ms: 0,
                        },
                    );
                }
                self.frames_skipped = self.frames_skipped.wrapping_add(1);
                assert(self@ =~= old(self)@.after_skip(*frame, frame_ptr));
                return UploadAction::Skipped {
                    count: self.frames_skipped,
                    last_upload_ms,
                    warn: self.frames_skipped % 10 == 1,
                };
            },
            Verdict::Upload { create } => create,
        };
        if create {
            self.drop_bindings(id);
            let bound: Option<YuvTextures> = match self.yuv_textures.get(&id) {
                Some(planes) => Some(*planes),
                None => None,
            };
            if let Some(planes) = bound {
                self.yuv_textures.insert(id, YuvTextures { shape: planes.shape, bound: false });
            }
        }
        let last_upload_ms: u64 = match known {
            Some(texture) => if create {
                0
            } else {
                texture.last_upload_ms
            },
            None => 0,
        };
        self.textures.insert(
            id,
            SourceTexture {
                width: frame.width,
                height: frame.height,
                last_frame_ptr: frame_ptr,
                last_upload_ms,
            },
        );
        assert(self@ =~= old(self)@.after_marking(*frame, frame_ptr, create));
        let work = if frame.needs_gpu_conversion() {
            self.convert(id, frame, format_code)
        } else {
            UploadWork::Copy {
                bytes_per_row: frame.stride,
                width: frame.width,
                height: frame.height,
            }
        };
        UploadAction::Upload { id, create, work }
    }

    /// Takes note of an upload that the GPU took; says how many frames had been
    /// skipped before it, if any had.
    pub fn finish_upload(&mut self, id: u64, size: u64, copy_us: u64, total_ms: u64) -> (recovered:
        Option<u32>)
        requires
            old(self).wf(),
        ensures
            final(self).wf(),
            final(self)@ == old(self)@.after_finish(id, size, copy_us, total_ms),
            recovered == (if old(self)@.skipped > 0 {
                Some(old(self)@.skipped)
            } else {
                None
            }),
    {
        self.metrics = GpuMetrics { upload_time_us: copy_us, frame_size: size };
        let known: Option<SourceTexture> = match self.textures.get(&id) {
            Some(texture) => Some(*texture),
            None => None,
        };
        if let Some(texture) = known {
            self.textures.insert(
                id,
                SourceTexture {
                    width: texture.width,
                    height: texture.height,
                    last_frame_ptr: texture.last_frame_ptr,
                    last_upload_ms: total_ms,
                },
            );
        }
        let skipped: u32 = self.frames_skipped;
        self.frames_skipped = 0;
        assert(self@ =~= old(self)@.after_finish(id, size, copy_us, total_ms));
        if skipped > 0 {
            Some(skipped)
        } else {
            None
        }
    }

    /// Whether a source has a binding for a filter.
    pub fn has_binding(&self, video_id: u64, filter_mode: u32) -> (answer: bool)
        ensures
            answer == self@.bindings.contains((video_id, filter_mode)),
    {
        let mut i: usize = 0;
        while i < self.bindings.len()
            invariant
                i <= self.bindings@.len(),
                forall|j: int| 0 <= j < i ==> self.bindings@[j] != (video_id, filter_mode),
            decreases self.bindings@.len() - i,
        {
            let binding: (u64, u32) = self.bindings[i];
            if binding.0 == video_id && binding.1 == filter_mode {
                assert(self.bindings@[i as int] == (video_id, filter_mode));
                return true;
            }
            i = i + 1;
        }
        false
    }

    /// Makes sure of a binding, where there is a texture for it.
    pub fn get_or_create_binding(&mut self, video_id: u64, filter_mode: u32) -> (outcome:
        BindingOutcome)
        requires
            old(self).wf(),
        ensures
            final(self).wf(),
            final(self)@ == old(self)@.after_bind(video_id, filter_mode),
            outcome == (if old(self)@.bindings.contains((video_id, filter_mode)) {
                BindingOutcome::Present
            } else if old(self)@.textures.contains_key(shared_texture(video_id)) {
                BindingOutcome::Created
            } else {
                BindingOutcome::NoTexture
            }),
    {
        if self.has_binding(video_id, filter_mode) {
            proof {
                let there = self@.bindings;
                assert(there.insert((video_id, filter_mode)) =~= there);
            }
            return BindingOutcome::Present;
        }
        if !self.textures.contains_key(&source_texture_id(video_id)) {
            return BindingOutcome::NoTexture;
        }
        let ghost before = self.bindings@;
        self.bindings.push((video_id, filter_mode));
        proof {
            assert forall|binding: (u64, u32)| #[trigger] self@.bindings.contains(binding)
                <==> before.to_set().insert((video_id, filter_mode)).contains(binding) by {
                if before.contains(binding) {
                    let n = choose|n: int| 0 <= n < before.len() && before[n] == binding;
                    assert(self.bindings@[n] == binding);
                }
                assert(self.bindings@[before.len() as int] == (video_id, filter_mode));
                if self.bindings@.contains(binding) {
                    let n = choose|n: int|
                        0 <= n < self.bindings@.len() && self.bindings@[n] == binding;
                    if n < before.len() {
                        assert(before[n] == binding);
                        assert(before.contains(binding));
                    }
                }
            }
            assert(self@ =~= old(self)@.after_bind(video_id, filter_mode));
            assert forall|a: int, b: int|
                0 <= a < b < self.bindings@.len() implies self.bindings@[a] != self.bindings@[b] by {
                if b == before.len() && self.bindings@[a] == self.bindings@[b] {
                    assert(before[a] == (video_id, filter_mode));
                    assert(before.contains((video_id, filter_mode)));
                }
            }
        }
        BindingOutcome::Created
    }

    /// Declares a source's blur stale; the other source's stays good.
    pub fn invalidate_blur_cache(&mut self, video_id: u64)
        requires
            old(self).wf(),
        ensures
            final(self).wf(),
            final(self)@ == old(self)@.after_invalidation(video_id),
    {
        let known: Option<BlurTargets> = match self.blur_targets.get(&video_id) {
            Some(targets) => Some(*targets),
            None => None,
        };
        if let Some(targets) = known {
            self.blur_targets.insert(
                video_id,
                BlurTargets { width: targets.width, height: targets.height, cached: false },
            );
        }
        assert(self@ =~= old(self)@.after_invalidation(video_id));
    }

    /// Makes sure of a source's blur textures, at least one texel each way; says
    /// the size to make them at, where they have to be made.
    pub fn ensure_blur_targets(&mut self, video_id: u64, width: u32, height: u32) -> (create:
        Option<(u32, u32)>)
        requires
            old(self).wf(),
        ensures
            final(self).wf(),
            final(self)@ == old(self)@.after_targets(
                video_id,
                at_least_one(width),
                at_least_one(height),
            ),
            create == (if old(self)@.targets_fit(
                video_id,
                at_least_one(width),
                at_least_one(height),
            ) {
                None
            } else {
                Some((at_least_one(width), at_least_one(height)))
            }),
    {
        let width: u32 = if width == 0 { 1 } else { width };
        let height: u32 = if height == 0 { 1 } else { height };
        if let Some(targets) = self.blur_targets.get(&video_id) {
            if targets.width == width && targets.height == height {
                return None;
            }
        }
        self.blur_targets.insert(video_id, BlurTargets { width, height, cached: false });
        assert(self@ =~= old(self)@.after_targets(video_id, width, height));
        Some((width, height))
    }

    /// Makes sure of the pre-blur texture; says whether it has to be made.
    pub fn ensure_filter_preblur_intermediate(&mut self, width: u32, height: u32) -> (create: bool)
        requires
            old(self).wf(),
        ensures
            final(self).wf(),
            final(self)@ == old(self)@.after_preblur(width, height),
            create == (old(self)@.preblur != Some((width, height))),
    {
        if let Some((known_width, known_height)) = self.preblur {
            if known_width == width && known_height == height {
                assert(self@ =~= old(self)@.after_preblur(width, height));
                return false;
            }
        }
        self.preblur = Some((width, height));
        assert(self@ =~= old(self)@.after_preblur(width, height));
        true
    }
}

/// What asking for a binding came to.
#[derive(Clone, Copy, Debug, PartialEq, Eq, Structural)]
pub enum BindingOutcome {
    Present,
    Created,
    /// There is nothing to bind to yet.
    NoTexture,
}

/// The preview, the frosted backdrop and the filter swatches share a texture;
/// the transition blur shares it with none of them.
pub proof fn law_one_frame_one_texture()
    ensures
        shared_texture(VIDEO_ID_FROSTED) == shared_texture(VIDEO_ID_NORMAL),
        shared_texture(VIDEO_ID_FILTER_PREVIEW) == shared_texture(VIDEO_ID_NORMAL),
        forall|video_id: u64|
            video_id != VIDEO_ID_BLUR ==> #[trigger] shared_texture(video_id) != shared_texture(
                VIDEO_ID_BLUR,
            ),
{
}

/// The transition blur keeps its frame, however many frames the other sources
/// are offered meanwhile.
pub proof fn law_transition_frame_stays_frozen(
    state: PipelineState,
    frame: VideoFrame,
    ptr: usize,
    filter_mode: u32,
)
    requires
        frame.id != VIDEO_ID_BLUR,
    ensures
        ({
            let after = state.after_offer(frame, ptr);
            &&& after.textures.contains_key(VIDEO_ID_BLUR) == state.textures.contains_key(
                VIDEO_ID_BLUR,
            )
            &&& after.textures[VIDEO_ID_BLUR] == state.textures[VIDEO_ID_BLUR]
            &&& after.bindings.contains((VIDEO_ID_BLUR, filter_mode)) == state.bindings.contains(
                (VIDEO_ID_BLUR, filter_mode),
            )
            &&& after.blur_targets == state.blur_targets
        }),
{
}

/// `twin` shows the same pixels as `frame`, for whichever source.
pub open spec fn same_picture(frame: VideoFrame, twin: VideoFrame) -> bool {
    &&& shared_texture(twin.id) == shared_texture(frame.id)
    &&& twin.width == frame.width
    &&& twin.height == frame.height
}

/// A frame is uploaded once: offered again from the same place, for any source
/// that shares its texture and however long the upload took, it is a duplicate.
pub proof fn law_frames_upload_once(
    state: PipelineState,
    frame: VideoFrame,
    twin: VideoFrame,
    ptr: usize,
    size: u64,
    copy_us: u64,
    total_ms: u64,
)
    requires
        state.verdict(frame, ptr) is Upload,
        same_picture(frame, twin),
    ensures
        state.after_offer(frame, ptr).verdict(twin, ptr) is Duplicate,
        state.after_offer(frame, ptr).after_finish(
            shared_texture(frame.id),
            size,
            copy_us,
            total_ms,
        ).verdict(twin, ptr) is Duplicate,
{
}

/// A frame that is skipped is skipped for every source that shares its texture,
/// and the next frame passes, whatever its size. A frame of another size than
/// the texture is not covered: it may pass when it is offered again.
pub proof fn law_skips_cover_every_consumer(
    state: PipelineState,
    frame: VideoFrame,
    twin: VideoFrame,
    next: VideoFrame,
    ptr: usize,
    next_ptr: usize,
)
    requires
        state.verdict(frame, ptr) is Skip,
        state.fits(shared_texture(frame.id), frame.width, frame.height),
        same_picture(frame, twin),
        shared_texture(next.id) == shared_texture(frame.id),
        next.width != 0 && next.height != 0,
        next_ptr != ptr,
    ensures
        state.after_offer(frame, ptr).verdict(twin, ptr) is Duplicate,
        state.after_offer(frame, ptr).verdict(next, next_ptr) is Upload,
{
}

/// Two frames in a row from one source are never both skipped, unless an upload
/// came between them.
pub proof fn law_no_two_skips_in_a_row(
    state: PipelineState,
    frame: VideoFrame,
    next: VideoFrame,
    ptr: usize,
    next_ptr: usize,
)
    requires
        state.verdict(frame, ptr) is Skip,
        shared_texture(next.id) == shared_texture(frame.id),
    ensures
        !(state.after_offer(frame, ptr).verdict(next, next_ptr) is Skip),
{
}

/// How slow one source's uploads are decides nothing for a source with another
/// texture.
pub proof fn law_sources_are_throttled_apart(
    state: PipelineState,
    id: u64,
    frame: VideoFrame,
    ptr: usize,
    size: u64,
    copy_us: u64,
    total_ms: u64,
)
    requires
        shared_texture(frame.id) != id,
    ensures
        state.after_finish(id, size, copy_us, total_ms).verdict(frame, ptr) == state.verdict(
            frame,
            ptr,
        ),
{
}

/// A texture that is made anew leaves no binding over the one that it replaces,
/// and every other binding where it was.
pub proof fn law_no_stale_bindings(
    state: PipelineState,
    frame: VideoFrame,
    ptr: usize,
    video_id: u64,
    filter_mode: u32,
)
    requires
        state.verdict(frame, ptr) == (Verdict::Upload { create: true }),
    ensures
        state.after_offer(frame, ptr).bindings.contains((video_id, filter_mode)) <==> (
        state.bindings.contains((video_id, filter_mode)) && shared_texture(video_id)
            != shared_texture(frame.id)),
{
}

/// A conversion never runs on planes that are bound to an output that is gone:
/// where the output is made anew, the planes are bound anew.
pub proof fn law_no_stale_conversion(
    action: UploadAction,
    state: PipelineState,
    frame: VideoFrame,
    ptr: usize,
    format_code: u32,
)
    requires
        state.verdict(frame, ptr) == (Verdict::Upload { create: true }),
        frame.refusal() is None,
        upload_answers(action, state, frame, ptr, format_code),
    ensures
        action matches UploadAction::Upload { work: UploadWork::Convert { bind: true, .. }, .. },
{
}

/// Offering a frame keeps every binding backed by a texture.
pub proof fn law_bindings_stay_backed(state: PipelineState, frame: VideoFrame, ptr: usize)
    requires
        state.bindings_are_backed(),
    ensures
        state.after_offer(frame, ptr).bindings_are_backed(),
{
}

/// A blur that is declared stale, or resized, leaves the other source's blur as
/// it was.
pub proof fn law_blurs_are_apart(
    state: PipelineState,
    video_id: u64,
    other: u64,
    width: u32,
    height: u32,
)
    requires
        other != video_id,
        state.blur_targets.contains_key(other),
    ensures
        state.after_invalidation(video_id).blur_targets.contains_key(other),
        state.after_invalidation(video_id).blur_targets[other] == state.blur_targets[other],
        state.after_targets(video_id, width, height).blur_targets.contains_key(other),
        state.after_targets(video_id, width, height).blur_targets[other]
            == state.blur_targets[other],
{
}

/// Asking for the size that is there keeps the blur; any other size starts it
/// cold.
pub proof fn law_resizing_starts_cold(
    state: PipelineState,
    video_id: u64,
    width: u32,
    height: u32,
)
    ensures
        state.after_targets(video_id, width, height).targets_fit(video_id, width, height),
        state.targets_fit(video_id, width, height) ==> state.after_targets(video_id, width, height)
            == state,
        !state.targets_fit(video_id, width, height) ==> !state.after_targets(
            video_id,
            width,
            height,
        ).blur_targets[video_id].cached,
{
}

/// Every source but the two that draw the preview's frame has a texture to itself,
/// and only the transition and the frosted backdrop are drawn through the blur.
pub proof fn law_sources_and_their_textures(one: u64, other: u64)
    ensures
        one != VIDEO_ID_FROSTED && one != VIDEO_ID_FILTER_PREVIEW ==> shared_texture(one) == one,
        shared_texture(VIDEO_ID_FROSTED) == VIDEO_ID_NORMAL,
        shared_texture(VIDEO_ID_FILTER_PREVIEW) == VIDEO_ID_NORMAL,
        shared_texture(shared_texture(one)) == shared_texture(one),
        one != other && shared_texture(one) == shared_texture(other) ==> shared_texture(one)
            == VIDEO_ID_NORMAL,
        blurred_source(one) <==> one == VIDEO_ID_BLUR || one == VIDEO_ID_FROSTED,
        !blurred_source(VIDEO_ID_NORMAL) && !blurred_source(VIDEO_ID_FILTER_PREVIEW),
{
}

/// What becomes of a frame, by what its texture holds: the first frame of a source is
/// uploaded to a new texture, a frame that the texture holds already is not uploaded
/// again, however slow the GPU is, another one is skipped where the last upload took
/// longer than the limit and uploaded otherwise, to a new texture where its size is
/// another.
pub proof fn law_fate_of_a_frame(state: PipelineState, frame: VideoFrame, ptr: usize)
    ensures
        ({
            let verdict = state.verdict(frame, ptr);
            let known = state.textures.contains_key(shared_texture(frame.id));
            let texture = state.textures[shared_texture(frame.id)];
            let same_size = texture.width == frame.width && texture.height == frame.height;
            let held = same_size && texture.last_frame_ptr == ptr;
            &&& frame.width == 0 || frame.height == 0 <==> verdict is Empty
            &&& frame.width > 0 && frame.height > 0 ==> {
                &&& !known ==> verdict == (Verdict::Upload { create: true })
                &&& known && held ==> verdict is Duplicate
                &&& known && !held && texture.last_upload_ms > 32 ==> verdict is Skip
                &&& known && !held && texture.last_upload_ms <= 32 && same_size ==> verdict
                    == (Verdict::Upload { create: false })
                &&& known && !held && texture.last_upload_ms <= 32 && !same_size ==> verdict
                    == (Verdict::Upload { create: true })
            }
        }),
{
}

/// A slow upload holds back the next frame, and a fast one does not: what decides
/// is how long the last one took.
pub proof fn law_slow_uploads_hold_back_one_frame(
    state: PipelineState,
    frame: VideoFrame,
    next: VideoFrame,
    ptr: usize,
    next_ptr: usize,
    size: u64,
    copy_us: u64,
    total_ms: u64,
)
    requires
        state.verdict(frame, ptr) is Upload,
        next.id == frame.id,
        next.width > 0 && next.height > 0,
        next_ptr != ptr,
    ensures
        ({
            let done = state.after_offer(frame, ptr).after_finish(
                shared_texture(frame.id),
                size,
                copy_us,
                total_ms,
            );
            &&& total_ms > 32 ==> done.verdict(next, next_ptr) is Skip
            &&& total_ms <= 32 ==> done.verdict(next, next_ptr) is Upload
        }),
{
}

/// An uploaded frame leaves its mark on its own texture and on nothing else: the
/// texture has its size and is marked with it. A texture that stays keeps its
/// bindings and how long its last upload took.
pub proof fn law_uploads_mark_their_texture(
    state: PipelineState,
    frame: VideoFrame,
    ptr: usize,
    other: u64,
)
    requires
        state.verdict(frame, ptr) is Upload,
        other != shared_texture(frame.id),
    ensures
        ({
            let after = state.after_offer(frame, ptr);
            let id = shared_texture(frame.id);
            let kept = state.fits(id, frame.width, frame.height);
            &&& after.textures.contains_key(id)
            &&& after.textures[id].width == frame.width
            &&& after.textures[id].height == frame.height
            &&& after.textures[id].last_frame_ptr == ptr
            &&& kept ==> after.textures[id].last_upload_ms == state.textures[id].last_upload_ms
            &&& kept ==> after.bindings == state.bindings
            &&& !kept ==> after.textures[id].last_upload_ms == 0
            &&& after.textures.contains_key(other) == state.textures.contains_key(other)
            &&& after.textures[other] == state.textures[other]
            &&& after.planes.contains_key(other) == state.planes.contains_key(other)
            &&& after.planes[other] == state.planes[other]
            &&& after.preblur == state.preblur
            &&& after.skipped == state.skipped
            &&& after.metrics == state.metrics
        }),
{
}

/// A skipped frame is counted and remembered, and nothing else changes: not the
/// size of the texture, nor what is bound to it, nor any other texture.
pub proof fn law_skips_leave_the_picture(
    state: PipelineState,
    frame: VideoFrame,
    ptr: usize,
    other: u64,
)
    requires
        state.verdict(frame, ptr) is Skip,
        other != shared_texture(frame.id),
    ensures
        ({
            let after = state.after_offer(frame, ptr);
            let id = shared_texture(frame.id);
            &&& after.textures[id].width == state.textures[id].width
            &&& after.textures[id].height == state.textures[id].height
            &&& after.textures[id].last_frame_ptr == ptr
            &&& after.textures[id].last_upload_ms == 0
            &&& after.textures[other] == state.textures[other]
            &&& after.textures.contains_key(other) == state.textures.contains_key(other)
            &&& after.bindings == state.bindings
            &&& after.planes == state.planes
            &&& after.blur_targets == state.blur_targets
            &&& state.skipped < u32::MAX ==> after.skipped == state.skipped + 1
        }),
{
}

/// What a skip tells: how many there were since the last upload, how long that took,
/// and a warning at the first and then at every tenth.
pub proof fn law_skips_are_told(
    action: UploadAction,
    state: PipelineState,
    frame: VideoFrame,
    ptr: usize,
    format_code: u32,
)
    requires
        state.verdict(frame, ptr) is Skip,
        state.skipped < u32::MAX,
        upload_answers(action, state, frame, ptr, format_code),
    ensures
        action matches UploadAction::Skipped { count, last_upload_ms, warn } && {
            &&& count == state.skipped + 1
            &&& last_upload_ms == state.textures[shared_texture(frame.id)].last_upload_ms
            &&& warn <==> state.skipped as int % 10 == 0
        },
{
}

/// A frame with no pixels, and one that is there already, change nothing at all.
pub proof fn law_idle_offers_change_nothing(state: PipelineState, frame: VideoFrame, ptr: usize)
    requires
        frame.width == 0 || frame.height == 0 || state.verdict(frame, ptr) is Duplicate,
    ensures
        state.after_offer(frame, ptr) == state,
{
}

/// Pixels that need no conversion are copied whole: every row of the frame, at the
/// stride that it tells. All others are converted; what cannot be says why.
pub proof fn law_uploads_move_the_pixels(
    action: UploadAction,
    state: PipelineState,
    frame: VideoFrame,
    ptr: usize,
    format_code: u32,
)
    requires
        state.verdict(frame, ptr) is Upload,
        upload_answers(action, state, frame, ptr, format_code),
    ensures
        action matches UploadAction::Upload { id, create, work } && {
            &&& id == shared_texture(frame.id)
            &&& create <==> !state.fits(id, frame.width, frame.height)
            &&& frame.format is RGBA ==> (work matches UploadWork::Copy {
                bytes_per_row,
                width,
                height,
            } && bytes_per_row == frame.stride && width == frame.width && height == frame.height)
            &&& !(frame.format is RGBA) ==> (work matches UploadWork::Convert { plan, .. }
                && match plan {
                Ok(plan) => {
                    &&& plan.writes@ == frame.plane_writes()
                    &&& plan.params.y_stride == frame.stride
                    &&& plan.params.width == frame.width
                    &&& plan.params.height == frame.height
                    &&& plan.params.format == format_code
                    &&& plan.groups.0 * 16 >= frame.width > (plan.groups.0 - 1) * 16
                    &&& plan.groups.1 * 16 >= frame.height > (plan.groups.1 - 1) * 16
                },
                Err(reason) => {
                    ||| reason is Rgb24 && frame.format is RGB24
                    ||| reason is Bayer && frame.format.bayer()
                },
            })
        },
{
    crate::frame::law_groups_cover_the_frame(frame.width);
    crate::frame::law_groups_cover_the_frame(frame.height);
}

/// Plane textures are made once for as long as the shape of the frames stays: the
/// second frame of a shape finds them, already bound, and a frame of another shape
/// gets its own.
pub proof fn law_planes_are_made_once(
    action: UploadAction,
    state: PipelineState,
    frame: VideoFrame,
    next: VideoFrame,
    ptr: usize,
    next_ptr: usize,
    format_code: u32,
)
    requires
        state.verdict(frame, ptr) is Upload,
        frame.refusal() is None,
        next.refusal() is None,
        next.id == frame.id,
        state.after_offer(frame, ptr).verdict(next, next_ptr) is Upload,
        upload_answers(action, state.after_offer(frame, ptr), next, next_ptr, format_code),
    ensures
        ({
            let id = shared_texture(frame.id);
            let planes = state.after_offer(frame, ptr).planes;
            let one = PlaneShape::of(frame);
            let other = PlaneShape::of(next);
            &&& planes.contains_key(id)
            &&& planes[id].shape == one
            &&& planes[id].bound
            &&& action matches UploadAction::Upload {
                work: UploadWork::Convert { create, bind, .. },
                ..
            }
            &&& one == other ==> create is None && !bind
            &&& one != other ==> create == Some(other.planes()) && bind
        }),
{
}

/// An upload that the GPU took is timed on its own texture, sets the figures and
/// ends the run of skips; sizes, marks and everything bound stay.
pub proof fn law_finished_uploads_are_timed(
    state: PipelineState,
    id: u64,
    other: u64,
    size: u64,
    copy_us: u64,
    total_ms: u64,
)
    requires
        state.textures.contains_key(id),
        other != id,
    ensures
        ({
            let after = state.after_finish(id, size, copy_us, total_ms);
            &&& after.textures.contains_key(id)
            &&& after.textures[id].last_upload_ms == total_ms
            &&& after.textures[id].width == state.textures[id].width
            &&& after.textures[id].height == state.textures[id].height
            &&& after.textures[id].last_frame_ptr == state.textures[id].last_frame_ptr
            &&& after.textures[other] == state.textures[other]
            &&& after.metrics.upload_time_us == copy_us
            &&& after.metrics.frame_size == size
            &&& after.skipped == 0
            &&& after.bindings == state.bindings
            &&& after.blur_targets == state.blur_targets
            &&& after.planes == state.planes
        }),
{
}

/// A binding that was asked for is there just where its source has a texture, and
/// no other binding comes or goes.
pub proof fn law_bindings_need_a_texture(
    state: PipelineState,
    video_id: u64,
    filter_mode: u32,
    other: (u64, u32),
)
    requires
        state.bindings_are_backed(),
        other != (video_id, filter_mode),
    ensures
        ({
            let after = state.after_bind(video_id, filter_mode);
            &&& after.bindings.contains((video_id, filter_mode)) <==> state.textures.contains_key(
                shared_texture(video_id),
            )
            &&& after.bindings.contains(other) == state.bindings.contains(other)
            &&& after.textures == state.textures
            &&& after.blur_targets == state.blur_targets
        }),
{
}

/// A blur that was declared stale is run again at the size that it has; nothing but
/// what it holds changes.
pub proof fn law_stale_blurs_keep_their_size(state: PipelineState, video_id: u64)
    requires
        state.blur_targets.contains_key(video_id),
    ensures
        ({
            let after = state.after_invalidation(video_id);
            &&& after.blur_targets.contains_key(video_id)
            &&& !after.blur_targets[video_id].cached
            &&& after.blur_targets[video_id].width == state.blur_targets[video_id].width
            &&& after.blur_targets[video_id].height == state.blur_targets[video_id].height
            &&& after.textures == state.textures
            &&& after.bindings == state.bindings
        }),
{
}

/// Textures that were made sure of have the size asked for; what they hold is kept
/// only where they had it already.
pub proof fn law_textures_have_the_size_asked_for(
    state: PipelineState,
    video_id: u64,
    width: u32,
    height: u32,
)
    ensures
        ({
            let after = state.after_targets(video_id, width, height);
            let before = state.blur_targets[video_id];
            &&& after.blur_targets.contains_key(video_id)
            &&& after.blur_targets[video_id].width == width
            &&& after.blur_targets[video_id].height == height
            &&& after.blur_targets[video_id].cached <==> state.blur_targets.contains_key(video_id)
                && before.cached && before.width == width && before.height == height
            &&& state.after_preblur(width, height).preblur == Some((width, height))
            &&& state.after_preblur(width, height).textures == state.textures
            &&& after.textures == state.textures
        }),
{
}

/// At first nothing exists: the first frame of any source makes a texture, and
/// nothing is bound, blurred or counted.
pub proof fn law_at_first_nothing_exists(frame: VideoFrame, ptr: usize, id: u64, filter_mode: u32)
    requires
        frame.width > 0 && frame.height > 0,
    ensures
        ({
            let state = PipelineState::initial();
            &&& state.verdict(frame, ptr) == (Verdict::Upload { create: true })
            &&& !state.textures.contains_key(id)
            &&& !state.bindings.contains((id, filter_mode))
            &&& !state.blur_targets.contains_key(id)
            &&& !state.planes.contains_key(id)
            &&& state.preblur is None
            &&& state.skipped == 0
        }),
{
}

} // verus!
