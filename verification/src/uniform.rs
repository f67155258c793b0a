//! The uniform block that every preview shader reads.

use vstd::prelude::*;
use crate::bits::{F32, ONE_BITS};
use crate::blur::KawaseStep;
use crate::insets::BarInsets;
use crate::words::{buffer_bytes, in_memory};

verus! {

/// Words in the uniform block.
pub const UNIFORM_WORDS: usize = 40;

/// Bytes in the uniform block.
pub const UNIFORM_BYTES: usize = 160;

/// RGB multiplier of the transition blur's composite: 0.85 cubed.
pub const TRANSITION_DIM_BITS: u32 = 0x3f1d_374c;

/// Grain amplitude of the frosted composite: 0.03.
pub const FROSTED_NOISE_BITS: u32 = 0x3cf5_c28f;

/// Arguments of one pass.
///
/// The passes share one layout, so a field that only some of them read keeps
/// its place in all.
#[derive(Clone, Copy, Debug, PartialEq, Eq)]
pub struct ViewportUniform {
    /// Size that the fit works in.
    pub viewport_size: (F32, F32),
    /// 0 shows the whole image, 1 fills the viewport.
    pub content_fit_mode: F32,
    pub filter_mode: u32,
    /// In physical pixels; 0 keeps the corners square.
    pub corner_radius: F32,
    pub mirror_horizontal: u32,
    /// Where the visible part starts in the widget.
    pub uv_offset: (F32, F32),
    /// Size of the visible part relative to the widget.
    pub uv_scale: (F32, F32),
    pub crop_uv_min: (F32, F32),
    pub crop_uv_max: (F32, F32),
    pub zoom_level: F32,
    /// Quarter turns of the sensor.
    pub rotation: u32,
    pub bar_top_height: F32,
    pub bar_bottom_height: F32,
    /// Sample offset of a Kawase step, in physical pixels.
    pub kawase_offset: F32,
    /// RGB multiplier of the composite.
    pub dim_factor: F32,
    pub letterbox_color: (F32, F32, F32, F32),
    /// The rectangle that the corners are cut from, in physical pixels.
    pub panel_rect: (F32, F32, F32, F32),
    /// Grain amplitude of the composite.
    pub noise: F32,
    /// The part of the preview that the image covers: least x and y, then
    /// greatest.
    pub content_rect: (F32, F32, F32, F32),
    pub bar_left_width: F32,
    pub bar_right_width: F32,
}

/// The image covers the whole preview: nothing for the composite to cut.
pub open spec fn full_content_rect_value() -> (F32, F32, F32, F32) {
    (F32::zero(), F32::zero(), F32::one(), F32::one())
}

/// The image covers the whole preview: nothing for the composite to cut.
#[verifier::when_used_as_spec(full_content_rect_value)]
pub fn full_content_rect() -> (rect: (F32, F32, F32, F32))
    ensures
        rect == full_content_rect_value(),
{
    (F32::zero(), F32::zero(), F32::one(), F32::one())
}

/// Opaque black.
pub open spec fn black_value() -> (F32, F32, F32, F32) {
    (F32::zero(), F32::zero(), F32::zero(), F32::one())
}

/// Opaque black.
#[verifier::when_used_as_spec(black_value)]
pub fn black() -> (color: (F32, F32, F32, F32))
    ensures
        color == black_value(),
{
    (F32::zero(), F32::zero(), F32::zero(), F32::one())
}

impl ViewportUniform {
    /// A pass that changes nothing: no transform, no filter, square corners,
    /// no dimming, no grain, no offset.
    pub open spec fn identity() -> ViewportUniform {
        let nil = F32::zero();
        let one = F32::one();
        ViewportUniform {
            viewport_size: (nil, nil),
            content_fit_mode: nil,
            filter_mode: 0,
            corner_radius: nil,
            mirror_horizontal: 0,
            uv_offset: (nil, nil),
            uv_scale: (one, one),
            crop_uv_min: (nil, nil),
            crop_uv_max: (one, one),
            zoom_level: one,
            rotation: 0,
            bar_top_height: nil,
            bar_bottom_height: nil,
            kawase_offset: nil,
            dim_factor: one,
            letterbox_color: black(),
            panel_rect: (nil, nil, nil, nil),
            noise: nil,
            content_rect: full_content_rect(),
            bar_left_width: nil,
            bar_right_width: nil,
        }
    }

    /// The block word by word, as the shaders declare it.
    pub open spec fn layout(self) -> Seq<u32> {
        seq![
            self.viewport_size.0.bits,
            self.viewport_size.1.bits,
            self.content_fit_mode.bits,
            self.filter_mode,
            self.corner_radius.bits,
            self.mirror_horizontal,
            self.uv_offset.0.bits,
            self.uv_offset.1.bits,
            self.uv_scale.0.bits,
            self.uv_scale.1.bits,
            self.crop_uv_min.0.bits,
            self.crop_uv_min.1.bits,
            self.crop_uv_max.0.bits,
            self.crop_uv_max.1.bits,
            self.zoom_level.bits,
            self.rotation,
            self.bar_top_height.bits,
            self.bar_bottom_height.bits,
            self.kawase_offset.bits,
            self.dim_factor.bits,
            self.letterbox_color.0.bits,
            self.letterbox_color.1.bits,
            self.letterbox_color.2.bits,
            self.letterbox_color.3.bits,
            self.panel_rect.0.bits,
            self.panel_rect.1.bits,
            self.panel_rect.2.bits,
            self.panel_rect.3.bits,
            self.noise.bits,
            0,
            0,
            0,
            self.content_rect.0.bits,
            self.content_rect.1.bits,
            self.content_rect.2.bits,
            self.content_rect.3.bits,
            self.bar_left_width.bits,
            self.bar_right_width.bits,
            0,
            0,
        ]
    }

    /// The block word by word.
    pub fn to_words(&self) -> (words: [u32; UNIFORM_WORDS])
        ensures
            words@ == self.layout(),
    {
        let words: [u32; UNIFORM_WORDS] = [
            self.viewport_size.0.bits,
            self.viewport_size.1.bits,
            self.content_fit_mode.bits,
            self.filter_mode,
            self.corner_radius.bits,
            self.mirror_horizontal,
            self.uv_offset.0.bits,
            self.uv_offset.1.bits,
            self.uv_scale.0.bits,
            self.uv_scale.1.bits,
            self.crop_uv_min.0.bits,
            self.crop_uv_min.1.bits,
            self.crop_uv_max.0.bits,
            self.crop_uv_max.1.bits,
            self.zoom_level.bits,
            self.rotation,
            self.bar_top_height.bits,
            self.bar_bottom_height.bits,
            self.kawase_offset.bits,
            self.dim_factor.bits,
            self.letterbox_color.0.bits,
            self.letterbox_color.1.bits,
            self.letterbox_color.2.bits,
            self.letterbox_color.3.bits,
            self.panel_rect.0.bits,
            self.panel_rect.1.bits,
            self.panel_rect.2.bits,
            self.panel_rect.3.bits,
            self.noise.bits,
            0,
            0,
            0,
            self.content_rect.0.bits,
            self.content_rect.1.bits,
            self.content_rect.2.bits,
            self.content_rect.3.bits,
            self.bar_left_width.bits,
            self.bar_right_width.bits,
            0,
            0,
        ];
        assert(words@ =~= self.layout());
        words
    }

    /// The block as a uniform buffer takes it.
    pub fn to_bytes(&self) -> (bytes: Vec<u8>)
        ensures
            in_memory(self.layout(), bytes@),
            bytes@.len() == UNIFORM_BYTES,
    {
        let words: [u32; UNIFORM_WORDS] = self.to_words();
        buffer_bytes(words.as_slice())
    }
}

impl Default for ViewportUniform {
    fn default() -> (uniform: Self)
        ensures
            uniform == ViewportUniform::identity(),
    {
        ViewportUniform {
            viewport_size: (F32::zero(), F32::zero()),
            content_fit_mode: F32::zero(),
            filter_mode: 0,
            corner_radius: F32::zero(),
            mirror_horizontal: 0,
            uv_offset: (F32::zero(), F32::zero()),
            uv_scale: (F32::one(), F32::one()),
            crop_uv_min: (F32::zero(), F32::zero()),
            crop_uv_max: (F32::one(), F32::one()),
            zoom_level: F32::one(),
            rotation: 0,
            bar_top_height: F32::zero(),
            bar_bottom_height: F32::zero(),
            kawase_offset: F32::zero(),
            dim_factor: F32::one(),
            letterbox_color: black(),
            panel_rect: (F32::zero(), F32::zero(), F32::zero(), F32::zero()),
            noise: F32::zero(),
            content_rect: full_content_rect(),
            bar_left_width: F32::zero(),
            bar_right_width: F32::zero(),
        }
    }
}

/// What a pass that samples the camera frame does to it.
#[derive(Clone, Copy, Debug, PartialEq, Eq)]
pub struct SourceTransform {
    pub filter_mode: u32,
    pub mirror: bool,
    /// Quarter turns of the sensor.
    pub rotation: u32,
    pub zoom_level: F32,
    /// Least u and v, then greatest; the whole image where unset.
    pub crop_uv: Option<(F32, F32, F32, F32)>,
    pub letterbox_color: (F32, F32, F32, F32),
}

impl SourceTransform {
    /// Least and greatest corner of the crop.
    pub open spec fn crop_corners(self) -> ((F32, F32), (F32, F32)) {
        match self.crop_uv {
            Some((u_min, v_min, u_max, v_max)) => ((u_min, v_min), (u_max, v_max)),
            None => ((F32::zero(), F32::zero()), (F32::one(), F32::one())),
        }
    }

    /// Least and greatest corner of the crop.
    pub fn crop(&self) -> (corners: ((F32, F32), (F32, F32)))
        ensures
            corners == self.crop_corners(),
    {
        match self.crop_uv {
            Some((u_min, v_min, u_max, v_max)) => ((u_min, v_min), (u_max, v_max)),
            None => ((F32::zero(), F32::zero()), (F32::one(), F32::one())),
        }
    }
}

/// Where the preview goes: the size of its widget, how far it fills it, and the
/// bars in front of it.
#[derive(Clone, Copy, Debug, PartialEq, Eq)]
pub struct PreviewFit {
    pub width: F32,
    pub height: F32,
    pub cover_blend: F32,
    pub insets: BarInsets<F32>,
}

/// The part of a widget that its render target shows.
#[derive(Clone, Copy, Debug, PartialEq, Eq)]
pub struct VisiblePart {
    pub uv_offset: (F32, F32),
    pub uv_scale: (F32, F32),
}

/// The rectangle that a pass rounds the corners of, and by how much.
#[derive(Clone, Copy, Debug, PartialEq, Eq)]
pub struct CornerCut {
    pub panel_rect: (F32, F32, F32, F32),
    pub corner_radius: F32,
}

/// A pass that samples the camera frame: all of the transform and the fit, and
/// nothing else.
pub open spec fn source_pass(transform: SourceTransform, fit: PreviewFit) -> ViewportUniform {
    ViewportUniform {
        viewport_size: (fit.width, fit.height),
        content_fit_mode: fit.cover_blend,
        filter_mode: transform.filter_mode,
        mirror_horizontal: if transform.mirror {
            1
        } else {
            0
        },
        crop_uv_min: transform.crop_corners().0,
        crop_uv_max: transform.crop_corners().1,
        zoom_level: transform.zoom_level,
        rotation: transform.rotation,
        bar_top_height: fit.insets.top,
        bar_bottom_height: fit.insets.bottom,
        bar_left_width: fit.insets.left,
        bar_right_width: fit.insets.right,
        letterbox_color: transform.letterbox_color,
        ..ViewportUniform::identity()
    }
}

/// The preview's own pass: the transform and the fit, the visible part of the
/// widget, and its corners.
pub open spec fn preview_pass(
    transform: SourceTransform,
    fit: PreviewFit,
    visible: VisiblePart,
    corners: CornerCut,
) -> ViewportUniform {
    ViewportUniform {
        corner_radius: corners.corner_radius,
        panel_rect: corners.panel_rect,
        uv_offset: visible.uv_offset,
        uv_scale: visible.uv_scale,
        ..source_pass(transform, fit)
    }
}

/// The second pass of a pre-blurred filter: its texture already holds the
/// transformed image, so it filters that and rounds the corners.
pub open spec fn filter_pass(
    size: (F32, F32),
    filter_mode: u32,
    letterbox_color: (F32, F32, F32, F32),
    corners: CornerCut,
) -> ViewportUniform {
    ViewportUniform {
        viewport_size: size,
        filter_mode,
        corner_radius: corners.corner_radius,
        panel_rect: corners.panel_rect,
        letterbox_color,
        ..ViewportUniform::identity()
    }
}

/// A Kawase step: the size of the part that it samples, that size relative to
/// the texture, and the sample offset.
pub open spec fn step_pass(
    size: (F32, F32),
    scale: (F32, F32),
    offset: F32,
) -> ViewportUniform {
    ViewportUniform {
        viewport_size: size,
        uv_scale: scale,
        kawase_offset: offset,
        ..ViewportUniform::identity()
    }
}

/// The blur's last pass: one sample, dimmed and grained, with the letterbox cut
/// out.
pub open spec fn composite_pass(
    size: (F32, F32),
    dim_factor: F32,
    noise: F32,
    content_rect: (F32, F32, F32, F32),
) -> ViewportUniform {
    ViewportUniform {
        viewport_size: size,
        dim_factor,
        noise,
        content_rect,
        ..ViewportUniform::identity()
    }
}

/// `uniform`, with the corners rounded too.
pub open spec fn rounded_pass(uniform: ViewportUniform, corners: CornerCut) -> ViewportUniform {
    ViewportUniform {
        panel_rect: corners.panel_rect,
        corner_radius: corners.corner_radius,
        ..uniform
    }
}

/// Arguments of a pass that samples the camera frame.
pub fn source_uniform(transform: &SourceTransform, fit: &PreviewFit) -> (uniform: ViewportUniform)
    ensures
        uniform == source_pass(*transform, *fit),
{
    let (crop_uv_min, crop_uv_max) = transform.crop();
    let mut uniform = ViewportUniform::default();
    uniform.viewport_size = (fit.width, fit.height);
    uniform.content_fit_mode = fit.cover_blend;
    uniform.filter_mode = transform.filter_mode;
    uniform.mirror_horizontal = if transform.mirror { 1 } else { 0 };
    uniform.crop_uv_min = crop_uv_min;
    uniform.crop_uv_max = crop_uv_max;
    uniform.zoom_level = transform.zoom_level;
    uniform.rotation = transform.rotation;
    uniform.bar_top_height = fit.insets.top;
    uniform.bar_bottom_height = fit.insets.bottom;
    uniform.bar_left_width = fit.insets.left;
    uniform.bar_right_width = fit.insets.right;
    uniform.letterbox_color = transform.letterbox_color;
    uniform
}

/// Arguments of the preview's own pass.
pub fn preview_uniform(
    transform: &SourceTransform,
    fit: &PreviewFit,
    visible: &VisiblePart,
    corners: &CornerCut,
) -> (uniform: ViewportUniform)
    ensures
        uniform == preview_pass(*transform, *fit, *visible, *corners),
{
    let mut uniform = source_uniform(transform, fit);
    uniform.corner_radius = corners.corner_radius;
    uniform.panel_rect = corners.panel_rect;
    uniform.uv_offset = visible.uv_offset;
    uniform.uv_scale = visible.uv_scale;
    uniform
}

/// Arguments of the second pass of a pre-blurred filter.
pub fn filter_uniform(
    size: (F32, F32),
    filter_mode: u32,
    letterbox_color: (F32, F32, F32, F32),
    corners: &CornerCut,
) -> (uniform: ViewportUniform)
    ensures
        uniform == filter_pass(size, filter_mode, letterbox_color, *corners),
{
    let mut uniform = ViewportUniform::default();
    uniform.viewport_size = size;
    uniform.filter_mode = filter_mode;
    uniform.corner_radius = corners.corner_radius;
    uniform.panel_rect = corners.panel_rect;
    uniform.letterbox_color = letterbox_color;
    uniform
}

/// Arguments of a Kawase step: `scale` is the part that it samples relative to
/// the texture.
pub fn step_uniform(step: &KawaseStep, scale: (F32, F32), offset: F32) -> (uniform: ViewportUniform)
    ensures
        uniform == step_pass(
            (F32::of_whole(step.source_width), F32::of_whole(step.source_height)),
            scale,
            offset,
        ),
{
    let mut uniform = ViewportUniform::default();
    uniform.viewport_size = (
        F32::from_whole(step.source_width),
        F32::from_whole(step.source_height),
    );
    uniform.uv_scale = scale;
    uniform.kawase_offset = offset;
    uniform
}

/// Arguments of the blur's last pass.
pub fn composite_uniform(
    size: (F32, F32),
    dim_factor: F32,
    noise: F32,
    content_rect: (F32, F32, F32, F32),
) -> (uniform: ViewportUniform)
    ensures
        uniform == composite_pass(size, dim_factor, noise, content_rect),
{
    let mut uniform = ViewportUniform::default();
    uniform.viewport_size = size;
    uniform.dim_factor = dim_factor;
    uniform.noise = noise;
    uniform.content_rect = content_rect;
    uniform
}

/// Rounds the corners of a pass.
pub fn round_corners(uniform: &mut ViewportUniform, corners: &CornerCut)
    ensures
        *final(uniform) == rounded_pass(*old(uniform), *corners),
{
    uniform.panel_rect = corners.panel_rect;
    uniform.corner_radius = corners.corner_radius;
}

/// Leaves the image where it found it: no zoom, mirror, rotation, crop, or bars.
pub open spec fn leaves_image_in_place(uniform: ViewportUniform) -> bool {
    &&& uniform.zoom_level == F32::one()
    &&& uniform.mirror_horizontal == 0
    &&& uniform.rotation == 0
    &&& uniform.crop_uv_min == (F32::zero(), F32::zero())
    &&& uniform.crop_uv_max == (F32::one(), F32::one())
    &&& uniform.bar_top_height == F32::zero()
    &&& uniform.bar_bottom_height == F32::zero()
    &&& uniform.bar_left_width == F32::zero()
    &&& uniform.bar_right_width == F32::zero()
    &&& uniform.content_fit_mode == F32::zero()
}

/// Every pass that samples an intermediate leaves the image in place: zoom,
/// mirror, rotation and crop act once, in the pass that samples the camera
/// frame, and never compound.
pub proof fn law_transforms_act_once(
    size: (F32, F32),
    scale: (F32, F32),
    offset: F32,
    dim_factor: F32,
    noise: F32,
    content_rect: (F32, F32, F32, F32),
    filter_mode: u32,
    letterbox_color: (F32, F32, F32, F32),
    corners: CornerCut,
)
    ensures
        leaves_image_in_place(step_pass(size, scale, offset)),
        leaves_image_in_place(composite_pass(size, dim_factor, noise, content_rect)),
        leaves_image_in_place(
            rounded_pass(composite_pass(size, dim_factor, noise, content_rect), corners),
        ),
        leaves_image_in_place(filter_pass(size, filter_mode, letterbox_color, corners)),
{
}

/// Every pass into an intermediate keeps its corners square, at full brightness
/// and without grain, and cuts no letterbox.
pub proof fn law_intermediates_stay_plain(
    transform: SourceTransform,
    fit: PreviewFit,
    size: (F32, F32),
    scale: (F32, F32),
    offset: F32,
)
    ensures
        forall|uniform: ViewportUniform|
            uniform == source_pass(transform, fit) || uniform == step_pass(size, scale, offset)
                ==> {
                &&& uniform.corner_radius == F32::zero()
                &&& uniform.panel_rect == (F32::zero(), F32::zero(), F32::zero(), F32::zero())
                &&& uniform.dim_factor == F32::one()
                &&& uniform.noise == F32::zero()
                &&& uniform.content_rect == full_content_rect()
            },
{
}

/// Blocks with the same words are the same: no field is left out of the layout.
pub proof fn law_layout_keeps_every_field(a: ViewportUniform, b: ViewportUniform)
    requires
        a.layout() == b.layout(),
    ensures
        a == b,
{
    assert forall|i: int| 0 <= i < UNIFORM_WORDS implies a.layout()[i] == b.layout()[i] by {}
    assert(a.layout()[0] == b.layout()[0] && a.layout()[1] == b.layout()[1] && a.layout()[2]
        == b.layout()[2] && a.layout()[3] == b.layout()[3] && a.layout()[4] == b.layout()[4]
        && a.layout()[5] == b.layout()[5] && a.layout()[6] == b.layout()[6] && a.layout()[7]
        == b.layout()[7]);
    assert(a.layout()[8] == b.layout()[8] && a.layout()[9] == b.layout()[9] && a.layout()[10]
        == b.layout()[10] && a.layout()[11] == b.layout()[11] && a.layout()[12] == b.layout()[12]
        && a.layout()[13] == b.layout()[13] && a.layout()[14] == b.layout()[14] && a.layout()[15]
        == b.layout()[15]);
    assert(a.layout()[16] == b.layout()[16] && a.layout()[17] == b.layout()[17] && a.layout()[18]
        == b.layout()[18] && a.layout()[19] == b.layout()[19] && a.layout()[20] == b.layout()[20]
        && a.layout()[21] == b.layout()[21] && a.layout()[22] == b.layout()[22] && a.layout()[23]
        == b.layout()[23]);
    assert(a.layout()[24] == b.layout()[24] && a.layout()[25] == b.layout()[25] && a.layout()[26]
        == b.layout()[26] && a.layout()[27] == b.layout()[27] && a.layout()[28] == b.layout()[28]);
    assert(a.layout()[32] == b.layout()[32] && a.layout()[33] == b.layout()[33] && a.layout()[34]
        == b.layout()[34] && a.layout()[35] == b.layout()[35] && a.layout()[36] == b.layout()[36]
        && a.layout()[37] == b.layout()[37]);
}

/// What the shaders find where they look: the pass that samples the camera frame
/// hands on size, fit and bars of the preview, and filter, mirror, crop, zoom,
/// rotation and surround of the source, each in its own word and none changed.
#[verifier::spinoff_prover]
pub proof fn law_source_words(transform: SourceTransform, fit: PreviewFit)
    ensures
        ({
            let words = source_pass(transform, fit).layout();
            &&& words.len() == UNIFORM_WORDS
            &&& words[0] == fit.width.bits && words[1] == fit.height.bits
            &&& words[2] == fit.cover_blend.bits
            &&& words[3] == transform.filter_mode
            &&& words[5] == 1 <==> transform.mirror
            &&& words[5] == 0 <==> !transform.mirror
            &&& words[14] == transform.zoom_level.bits
            &&& words[15] == transform.rotation
            &&& words[16] == fit.insets.top.bits && words[17] == fit.insets.bottom.bits
            &&& words[36] == fit.insets.left.bits && words[37] == fit.insets.right.bits
            &&& words[20] == transform.letterbox_color.0.bits
            &&& words[21] == transform.letterbox_color.1.bits
            &&& words[22] == transform.letterbox_color.2.bits
            &&& words[23] == transform.letterbox_color.3.bits
            &&& match transform.crop_uv {
                Some((u_min, v_min, u_max, v_max)) => {
                    &&& words[10] == u_min.bits && words[11] == v_min.bits
                    &&& words[12] == u_max.bits && words[13] == v_max.bits
                },
                None => {
                    &&& words[10] == 0 && words[11] == 0
                    &&& words[12] == ONE_BITS && words[13] == ONE_BITS
                },
            }
        }),
{
}

/// Every pass says how big what it works on is, and leaves alone what is not its
/// business: where nothing is visible but a part, where no corner is round, where
/// nothing is dimmed, grained, offset or cut, the words say so.
#[verifier::spinoff_prover]
pub proof fn law_plain_words(transform: SourceTransform, fit: PreviewFit)
    ensures
        ({
            let words = source_pass(transform, fit).layout();
            &&& words[4] == 0
            &&& words[6] == 0 && words[7] == 0
            &&& words[8] == ONE_BITS && words[9] == ONE_BITS
            &&& words[18] == 0
            &&& words[19] == ONE_BITS
            &&& words[24] == 0 && words[25] == 0 && words[26] == 0 && words[27] == 0
            &&& words[28] == 0 && words[29] == 0 && words[30] == 0 && words[31] == 0
            &&& words[32] == 0 && words[33] == 0
            &&& words[34] == ONE_BITS && words[35] == ONE_BITS
            &&& words[38] == 0 && words[39] == 0
        }),
{
}

/// The preview's own pass differs from a pass into an intermediate in the visible
/// part and the corners, and in nothing else.
#[verifier::spinoff_prover]
pub proof fn law_preview_words(
    transform: SourceTransform,
    fit: PreviewFit,
    visible: VisiblePart,
    corners: CornerCut,
    k: int,
)
    requires
        0 <= k < UNIFORM_WORDS,
    ensures
        ({
            let words = preview_pass(transform, fit, visible, corners).layout();
            let plain = source_pass(transform, fit).layout();
            &&& words[4] == corners.corner_radius.bits
            &&& words[6] == visible.uv_offset.0.bits && words[7] == visible.uv_offset.1.bits
            &&& words[8] == visible.uv_scale.0.bits && words[9] == visible.uv_scale.1.bits
            &&& words[24] == corners.panel_rect.0.bits && words[25] == corners.panel_rect.1.bits
            &&& words[26] == corners.panel_rect.2.bits && words[27] == corners.panel_rect.3.bits
            &&& k != 4 && !(6 <= k <= 9) && !(24 <= k <= 27) ==> words[k] == plain[k]
        }),
{
}

/// The second pass of a pre-blurred filter works on its texture at full size, with
/// the filter, the surround and the corners; every other word is that of a pass that
/// changes nothing.
#[verifier::spinoff_prover]
pub proof fn law_filter_words(
    size: (F32, F32),
    filter_mode: u32,
    color: (F32, F32, F32, F32),
    corners: CornerCut,
)
    ensures
        ({
            let words = filter_pass(size, filter_mode, color, corners).layout();
            &&& words[0] == size.0.bits && words[1] == size.1.bits
            &&& words[3] == filter_mode
            &&& words[4] == corners.corner_radius.bits
            &&& words[20] == color.0.bits && words[21] == color.1.bits
            &&& words[22] == color.2.bits && words[23] == color.3.bits
            &&& words[24] == corners.panel_rect.0.bits && words[25] == corners.panel_rect.1.bits
            &&& words[26] == corners.panel_rect.2.bits && words[27] == corners.panel_rect.3.bits
            &&& words[6] == 0 && words[7] == 0
            &&& words[8] == ONE_BITS && words[9] == ONE_BITS
            &&& words[18] == 0 && words[19] == ONE_BITS && words[28] == 0
        }),
{
}

/// A step of the blur is told the size of the part that it samples, that part
/// relative to the texture, and its sample offset, and neither filters, dims, grains
/// nor rounds.
#[verifier::spinoff_prover]
pub proof fn law_step_words(size: (F32, F32), scale: (F32, F32), offset: F32)
    ensures
        ({
            let words = step_pass(size, scale, offset).layout();
            &&& words[0] == size.0.bits && words[1] == size.1.bits
            &&& words[3] == 0 && words[4] == 0
            &&& words[6] == 0 && words[7] == 0
            &&& words[8] == scale.0.bits && words[9] == scale.1.bits
            &&& words[18] == offset.bits
            &&& words[19] == ONE_BITS
            &&& words[28] == 0
        }),
{
}

/// The blur's last pass is told how far to dim, how much to grain and where the
/// image is; a panel of its own adds its corners to that, and changes nothing else.
#[verifier::spinoff_prover]
pub proof fn law_composite_words(
    size: (F32, F32),
    dim: F32,
    noise: F32,
    rect: (F32, F32, F32, F32),
    corners: CornerCut,
    k: int,
)
    requires
        0 <= k < UNIFORM_WORDS,
    ensures
        ({
            let shared = composite_pass(size, dim, noise, rect);
            let words = shared.layout();
            let own = rounded_pass(shared, corners).layout();
            &&& words[0] == size.0.bits && words[1] == size.1.bits
            &&& words[3] == 0 && words[4] == 0
            &&& words[6] == 0 && words[7] == 0
            &&& words[8] == ONE_BITS && words[9] == ONE_BITS
            &&& words[18] == 0
            &&& words[19] == dim.bits
            &&& words[28] == noise.bits
            &&& words[32] == rect.0.bits && words[33] == rect.1.bits
            &&& words[34] == rect.2.bits && words[35] == rect.3.bits
            &&& own[4] == corners.corner_radius.bits
            &&& own[24] == corners.panel_rect.0.bits && own[25] == corners.panel_rect.1.bits
            &&& own[26] == corners.panel_rect.2.bits && own[27] == corners.panel_rect.3.bits
            &&& k != 4 && !(24 <= k <= 27) ==> own[k] == words[k]
        }),
{
}

} // verus!
