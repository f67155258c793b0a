//! What the window shows depends on this.

use vstd::prelude::*;
use vstd::arithmetic::power2::*;
use crate::bar_layout::{
    controls_bar_layout, edge_insets, inset_at, map_bar_insets, placed_layout, BarLayout, Edge,
};
use crate::bits::{
    law_numbers_compare_by_worth, law_one_is_four_quarters, law_other_quarters_depart,
    law_quarters_are_worth_it, law_quarters_do_not_depart, EPSILON_BITS, F32,
};
use crate::config::{CameraMode, ControlsPosition, PhotoAspectRatio};
use crate::display_orientation::DisplayOrientation;
use crate::insets::BarInsets;
use crate::primitive::FilterType;

verus! {

/// Milliseconds that a change of fit takes.
pub const FIT_ANIMATION_MS: u64 = 300;

/// Milliseconds that going back to no zoom takes.
pub const ZOOM_ANIMATION_MS: u64 = 300;

/// Milliseconds between two frames of an animation.
pub const ANIMATION_TICK_MS: u64 = 16;

/// The single 480: a picker in a window that is no higher stays inside it.
pub const COMPACT_SIDE_HEIGHT_BITS: u32 = 0x43f0_0000;

/// The single 712: at this width a drawer is at its narrowest.
pub const NARROW_DRAWER_BITS: u32 = 0x4432_0000;

/// The single 848: at this width a drawer is at its widest.
pub const WIDE_DRAWER_BITS: u32 = 0x4454_0000;

/// Seconds before a photo is taken.
#[derive(Clone, Copy, Debug, PartialEq, Eq, Structural)]
pub enum PhotoTimerSetting {
    Off,
    Sec3,
    Sec5,
    Sec10,
}

/// What a drawer shows.
#[derive(Clone, Copy, Debug, PartialEq, Eq, Structural)]
pub enum ContextPage {
    Settings,
    Filters,
    Insights,
    KeyBindings,
}

/// How far a burst has come.
#[derive(Clone, Copy, Debug, PartialEq, Eq, Structural)]
pub enum BurstModeStage {
    Idle,
    Capturing,
    Processing,
    Finished,
}

/// A control of the camera with a range.
#[derive(Clone, Copy, Debug, PartialEq, Eq, Structural)]
pub struct RangeControl {
    pub available: bool,
    pub default: i32,
}

/// Controls that the camera has.
#[derive(Clone, Copy, Debug, PartialEq, Eq, Structural)]
pub struct ExposureControls {
    pub has_exposure_auto: bool,
    pub exposure_bias: RangeControl,
    pub backlight_compensation: RangeControl,
    pub contrast: RangeControl,
    pub saturation: RangeControl,
    pub sharpness: RangeControl,
    pub hue: RangeControl,
    pub has_white_balance_auto: bool,
    /// There is one that the exposure picker shows.
    pub any_essential: bool,
    /// There is one that the color picker shows.
    pub any_image_control: bool,
    /// The white balance can be set.
    pub any_white_balance: bool,
}

/// Exposure as it is set.
#[derive(Clone, Copy, Debug, PartialEq, Eq, Structural)]
pub struct ExposureSettings {
    /// The camera picks the exposure time by itself.
    pub aperture_priority: bool,
    pub exposure_compensation: i32,
    pub backlight_compensation: Option<i32>,
}

/// Colors as they are set.
#[derive(Clone, Copy, Debug, PartialEq, Eq, Structural)]
pub struct ColorSettings {
    pub contrast: Option<i32>,
    pub saturation: Option<i32>,
    pub sharpness: Option<i32>,
    pub hue: Option<i32>,
    pub white_balance_auto: Option<bool>,
}

/// The values that a change of fit moves.
#[derive(Clone, Copy, Debug, PartialEq, Eq, Structural)]
pub struct FitFrom {
    pub blend: F32,
    pub top_ui_height: F32,
    pub bottom_ui_height: F32,
    pub capture_area_height: F32,
}

/// A change of fit under way.
#[derive(Clone, Copy, Debug, PartialEq, Eq, Structural)]
pub struct FitAnimation {
    pub start_ms: u64,
    pub from: FitFrom,
    /// It leads to or from a view without a capture button.
    pub is_view_boundary: bool,
}

/// Picture size and rate of the running camera.
#[derive(Clone, Copy, Debug, PartialEq, Eq, Structural)]
pub struct ActiveFormat {
    pub width: u32,
    pub height: u32,
    pub framerate: Option<u32>,
}

/// Sizes of the bars and the spaces between their parts.
#[derive(Clone, Copy, Debug, PartialEq, Eq, Structural)]
pub struct BarMetrics {
    /// Thickness of the top bar, in quarters of a pixel.
    pub top_bar: u16,
    /// Thickness of the bottom bar, in quarters of a pixel.
    pub bottom_bar: u16,
    /// Diameter of the capture button, in quarters of a pixel.
    pub capture_button: u16,
    /// Thickness of the strip at the side, in quarters of a pixel.
    pub side_strip: u16,
    /// The narrow space, in pixels.
    pub space_xs: u16,
    /// The wide space, in pixels.
    pub space_l: u16,
}

/// What the growth of the bars starts from.
#[derive(Debug, PartialEq, Eq)]
pub struct InsetGrowth<T, R> {
    /// What the bars take by themselves.
    pub base: BarInsets<T>,
    /// Size of the window.
    pub screen: (F32, F32),
    /// Width to height of the picture that is kept.
    pub ratio: R,
}

/// What the place of a popup that hangs off the top bar rests on.
#[derive(Clone, Copy, Debug, PartialEq, Eq, Structural)]
pub struct PopupAnchor {
    /// Where the top bar stands.
    pub edge: Edge,
    /// Thickness of the top bar, in pixels.
    pub bar: u16,
    /// Space between them, in pixels.
    pub gap: u16,
    /// It hangs off the leading end of the bar.
    pub leading: bool,
}

impl BarMetrics {
    /// Height of the capture button with the space around it.
    pub open spec fn capture_height(self) -> int {
        self.capture_button + 8 * self.space_xs
    }
}

/// What the window shows depends on this.
#[derive(Debug)]
pub struct AppModel {
    pub mode: CameraMode,
    /// The bars and controls are hidden.
    pub ui_hidden: bool,
    /// The controls do nothing, while the camera changes.
    pub ui_disabled: bool,
    pub screen_width: F32,
    pub screen_height: F32,
    pub controls_position: ControlsPosition,
    pub display_orientation: DisplayOrientation,
    pub preview_fit_to_view: bool,
    pub fit_animation: Option<FitAnimation>,
    pub photo_aspect_ratio: PhotoAspectRatio,
    pub photo_timer_setting: PhotoTimerSetting,
    /// Seconds until a photo is taken.
    pub photo_timer_countdown: Option<u8>,
    pub selected_filter: FilterType,
    pub zoom_level: F32,
    pub tools_menu_visible: bool,
    pub format_picker_visible: bool,
    /// The camera picks its format by itself.
    pub format_picker_hidden: bool,
    pub exposure_picker_visible: bool,
    pub color_picker_visible: bool,
    pub motor_picker_visible: bool,
    pub show_context: bool,
    pub context_page: ContextPage,
    /// The flash is lit.
    pub flash_active: bool,
    /// The flash is switched on.
    pub flash_enabled: bool,
    /// The camera has a flash of its own.
    pub hardware_flash: bool,
    /// Why the flash does not work.
    pub flash_error: Option<String>,
    /// A burst is under way.
    pub burst_active: bool,
    pub burst_stage: BurstModeStage,
    pub burst_captured: usize,
    pub burst_target: usize,
    /// A burst can be had.
    pub burst_offered: bool,
    /// The next photo will be one.
    pub burst_expected: bool,
    pub recording: bool,
    pub quick_recording: bool,
    pub streaming: bool,
    pub timelapse_running: bool,
    /// A file is shown in place of the camera.
    pub file_source: bool,
    /// The file is a video.
    pub video_controls: bool,
    pub privacy_cover_closed: bool,
    pub qr_detection_enabled: bool,
    pub qr_detections: usize,
    /// Size of the current frame.
    pub current_frame: Option<(u32, u32)>,
    pub active_format: Option<ActiveFormat>,
    pub available_exposure_controls: ExposureControls,
    pub exposure_settings: Option<ExposureSettings>,
    pub color_settings: Option<ColorSettings>,
    pub has_motor_controls: bool,
    pub main_window: Option<u64>,
    /// The windows that hold the focus.
    pub focus_chain: Vec<u64>,
}

impl RangeControl {
    /// A control that the camera lacks.
    pub open spec fn missing() -> RangeControl {
        RangeControl { available: false, default: 0 }
    }
}

impl ExposureControls {
    /// A camera without any control.
    pub open spec fn lacking() -> ExposureControls {
        ExposureControls {
            has_exposure_auto: false,
            exposure_bias: RangeControl::missing(),
            backlight_compensation: RangeControl::missing(),
            contrast: RangeControl::missing(),
            saturation: RangeControl::missing(),
            sharpness: RangeControl::missing(),
            hue: RangeControl::missing(),
            has_white_balance_auto: false,
            any_essential: false,
            any_image_control: false,
            any_white_balance: false,
        }
    }
}

/// A control that the camera lacks.
fn no_control() -> (control: RangeControl)
    ensures
        control == RangeControl::missing(),
{
    RangeControl { available: false, default: 0 }
}

impl Default for AppModel {
    /// A window that was just opened.
    fn default() -> (model: Self)
        ensures
            model.mode is Photo,
            !model.ui_hidden,
            !model.ui_disabled,
            model.screen_width == F32::zero(),
            model.screen_height == F32::zero(),
            model.controls_position is Bottom,
            model.display_orientation is Rotate0,
            !model.preview_fit_to_view,
            model.fit_animation is None,
            model.photo_aspect_ratio is Native,
            model.photo_timer_setting is Off,
            model.photo_timer_countdown is None,
            model.selected_filter == FilterType::standard(),
            model.zoom_level == F32::one(),
            !model.tools_menu_visible,
            !model.format_picker_visible,
            !model.format_picker_hidden,
            !model.exposure_picker_visible,
            !model.color_picker_visible,
            !model.motor_picker_visible,
            !model.show_context,
            model.context_page is Settings,
            !model.flash_active,
            !model.flash_enabled,
            !model.hardware_flash,
            model.flash_error is None,
            !model.burst_active,
            model.burst_stage is Idle,
            model.burst_captured == 0,
            model.burst_target == 0,
            !model.burst_offered,
            !model.burst_expected,
            !model.recording,
            !model.quick_recording,
            !model.streaming,
            !model.timelapse_running,
            !model.file_source,
            !model.video_controls,
            !model.privacy_cover_closed,
            !model.qr_detection_enabled,
            model.qr_detections == 0,
            model.current_frame is None,
            model.active_format is None,
            model.available_exposure_controls == ExposureControls::lacking(),
            model.exposure_settings is None,
            model.color_settings is None,
            !model.has_motor_controls,
            model.main_window is None,
            model.focus_chain@.len() == 0,
    {
        AppModel {
            mode: CameraMode::Photo,
            ui_hidden: false,
            ui_disabled: false,
            screen_width: F32::zero(),
            screen_height: F32::zero(),
            controls_position: ControlsPosition::Bottom,
            display_orientation: DisplayOrientation::Rotate0,
            preview_fit_to_view: false,
            fit_animation: None,
            photo_aspect_ratio: PhotoAspectRatio::Native,
            photo_timer_setting: PhotoTimerSetting::Off,
            photo_timer_countdown: None,
            selected_filter: FilterType::standard(),
            zoom_level: F32::one(),
            tools_menu_visible: false,
            format_picker_visible: false,
            format_picker_hidden: false,
            exposure_picker_visible: false,
            color_picker_visible: false,
            motor_picker_visible: false,
            show_context: false,
            context_page: ContextPage::Settings,
            flash_active: false,
            flash_enabled: false,
            hardware_flash: false,
            flash_error: None,
            burst_active: false,
            burst_stage: BurstModeStage::Idle,
            burst_captured: 0,
            burst_target: 0,
            burst_offered: false,
            burst_expected: false,
            recording: false,
            quick_recording: false,
            streaming: false,
            timelapse_running: false,
            file_source: false,
            video_controls: false,
            privacy_cover_closed: false,
            qr_detection_enabled: false,
            qr_detections: 0,
            current_frame: None,
            active_format: None,
            available_exposure_controls: ExposureControls {
                has_exposure_auto: false,
                exposure_bias: no_control(),
                backlight_compensation: no_control(),
                contrast: no_control(),
                saturation: no_control(),
                sharpness: no_control(),
                hue: no_control(),
                has_white_balance_auto: false,
                any_essential: false,
                any_image_control: false,
                any_white_balance: false,
            },
            exposure_settings: None,
            color_settings: None,
            has_motor_controls: false,
            main_window: None,
            focus_chain: Vec::new(),
        }
    }
}

impl CameraMode {
    /// The preview can be zoomed and fitted by hand.
    pub open spec fn zoomable(self) -> bool {
        self is Photo || self is View
    }

    /// Whether the preview is all there is.
    pub fn is_view_only(self) -> (answer: bool)
        ensures
            answer == (self is View),
    {
        matches!(self, CameraMode::View)
    }

    /// Whether the preview can be zoomed and fitted by hand.
    pub fn supports_fit_and_zoom(self) -> (answer: bool)
        ensures
            answer == self.zoomable(),
    {
        matches!(self, CameraMode::Photo | CameraMode::View)
    }
}

impl PhotoAspectRatio {
    /// Width to height, turned with the window; none for the sensor's own.
    pub open spec fn shown(self, portrait: bool) -> Option<(u32, u32)> {
        let landscape: Option<(u32, u32)> = match self {
            PhotoAspectRatio::Native => None,
            PhotoAspectRatio::Ratio4x3 => Some((4, 3)),
            PhotoAspectRatio::Ratio16x9 => Some((16, 9)),
            PhotoAspectRatio::Ratio1x1 => Some((1, 1)),
            PhotoAspectRatio::Ratio2x1 => Some((2, 1)),
        };
        match landscape {
            Some((long, short)) => Some(
                if portrait {
                    (short, long)
                } else {
                    (long, short)
                },
            ),
            None => None,
        }
    }

    /// Width to height, turned with the window; none for the sensor's own.
    pub fn display_ratio(self, portrait: bool) -> (ratio: Option<(u32, u32)>)
        ensures
            ratio == self.shown(portrait),
    {
        let landscape: Option<(u32, u32)> = match self {
            PhotoAspectRatio::Native => None,
            PhotoAspectRatio::Ratio4x3 => Some((4, 3)),
            PhotoAspectRatio::Ratio16x9 => Some((16, 9)),
            PhotoAspectRatio::Ratio1x1 => Some((1, 1)),
            PhotoAspectRatio::Ratio2x1 => Some((2, 1)),
        };
        match landscape {
            Some((long, short)) => if portrait {
                Some((short, long))
            } else {
                Some((long, short))
            },
            None => None,
        }
    }
}

impl AppModel {
    /// The window is higher than wide. It has a size once it was laid out.
    pub open spec fn portrait(self) -> bool {
        &&& F32::zero().below(self.screen_width)
        &&& F32::zero().below(self.screen_height)
        &&& self.screen_width.below(self.screen_height)
    }

    /// Whether the window is higher than wide.
    pub fn screen_is_portrait(&self) -> (answer: bool)
        ensures
            answer == self.portrait(),
    {
        F32::zero().is_below(self.screen_width) && F32::zero().is_below(self.screen_height)
            && self.screen_width.is_below(self.screen_height)
    }

    /// Where the bars stand.
    pub open spec fn layout(self) -> BarLayout {
        placed_layout(self.controls_position, self.display_orientation)
    }

    /// Where the bars stand.
    pub fn controls_bar_layout(&self) -> (layout: BarLayout)
        ensures
            layout == self.layout(),
    {
        controls_bar_layout(self.controls_position, self.display_orientation)
    }

    /// Whether the bars stand at the sides.
    pub fn controls_are_sideways(&self) -> (answer: bool)
        ensures
            answer == self.layout().sideways(),
    {
        self.controls_bar_layout().is_sideways()
    }

    /// There are no bars: the preview has the whole window.
    pub open spec fn bare(self) -> bool {
        self.mode is View || self.ui_hidden
    }

    /// Whether there are no bars.
    pub fn is_bare(&self) -> (answer: bool)
        ensures
            answer == self.bare(),
    {
        self.mode.is_view_only() || self.ui_hidden
    }

    /// Thickness of the top bar, in quarters of a pixel.
    pub open spec fn top_extent(self, metrics: BarMetrics) -> int {
        if self.bare() {
            0
        } else {
            metrics.top_bar as int
        }
    }

    /// Thickness of the bottom bar, in quarters of a pixel: down to the capture
    /// button where it takes photos, else just over the modes.
    pub open spec fn bottom_extent(self, metrics: BarMetrics) -> int {
        if self.bare() {
            0
        } else if self.mode is Photo {
            metrics.bottom_bar + metrics.capture_height()
        } else {
            metrics.bottom_bar + metrics.space_xs
        }
    }

    /// Height of the capture button's place, in quarters of a pixel.
    pub open spec fn capture_extent(self, metrics: BarMetrics) -> int {
        if self.bare() {
            0
        } else {
            metrics.capture_height()
        }
    }

    /// Thickness of the top bar once nothing moves, in quarters of a pixel.
    pub fn settled_top_ui_height(&self, metrics: &BarMetrics) -> (height: u32)
        ensures
            height == self.top_extent(*metrics),
            height <= 0x40_0000,
    {
        if self.is_bare() {
            0
        } else {
            metrics.top_bar as u32
        }
    }

    /// Thickness of the bottom bar once nothing moves, in quarters of a pixel.
    pub fn settled_bottom_ui_height(&self, metrics: &BarMetrics) -> (height: u32)
        ensures
            height == self.bottom_extent(*metrics),
            height <= 0x40_0000,
    {
        if self.is_bare() {
            return 0;
        }
        let space: u32 = metrics.space_xs as u32;
        if matches!(self.mode, CameraMode::Photo) {
            metrics.bottom_bar as u32 + (metrics.capture_button as u32 + 8 * space)
        } else {
            metrics.bottom_bar as u32 + space
        }
    }

    /// Height of the capture button's place once nothing moves, in quarters of a
    /// pixel.
    pub fn settled_capture_area_height(&self, metrics: &BarMetrics) -> (height: u32)
        ensures
            height == self.capture_extent(*metrics),
            height <= 0x40_0000,
    {
        if self.is_bare() {
            0
        } else {
            let space: u32 = metrics.space_xs as u32;
            metrics.capture_button as u32 + 8 * space
        }
    }

    /// What the growth of bars so thick starts from, where the picture is cut to a
    /// shape of this ratio; nothing where it is not cut.
    pub fn inset_growth<T: Copy, R>(
        &self,
        top: T,
        bottom: T,
        nothing: T,
        ratio: Option<R>,
    ) -> (growth: Option<InsetGrowth<T, R>>)
        ensures
            growth == (match ratio {
                Some(ratio) => Some(
                    InsetGrowth {
                        base: edge_insets(self.layout(), top, bottom, nothing),
                        screen: (self.screen_width, self.screen_height),
                        ratio,
                    },
                ),
                None => None,
            }),
    {
        match ratio {
            Some(ratio) => Some(
                InsetGrowth {
                    base: map_bar_insets(self.controls_bar_layout(), top, bottom, nothing),
                    screen: (self.screen_width, self.screen_height),
                    ratio,
                },
            ),
            None => None,
        }
    }

    /// What bars so thick take from each side. Where the picture is cut to a shape,
    /// a bar beside what is cut off grows out to the part that is kept: `grown` is
    /// what the bars take then, made of [`Self::inset_growth`], and nothing where the
    /// picture is not cut.
    pub fn bar_insets<T: Copy>(
        &self,
        top: T,
        bottom: T,
        nothing: T,
        grown: Option<BarInsets<T>>,
    ) -> (insets: BarInsets<T>)
        ensures
            insets == (match grown {
                Some(grown) => grown,
                None => edge_insets(self.layout(), top, bottom, nothing),
            }),
    {
        match grown {
            Some(grown) => grown,
            None => map_bar_insets(self.controls_bar_layout(), top, bottom, nothing),
        }
    }

    /// What the bars by themselves take from each side once nothing moves, in
    /// quarters of a pixel.
    pub open spec fn settled_extents(self, metrics: BarMetrics) -> BarInsets<int> {
        edge_insets(self.layout(), self.top_extent(metrics), self.bottom_extent(metrics), 0)
    }

    /// What the bars by themselves take from each side once nothing moves, in
    /// quarters of a pixel, before one of them grows out to a picture that is cut.
    pub fn settled_base_insets(&self, metrics: &BarMetrics) -> (insets: BarInsets<u32>)
        ensures
            insets.top == self.settled_extents(*metrics).top,
            insets.right == self.settled_extents(*metrics).right,
            insets.bottom == self.settled_extents(*metrics).bottom,
            insets.left == self.settled_extents(*metrics).left,
            insets.top <= 0x40_0000 && insets.right <= 0x40_0000,
            insets.bottom <= 0x40_0000 && insets.left <= 0x40_0000,
    {
        map_bar_insets(
            self.controls_bar_layout(),
            self.settled_top_ui_height(metrics),
            self.settled_bottom_ui_height(metrics),
            0u32,
        )
    }

    /// What the growth of the bars starts from, once nothing moves; nothing where
    /// the picture is not cut.
    pub fn settled_growth(&self, metrics: &BarMetrics) -> (growth:
        Option<InsetGrowth<u32, (u32, u32)>>)
        ensures
            growth is Some <==> self.crop_ratio() is Some,
            growth matches Some(growth) ==> {
                let base = self.settled_extents(*metrics);
                &&& growth.base.top == base.top
                &&& growth.base.right == base.right
                &&& growth.base.bottom == base.bottom
                &&& growth.base.left == base.left
                &&& growth.screen == (self.screen_width, self.screen_height)
                &&& Some(growth.ratio) == self.crop_ratio()
            },
    {
        self.inset_growth(
            self.settled_top_ui_height(metrics),
            self.settled_bottom_ui_height(metrics),
            0u32,
            self.settled_crop_target_ratio(),
        )
    }

    /// What the bars take from each side once nothing moves. A photo is cut by this
    /// even while the bars move. Where it is cut to a shape, that is `grown`, what
    /// the growth makes of [`Self::settled_growth`]; the bars by themselves
    /// otherwise.
    pub fn settled_bar_insets(&self, metrics: &BarMetrics, grown: BarInsets<F32>) -> (insets:
        BarInsets<F32>)
        ensures
            match self.crop_ratio() {
                Some(_) => insets == grown,
                None => {
                    let base = self.settled_extents(*metrics);
                    &&& insets.top.is_quarters(base.top)
                    &&& insets.right.is_quarters(base.right)
                    &&& insets.bottom.is_quarters(base.bottom)
                    &&& insets.left.is_quarters(base.left)
                },
            },
    {
        if self.settled_crop_target_ratio().is_some() {
            return grown;
        }
        let base = self.settled_base_insets(metrics);
        BarInsets {
            top: F32::from_quarters(base.top),
            right: F32::from_quarters(base.right),
            bottom: F32::from_quarters(base.bottom),
            left: F32::from_quarters(base.left),
        }
    }

    /// The shape that a photo is cut to, if any: a preview that shows the whole
    /// frame is not cut.
    pub open spec fn crop_ratio(self) -> Option<(u32, u32)> {
        if self.preview_fit_to_view {
            None
        } else {
            self.photo_aspect_ratio.shown(self.portrait())
        }
    }

    /// The shape that a photo is cut to, if any.
    pub fn settled_crop_target_ratio(&self) -> (ratio: Option<(u32, u32)>)
        ensures
            ratio == self.crop_ratio(),
    {
        if self.preview_fit_to_view {
            None
        } else {
            self.photo_aspect_ratio.display_ratio(self.screen_is_portrait())
        }
    }

    /// The zoom and fit chips are shown.
    pub open spec fn chips_shown(self) -> bool {
        self.mode.zoomable() && !self.tools_menu_visible && !self.ui_hidden
    }

    /// Whether the zoom and fit chips are shown.
    pub fn shows_chips(&self) -> (answer: bool)
        ensures
            answer == self.chips_shown(),
    {
        self.mode.supports_fit_and_zoom() && !self.tools_menu_visible && !self.ui_hidden
    }

    /// Height of the row of chips, in pixels.
    pub fn zoom_chip_strip_height(&self, metrics: &BarMetrics) -> (height: u32)
        ensures
            4 * height == self.chip_extent(*metrics),
            height <= 0x2_0000,
    {
        if self.shows_chips() {
            metrics.space_l as u32 + metrics.space_xs as u32
        } else {
            0
        }
    }

    /// Height of the row of chips, in quarters of a pixel.
    pub open spec fn chip_extent(self, metrics: BarMetrics) -> int {
        if self.chips_shown() {
            4 * (metrics.space_l + metrics.space_xs)
        } else {
            0
        }
    }

    /// What the place of a popup rests on whose button stands at the trailing end of
    /// the top bar: the tools, the exposure, the color and the motors.
    pub fn anchor_bar_popup(&self, top_bar: u16, space_xs: u16) -> (anchor: PopupAnchor)
        ensures
            anchor == (PopupAnchor {
                edge: self.layout().top_bar,
                bar: top_bar,
                gap: space_xs,
                leading: false,
            }),
    {
        self.anchor_bar_popup_at(top_bar, space_xs, false)
    }

    /// What the place of a popup rests on whose button stands at the leading end of
    /// the top bar: the format picker.
    pub fn anchor_bar_popup_leading(&self, top_bar: u16, space_xs: u16) -> (anchor: PopupAnchor)
        ensures
            anchor == (PopupAnchor {
                edge: self.layout().top_bar,
                bar: top_bar,
                gap: space_xs,
                leading: true,
            }),
    {
        self.anchor_bar_popup_at(top_bar, space_xs, true)
    }

    fn anchor_bar_popup_at(&self, bar: u16, gap: u16, leading: bool) -> (anchor: PopupAnchor)
        ensures
            anchor == (PopupAnchor { edge: self.layout().top_bar, bar, gap, leading }),
    {
        PopupAnchor { edge: self.controls_bar_layout().top_bar, bar, gap, leading }
    }

    /// What a popup keeps clear of on each side, for bars so thick.
    pub open spec fn popup_insets<T>(
        self,
        top: T,
        bottom: T,
        bottom_with_chips: T,
        nothing: T,
    ) -> BarInsets<T> {
        edge_insets(
            self.layout(),
            top,
            if self.chips_shown() {
                bottom_with_chips
            } else {
                bottom
            },
            nothing,
        )
    }

    /// What a popup keeps clear of on each side, wherever the bars are just now: the
    /// bars, so thick, and on the bottom bar's side the chips over it too while
    /// they are shown. `bottom_with_chips` is the bottom bar and the row of chips.
    pub fn overlay_popup_padding<T: Copy>(
        &self,
        top: T,
        bottom: T,
        bottom_with_chips: T,
        nothing: T,
    ) -> (padding: BarInsets<T>)
        ensures
            padding == edge_insets(
                self.layout(),
                top,
                if self.chips_shown() {
                    bottom_with_chips
                } else {
                    bottom
                },
                nothing,
            ),
            padding == self.popup_insets(top, bottom, bottom_with_chips, nothing),
    {
        let reserved = if self.shows_chips() { bottom_with_chips } else { bottom };
        map_bar_insets(self.controls_bar_layout(), top, reserved, nothing)
    }

    /// What a popup keeps clear of on each side once nothing moves, in quarters of
    /// a pixel.
    pub fn settled_popup_padding(&self, metrics: &BarMetrics) -> (padding: BarInsets<u32>)
        ensures
            padding == edge_insets(
                self.layout(),
                self.top_extent(*metrics) as u32,
                (self.bottom_extent(*metrics) + self.chip_extent(*metrics)) as u32,
                0u32,
            ),
    {
        let bottom: u32 = self.settled_bottom_ui_height(metrics);
        let chips: u32 = 4 * self.zoom_chip_strip_height(metrics);
        self.overlay_popup_padding(
            self.settled_top_ui_height(metrics),
            bottom,
            bottom + chips,
            0u32,
        )
    }

    /// Distance of the chips from the edge that the strip stands on, in quarters
    /// of a pixel: past the strip, which without a capture button is the bottom
    /// bar alone, and `gap` more.
    pub fn sideways_chip_inset(&self, metrics: &BarMetrics, gap: u16) -> (inset: u32)
        ensures
            inset == gap + (if self.mode is View {
                metrics.bottom_bar
            } else {
                metrics.side_strip
            }),
    {
        let strip: u16 = if self.mode.is_view_only() {
            metrics.bottom_bar
        } else {
            metrics.side_strip
        };
        strip as u32 + gap as u32
    }

    /// Whether the window holds the keyboard's focus.
    pub fn window_is_focused(&self) -> (answer: bool)
        ensures
            answer == (self.main_window matches Some(id) && self.focus_chain@.contains(id)),
    {
        let Some(main) = self.main_window else {
            return false;
        };
        let mut i: usize = 0;
        while i < self.focus_chain.len()
            invariant
                i <= self.focus_chain@.len(),
                self.main_window == Some(main),
                forall|j: int| 0 <= j < i ==> self.focus_chain@[j] != main,
            decreases self.focus_chain@.len() - i,
        {
            if self.focus_chain[i] == main {
                assert(self.focus_chain@[i as int] == main);
                return true;
            }
            i = i + 1;
        }
        false
    }

    /// The preview fills the window: not where the user asked for the whole
    /// frame, nor where other programs are shown it.
    pub open spec fn fills(self) -> bool {
        !(self.mode is Virtual) && !(self.preview_fit_to_view && self.mode.zoomable())
    }

    /// How far the preview fills the window once nothing moves: not at all, or
    /// wholly.
    pub fn settled_blend(&self) -> (blend: F32)
        ensures
            blend == (if self.fills() {
                F32::one()
            } else {
                F32::zero()
            }),
    {
        if matches!(self.mode, CameraMode::Virtual) {
            return F32::zero();
        }
        if self.preview_fit_to_view && self.mode.supports_fit_and_zoom() {
            F32::zero()
        } else {
            F32::one()
        }
    }

    /// `state` is where everything comes to rest.
    pub open spec fn at_rest(self, metrics: BarMetrics, state: FitFrom) -> bool {
        &&& state.blend == (if self.fills() {
            F32::one()
        } else {
            F32::zero()
        })
        &&& state.top_ui_height.is_quarters(self.top_extent(metrics))
        &&& state.bottom_ui_height.is_quarters(self.bottom_extent(metrics))
        &&& state.capture_area_height.is_quarters(self.capture_extent(metrics))
    }

    /// Where everything comes to rest.
    pub fn settled_fit_state(&self, metrics: &BarMetrics) -> (state: FitFrom)
        ensures
            self.at_rest(*metrics, state),
    {
        FitFrom {
            blend: self.settled_blend(),
            top_ui_height: F32::from_quarters(self.settled_top_ui_height(metrics)),
            bottom_ui_height: F32::from_quarters(self.settled_bottom_ui_height(metrics)),
            capture_area_height: F32::from_quarters(self.settled_capture_area_height(metrics)),
        }
    }

    /// Where everything is now: where it rests, or at `moving` while it moves.
    pub fn capture_fit_state(&self, metrics: &BarMetrics, moving: FitFrom) -> (state: FitFrom)
        ensures
            if self.fit_animation is Some {
                state == moving
            } else {
                self.at_rest(*metrics, state)
            },
    {
        if self.fit_animation.is_some() {
            moving
        } else {
            self.settled_fit_state(metrics)
        }
    }

    /// Something in `from` is elsewhere than where it comes to rest, by more than
    /// the eye could tell.
    pub open spec fn moves_from(self, metrics: BarMetrics, from: FitFrom) -> bool {
        ||| from.blend.departs(if self.fills() { 4int } else { 0 })
        ||| from.top_ui_height.departs(self.top_extent(metrics))
        ||| from.bottom_ui_height.departs(self.bottom_extent(metrics))
        ||| from.capture_area_height.departs(self.capture_extent(metrics))
    }

    /// Whether something in `from` is elsewhere than where it comes to rest.
    pub fn differs_from_rest(&self, metrics: &BarMetrics, from: &FitFrom) -> (answer: bool)
        ensures
            answer == self.moves_from(*metrics, *from),
    {
        let virtual_mode = matches!(self.mode, CameraMode::Virtual);
        let fitted = self.preview_fit_to_view && self.mode.supports_fit_and_zoom();
        from.blend.departs_from(if virtual_mode || fitted { 0 } else { 4 })
            || from.top_ui_height.departs_from(self.settled_top_ui_height(metrics))
            || from.bottom_ui_height.departs_from(self.settled_bottom_ui_height(metrics))
            || from.capture_area_height.departs_from(self.settled_capture_area_height(metrics))
    }

    /// The movement under way once everything was asked to move from `from` at
    /// `now_ms`: a new one if anything is elsewhere than where it comes to rest, else
    /// the one that was under way.
    pub open spec fn movement(self, metrics: BarMetrics, from: FitFrom, now_ms: u64) -> Option<
        FitAnimation,
    > {
        if self.moves_from(metrics, from) {
            Some(
                FitAnimation {
                    start_ms: now_ms,
                    from,
                    is_view_boundary: from.capture_area_height.at_most(F32 { bits: EPSILON_BITS })
                        || self.capture_extent(metrics) == 0,
                },
            )
        } else {
            self.fit_animation
        }
    }

    /// Milliseconds to the next frame, where nothing draws frames yet.
    pub open spec fn first_tick(self, metrics: BarMetrics, from: FitFrom) -> Option<u64> {
        if self.moves_from(metrics, from) && self.fit_animation is None {
            Some(ANIMATION_TICK_MS)
        } else {
            None
        }
    }

    /// Starts to move everything from `from` to where it comes to rest, unless it
    /// is there already. Says after how many milliseconds to draw the next frame,
    /// unless the frames of an animation before it are still being drawn.
    #[verifier::spinoff_prover]
    pub fn start_fit_animation(&mut self, metrics: &BarMetrics, from: FitFrom, now_ms: u64) -> (tick:
        Option<u64>)
        ensures
            *final(self) == (AppModel {
                fit_animation: if old(self).moves_from(*metrics, from) {
                    Some(
                        FitAnimation {
                            start_ms: now_ms,
                            from,
                            is_view_boundary: from.capture_area_height.at_most(
                                F32 { bits: EPSILON_BITS },
                            ) || old(self).capture_extent(*metrics) == 0,
                        },
                    )
                } else {
                    old(self).fit_animation
                },
                ..*old(self)
            }),
            tick == (if old(self).moves_from(*metrics, from) && old(self).fit_animation is None {
                Some(ANIMATION_TICK_MS)
            } else {
                None
            }),
            final(self).fit_animation == old(self).movement(*metrics, from, now_ms),
            tick == old(self).first_tick(*metrics, from),
    {
        if !self.differs_from_rest(metrics, &from) {
            return None;
        }
        let target: u32 = self.settled_capture_area_height(metrics);
        let is_view_boundary = from.capture_area_height.is_at_most(F32 { bits: EPSILON_BITS })
            || target == 0;
        let was_idle = self.fit_animation.is_none();
        let animation = FitAnimation { start_ms: now_ms, from, is_view_boundary };
        assert(Some(animation) == old(self).movement(*metrics, from, now_ms));
        self.fit_animation = Some(animation);
        if was_idle {
            Some(ANIMATION_TICK_MS)
        } else {
            None
        }
    }
}

/// How much lower than the window a picker is, in pixels: twice the narrow space,
/// at the sides of a low window. Anywhere else it is as high as it likes.
pub fn picker_panel_height(sideways: bool, screen_height: F32, space_xs: u16) -> (gap: Option<u32>)
    ensures
        gap == (if sideways && F32::zero().below(screen_height) && screen_height.at_most(
            F32 { bits: COMPACT_SIDE_HEIGHT_BITS },
        ) {
            Some((2 * space_xs) as u32)
        } else {
            None
        }),
{
    if sideways && F32::zero().is_below(screen_height) && screen_height.is_at_most(
        F32 { bits: COMPACT_SIDE_HEIGHT_BITS },
    ) {
        Some(2 * space_xs as u32)
    } else {
        None
    }
}

/// Width of a drawer.
#[derive(Clone, Copy, Debug, PartialEq, Eq, Structural)]
pub enum DrawerWidth {
    /// 344 pixels.
    Narrowest,
    /// 480 pixels.
    Widest,
    /// All but 368 pixels of the window.
    Remainder,
}

/// Width of a drawer in a window of this width: what the view leaves, within
/// bounds.
pub open spec fn drawer_extent(screen_width: F32) -> DrawerWidth {
    if screen_width.at_most(F32 { bits: NARROW_DRAWER_BITS }) {
        DrawerWidth::Narrowest
    } else if (F32 { bits: WIDE_DRAWER_BITS }).at_most(screen_width) {
        DrawerWidth::Widest
    } else {
        DrawerWidth::Remainder
    }
}

/// Width of a drawer in a window of this width.
pub fn context_drawer_width(screen_width: F32) -> (width: DrawerWidth)
    ensures
        width == drawer_extent(screen_width),
{
    if screen_width.is_at_most(F32 { bits: NARROW_DRAWER_BITS }) {
        DrawerWidth::Narrowest
    } else if (F32 { bits: WIDE_DRAWER_BITS }).is_at_most(screen_width) {
        DrawerWidth::Widest
    } else {
        DrawerWidth::Remainder
    }
}

/// How much a drawer leaves free above it: the title bar, while that runs along
/// the top.
pub fn context_drawer_top_inset(layout: BarLayout, top_bar: u16) -> (inset: u16)
    ensures
        inset == (if layout.sideways() {
            0
        } else {
            top_bar
        }),
{
    if layout.is_sideways() {
        0
    } else {
        top_bar
    }
}

/// Whether a drawer stands at the right: always, unless the title bar moved
/// there with the display. A side that the user chose moves no drawer.
pub open spec fn drawer_at_right(position: ControlsPosition, layout: BarLayout) -> bool {
    !(position is Bottom) || !(layout.top_bar is Right)
}

impl AppModel {
    /// Whether a drawer stands at the right.
    pub fn context_drawer_aligns_right(&self, layout: BarLayout) -> (answer: bool)
        ensures
            answer == drawer_at_right(self.controls_position, layout),
    {
        !matches!(self.controls_position, ControlsPosition::Bottom) || !matches!(
            layout.top_bar,
            Edge::Right
        )
    }
}

/// With the bars where the display's orientation puts them, a drawer never
/// covers the title bar at a side.
pub proof fn law_drawers_clear_the_title_bar(orientation: DisplayOrientation)
    ensures
        ({
            let layout = placed_layout(ControlsPosition::Bottom, orientation);
            &&& layout.top_bar is Right ==> !drawer_at_right(ControlsPosition::Bottom, layout)
            &&& layout.top_bar is Left ==> drawer_at_right(ControlsPosition::Bottom, layout)
        }),
{
}

/// Whatever is where it comes to rest stays there: no animation starts.
pub proof fn law_rest_stays_at_rest(model: AppModel, metrics: BarMetrics, state: FitFrom)
    requires
        model.at_rest(metrics, state),
    ensures
        !model.moves_from(metrics, state),
{
    law_quarters_do_not_depart(state.top_ui_height, model.top_extent(metrics));
    law_quarters_do_not_depart(state.bottom_ui_height, model.bottom_extent(metrics));
    law_quarters_do_not_depart(state.capture_area_height, model.capture_extent(metrics));
    let blend: int = if model.fills() {
        4
    } else {
        0
    };
    law_one_is_four_quarters();
    law_quarters_do_not_depart(state.blend, blend);
}

/// A popup keeps clear of both bars, and of the chips: on the bottom bar's side by
/// the height of their row, on the others by the bars alone.
pub proof fn law_popups_clear_the_chips(model: AppModel, metrics: BarMetrics)
    ensures
        ({
            let bars = edge_insets(
                model.layout(),
                model.top_extent(metrics),
                model.bottom_extent(metrics),
                0,
            );
            let padding = edge_insets(
                model.layout(),
                model.top_extent(metrics),
                model.bottom_extent(metrics) + model.chip_extent(metrics),
                0,
            );
            let chips = model.chip_extent(metrics);
            match model.layout().bottom_bar {
                Edge::Bottom => padding == (BarInsets { bottom: bars.bottom + chips, ..bars }),
                Edge::Right => padding == (BarInsets { right: bars.right + chips, ..bars }),
                Edge::Left => padding == (BarInsets { left: bars.left + chips, ..bars }),
                Edge::Top => false,
            }
        }),
{
}

/// Without bars nothing is reserved on any side, and the capture button has no
/// place.
pub proof fn law_bare_windows_reserve_nothing(model: AppModel, metrics: BarMetrics)
    requires
        model.bare(),
    ensures
        model.top_extent(metrics) == 0,
        model.bottom_extent(metrics) == 0,
        model.capture_extent(metrics) == 0,
        edge_insets(
            model.layout(),
            model.top_extent(metrics),
            model.bottom_extent(metrics),
            0,
        ) == (BarInsets { top: 0int, right: 0, bottom: 0, left: 0 }),
{
}

/// With a capture button, the bottom bar of photos is the capture button's place
/// thicker than the modes alone.
pub proof fn law_photo_bar_holds_the_capture_button(model: AppModel, metrics: BarMetrics)
    requires
        model.mode is Photo,
        !model.ui_hidden,
    ensures
        model.bottom_extent(metrics) == metrics.bottom_bar + model.capture_extent(metrics),
{
}

/// The shape of a photo turns with the window, and only its long and short side
/// change places.
pub proof fn law_shapes_turn(ratio: PhotoAspectRatio)
    ensures
        ratio.shown(true) matches Some((width, height)) ==> ratio.shown(false) == Some(
            (height, width),
        ) && width <= height,
        ratio.shown(true) is None <==> ratio is Native,
        ratio.shown(false) is None <==> ratio is Native,
{
}

/// How thick the bars are: nothing at all without controls, or where the preview is
/// all there is; else the top bar as it is, and the bottom bar with the place of the
/// capture button where photos are taken, and a narrow edge everywhere else.
pub proof fn law_thickness_of_the_bars(model: AppModel, metrics: BarMetrics)
    ensures
        model.ui_hidden || model.mode is View ==> {
            &&& model.top_extent(metrics) == 0
            &&& model.bottom_extent(metrics) == 0
            &&& model.capture_extent(metrics) == 0
        },
        !model.ui_hidden && !(model.mode is View) ==> {
            let button = metrics.capture_button + 8 * metrics.space_xs;
            &&& model.top_extent(metrics) == metrics.top_bar
            &&& model.capture_extent(metrics) == button
            &&& model.mode is Photo ==> model.bottom_extent(metrics) == metrics.bottom_bar + button
            &&& !(model.mode is Photo) ==> model.bottom_extent(metrics) == metrics.bottom_bar
                + metrics.space_xs
        },
{
}

/// When the preview fills the window: always, but where other programs are shown it,
/// and where the user asked for the whole frame in a mode that offers the choice.
pub proof fn law_when_the_preview_fills(model: AppModel)
    ensures
        model.mode is Virtual ==> !model.fills(),
        model.preview_fit_to_view && (model.mode is Photo || model.mode is View) ==> !model.fills(),
        !model.preview_fit_to_view && !(model.mode is Virtual) ==> model.fills(),
        model.mode is Video || model.mode is Timelapse ==> model.fills(),
{
}

/// Any one value that is elsewhere than where it comes to rest is a reason to move:
/// the blend, the top bar, the bottom bar and the place of the capture button, each
/// alone. So where nothing moves, all four are at rest but for less than the eye
/// could tell.
pub proof fn law_any_change_is_animated(model: AppModel, metrics: BarMetrics, from: FitFrom)
    ensures
        ({
            let moves = model.moves_from(metrics, from);
            let bare = model.ui_hidden || model.mode is View;
            let whole_frame = model.mode is Virtual || (model.preview_fit_to_view && (model.mode
                is Photo || model.mode is View));
            let button = metrics.capture_button + 8 * metrics.space_xs;
            let blend: int = if whole_frame {
                0
            } else {
                4
            };
            let top: int = if bare {
                0
            } else {
                metrics.top_bar as int
            };
            let bottom: int = if bare {
                0
            } else if model.mode is Photo {
                metrics.bottom_bar + button
            } else {
                metrics.bottom_bar + metrics.space_xs
            };
            let capture: int = if bare {
                0
            } else {
                button
            };
            &&& from.blend.departs(blend) ==> moves
            &&& from.top_ui_height.departs(top) ==> moves
            &&& from.bottom_ui_height.departs(bottom) ==> moves
            &&& from.capture_area_height.departs(capture) ==> moves
            &&& moves ==> from.blend.departs(blend) || from.top_ui_height.departs(top)
                || from.bottom_ui_height.departs(bottom) || from.capture_area_height.departs(
                capture,
            )
            &&& forall|n: int| #[trigger] from.blend.is_quarters(n) && n != blend ==> moves
            &&& forall|n: int| #[trigger] from.top_ui_height.is_quarters(n) && n != top ==> moves
            &&& forall|n: int| #[trigger]
                from.bottom_ui_height.is_quarters(n) && n != bottom ==> moves
            &&& forall|n: int| #[trigger]
                from.capture_area_height.is_quarters(n) && n != capture ==> moves
        }),
{
    let bare = model.ui_hidden || model.mode is View;
    assert forall|n: int| #[trigger]
        from.blend.is_quarters(n) && n != (if model.fills() { 4int } else { 0 }) implies
        from.blend.departs(if model.fills() { 4int } else { 0 }) by {
        law_other_quarters_depart(from.blend, n, if model.fills() { 4int } else { 0 });
    }
    assert forall|n: int| #[trigger]
        from.top_ui_height.is_quarters(n) && n != model.top_extent(metrics) implies
        from.top_ui_height.departs(model.top_extent(metrics)) by {
        law_other_quarters_depart(from.top_ui_height, n, model.top_extent(metrics));
    }
    assert forall|n: int| #[trigger]
        from.bottom_ui_height.is_quarters(n) && n != model.bottom_extent(metrics) implies
        from.bottom_ui_height.departs(model.bottom_extent(metrics)) by {
        law_other_quarters_depart(from.bottom_ui_height, n, model.bottom_extent(metrics));
    }
    assert forall|n: int| #[trigger]
        from.capture_area_height.is_quarters(n) && n != model.capture_extent(metrics) implies
        from.capture_area_height.departs(model.capture_extent(metrics)) by {
        law_other_quarters_depart(from.capture_area_height, n, model.capture_extent(metrics));
    }
}

/// From where one model comes to rest to where another does, everything moves just
/// where the two differ in one of the four: so a change of mode that changes the
/// height of a bar is animated, and one that changes nothing is not.
pub proof fn law_moves_between_rests(
    before: AppModel,
    after: AppModel,
    metrics: BarMetrics,
    from: FitFrom,
)
    requires
        before.at_rest(metrics, from),
    ensures
        after.moves_from(metrics, from) <==> (before.fills() != after.fills() || before.top_extent(
            metrics,
        ) != after.top_extent(metrics) || before.bottom_extent(metrics) != after.bottom_extent(
            metrics,
        ) || before.capture_extent(metrics) != after.capture_extent(metrics)),
        !before.ui_hidden && !after.ui_hidden && before.mode is Photo && after.mode is Video
            && metrics.capture_button > 0 ==> after.moves_from(metrics, from),
{
    law_one_is_four_quarters();
    law_any_change_is_animated(after, metrics, from);
    law_quarters_do_not_depart(from.top_ui_height, before.top_extent(metrics));
    law_quarters_do_not_depart(from.bottom_ui_height, before.bottom_extent(metrics));
    law_quarters_do_not_depart(from.capture_area_height, before.capture_extent(metrics));
    let blend: int = if before.fills() {
        4
    } else {
        0
    };
    law_quarters_do_not_depart(from.blend, blend);
    assert(from.blend.is_quarters(blend));
}

/// Where everything comes to rest: the blend at its end or its beginning, and each
/// height at exactly what its bar takes.
pub proof fn law_rest_is_where_the_bars_are(model: AppModel, metrics: BarMetrics, state: FitFrom)
    requires
        model.at_rest(metrics, state),
    ensures
        ({
            let bare = model.ui_hidden || model.mode is View;
            let button = metrics.capture_button + 8 * metrics.space_xs;
            let fitted = model.preview_fit_to_view && (model.mode is Photo || model.mode is View);
            &&& model.mode is Virtual || fitted ==> state.blend == F32::zero()
            &&& !(model.mode is Virtual || fitted) ==> state.blend == F32::one()
            &&& bare ==> {
                &&& state.top_ui_height == F32::zero()
                &&& state.bottom_ui_height == F32::zero()
                &&& state.capture_area_height == F32::zero()
            }
            &&& !bare ==> {
                &&& state.top_ui_height.is_quarters(metrics.top_bar as int)
                &&& state.capture_area_height.is_quarters(button)
                &&& model.mode is Photo ==> state.bottom_ui_height.is_quarters(
                    metrics.bottom_bar + button,
                )
                &&& !(model.mode is Photo) ==> state.bottom_ui_height.is_quarters(
                    metrics.bottom_bar + metrics.space_xs,
                )
            }
        }),
{
}

/// A photo is cut to the shape that was asked for, turned with the window: twice as
/// long as wide, sixteen to nine, four to three or square. A preview that shows the
/// whole frame is not cut, nor is a photo of the sensor's own shape.
pub proof fn law_photos_are_cut_to_their_shape(model: AppModel)
    ensures
        ({
            let ratio = model.photo_aspect_ratio;
            let upright = model.screen_width.below(model.screen_height) && F32::zero().below(
                model.screen_width,
            ) && F32::zero().below(model.screen_height);
            &&& model.crop_ratio() is None <==> model.preview_fit_to_view || ratio is Native
            &&& model.crop_ratio() matches Some((width, height)) ==> {
                let (long, short) = if upright {
                    (height as int, width as int)
                } else {
                    (width as int, height as int)
                };
                &&& 0 < short <= long
                &&& ratio is Ratio1x1 <==> long == short
                &&& ratio is Ratio4x3 <==> 3 * long == 4 * short
                &&& ratio is Ratio16x9 <==> 9 * long == 16 * short
                &&& ratio is Ratio2x1 <==> long == 2 * short
            }
        }),
{
}

/// The window is upright where it has a size and is higher than wide; a window that
/// was not laid out yet is not.
pub proof fn law_upright_windows_are_higher(model: AppModel)
    requires
        model.screen_width.finite(),
        model.screen_height.finite(),
    ensures
        model.portrait() <==> 0 < model.screen_width.scaled() < model.screen_height.scaled(),
{
    law_numbers_compare_by_worth(F32::zero(), model.screen_width);
    law_numbers_compare_by_worth(F32::zero(), model.screen_height);
    law_numbers_compare_by_worth(model.screen_width, model.screen_height);
    assert(F32::zero().scaled() == 0);
}

/// The chips are there where zoom and fit can be chosen, and no menu and no hidden
/// controls take them away; their row is as high as the two spaces that it is made of.
pub proof fn law_when_the_chips_are_there(model: AppModel, metrics: BarMetrics)
    ensures
        ({
            let there = (model.mode is Photo || model.mode is View) && !model.tools_menu_visible
                && !model.ui_hidden;
            &&& model.chips_shown() <==> there
            &&& there ==> model.chip_extent(metrics) == 4 * metrics.space_l + 4 * metrics.space_xs
            &&& !there ==> model.chip_extent(metrics) == 0
        }),
{
}

/// What the bars take from each side once nothing moves: each its thickness from the
/// edge that it stands on, and nothing from the other two.
pub proof fn law_settled_bars_take_from_their_edge(
    model: AppModel,
    metrics: BarMetrics,
    edge: Edge,
)
    ensures
        ({
            let insets = model.settled_extents(metrics);
            let layout = model.layout();
            &&& inset_at(insets, layout.top_bar) == model.top_extent(metrics)
            &&& inset_at(insets, layout.bottom_bar) == model.bottom_extent(metrics)
            &&& edge != layout.top_bar && edge != layout.bottom_bar ==> inset_at(insets, edge) == 0
            &&& layout == placed_layout(model.controls_position, model.display_orientation)
        }),
{
}

proof fn lemma_drawer_bounds()
    ensures
        (F32 { bits: NARROW_DRAWER_BITS }).is_quarters(2848),
        (F32 { bits: WIDE_DRAWER_BITS }).is_quarters(3392),
        (F32 { bits: COMPACT_SIDE_HEIGHT_BITS }).is_quarters(1920),
{
    lemma2_to64();
    let narrow = NARROW_DRAWER_BITS as int;
    let wide = WIDE_DRAWER_BITS as int;
    let low = COMPACT_SIDE_HEIGHT_BITS as int;
    assert(narrow / 0x80_0000 == 136 && narrow % 0x80_0000 == 0x32_0000);
    assert(wide / 0x80_0000 == 136 && wide % 0x80_0000 == 0x54_0000);
    assert(low / 0x80_0000 == 135 && low % 0x80_0000 == 0x70_0000);
    assert(pow2(11) == 2048 && pow2(10) == 1024 && pow2(23) == 0x80_0000);
}

/// A drawer takes what the view leaves of the window, but no less and no more than
/// its bounds: 368 pixels are the view's, so a window of 712 leaves the least width
/// of 344 and one of 848 the greatest of 480, and in between it follows the window.
pub proof fn law_drawers_leave_the_view_its_space(width: F32)
    requires
        width.finite(),
    ensures
        drawer_extent(width) is Narrowest <==> width.scaled() <= (344 + 368) * pow2(149),
        drawer_extent(width) is Widest <==> width.scaled() >= (480 + 368) * pow2(149),
        drawer_extent(width) is Remainder <==> (344 + 368) * pow2(149) < width.scaled() < (480
            + 368) * pow2(149),
{
    let narrow = F32 { bits: NARROW_DRAWER_BITS };
    let wide = F32 { bits: WIDE_DRAWER_BITS };
    lemma_drawer_bounds();
    law_quarters_do_not_depart(narrow, 2848);
    law_quarters_do_not_depart(wide, 3392);
    law_quarters_are_worth_it(narrow, 2848);
    law_quarters_are_worth_it(wide, 3392);
    law_numbers_compare_by_worth(width, narrow);
    law_numbers_compare_by_worth(wide, width);
    let unit = pow2(149);
    lemma_pow2_pos(149);
    assert((344 + 368) * unit == 712 * unit && (480 + 368) * unit == 848 * unit)
        by (nonlinear_arith);
}

/// A drawer stands at the right, and moves to the left only where the display is
/// turned so that the title bar stands at the right.
pub proof fn law_drawers_stand_at_the_right(
    position: ControlsPosition,
    orientation: DisplayOrientation,
)
    ensures
        !drawer_at_right(position, placed_layout(position, orientation)) <==> position is Bottom
            && (orientation is Rotate90 || orientation is Flipped90),
{
}

/// A window is low up to 480 pixels: at its sides a picker stays inside it.
pub proof fn law_low_windows(height: F32)
    requires
        height.finite(),
    ensures
        height.at_most(F32 { bits: COMPACT_SIDE_HEIGHT_BITS }) <==> height.scaled() <= 480 * pow2(
            149,
        ),
{
    let low = F32 { bits: COMPACT_SIDE_HEIGHT_BITS };
    lemma_drawer_bounds();
    law_quarters_do_not_depart(low, 1920);
    law_quarters_are_worth_it(low, 1920);
    law_numbers_compare_by_worth(height, low);
}

/// A movement starts from where everything is, at the time that it is asked for, as
/// soon as any one bar is thicker or thinner than it comes to rest at, or the preview
/// fills more or less; frames are drawn from then on, by what draws them already or
/// else at sixty a second. It leads to or from a view just where there is no capture
/// button at one of its ends.
pub proof fn law_movements_start(
    model: AppModel,
    metrics: BarMetrics,
    from: FitFrom,
    now_ms: u64,
    bottom: int,
)
    requires
        !model.ui_hidden,
        !(model.mode is View),
        from.bottom_ui_height.is_quarters(bottom),
        bottom != metrics.bottom_bar + (if model.mode is Photo {
            metrics.capture_button + 8 * metrics.space_xs
        } else {
            metrics.space_xs as int
        }),
    ensures
        model.movement(metrics, from, now_ms) matches Some(animation) && {
            &&& animation.start_ms == now_ms
            &&& animation.from == from
            &&& from.capture_area_height.at_most(F32 { bits: EPSILON_BITS })
                ==> animation.is_view_boundary
            &&& metrics.capture_button > 0 && !from.capture_area_height.at_most(
                F32 { bits: EPSILON_BITS },
            ) ==> !animation.is_view_boundary
        },
        model.fit_animation is None ==> model.first_tick(metrics, from) == Some(16u64),
        model.fit_animation is Some ==> model.first_tick(metrics, from) is None,
{
    law_any_change_is_animated(model, metrics, from);
}

/// What was asked to rest where it is rests, and a movement that was under way goes on;
/// without bars, every movement leads to a view.
pub proof fn law_rest_starts_nothing(
    model: AppModel,
    metrics: BarMetrics,
    from: FitFrom,
    now_ms: u64,
)
    ensures
        model.at_rest(metrics, from) ==> model.movement(metrics, from, now_ms)
            == model.fit_animation && model.first_tick(metrics, from) is None,
        (model.ui_hidden || model.mode is View) && model.moves_from(metrics, from)
            ==> model.movement(metrics, from, now_ms)->0.is_view_boundary,
{
    if model.at_rest(metrics, from) {
        law_rest_stays_at_rest(model, metrics, from);
    }
}

/// Wherever the bars are just now, a popup keeps clear of the top bar on its edge and
/// of the bottom bar on the other, with the chips while they are there, and of nothing
/// at the other two.
pub proof fn law_popups_keep_clear<T>(
    model: AppModel,
    top: T,
    bottom: T,
    bottom_with_chips: T,
    nothing: T,
    edge: Edge,
)
    ensures
        ({
            let padding = model.popup_insets(top, bottom, bottom_with_chips, nothing);
            let layout = model.layout();
            let chips = (model.mode is Photo || model.mode is View) && !model.tools_menu_visible
                && !model.ui_hidden;
            &&& inset_at(padding, layout.top_bar) == top
            &&& chips ==> inset_at(padding, layout.bottom_bar) == bottom_with_chips
            &&& !chips ==> inset_at(padding, layout.bottom_bar) == bottom
            &&& edge != layout.top_bar && edge != layout.bottom_bar ==> inset_at(padding, edge)
                == nothing
        }),
{
}

} // verus!
