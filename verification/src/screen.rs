//! What stands on the screen, from the preview up to the topmost overlay.

use vstd::prelude::*;
use vstd::seq_lib::lemma_concat_associative;
use crate::bar_layout::{capture_area_height_is_fixed, sideways_column_reverses, Align, Edge};
use crate::insets::BarInsets;
use crate::model::{
    context_drawer_top_inset, context_drawer_width, drawer_at_right, drawer_extent, ActiveFormat,
    AppModel, BurstModeStage, ContextPage, DrawerWidth,
};
use crate::order::{ascends, lemma_joined_ascend, lemma_joined_contain};
use crate::text::{decimal, decimal_text};
use crate::zoom::{is_zoomed, zoom_label_text, zoom_text, zoomed};

verus! {

/// Milliseconds over which a number of the timer fades away.
pub const TIMER_FADE_MS: u64 = 900;

/// Where the zoom and fit chips go.
#[derive(Clone, Copy, Debug, PartialEq, Eq, Structural)]
pub enum FitZoomLayout {
    /// In the bottom bar, above the capture button.
    Inline,
    /// Over the preview, beside the strip.
    FloatUpright,
}

/// Where the zoom and fit chips go.
pub fn fit_zoom_layout(sideways: bool) -> (layout: FitZoomLayout)
    ensures
        layout is FloatUpright <==> sideways,
{
    if sideways {
        FitZoomLayout::FloatUpright
    } else {
        FitZoomLayout::Inline
    }
}

/// Where the progress of a video goes.
#[derive(Clone, Copy, Debug, PartialEq, Eq, Structural)]
pub enum VideoProgressPlacement {
    AboveCapture,
    AboveSideLanes,
}

/// Where the progress of a video goes.
pub fn video_progress_placement(sideways: bool) -> (placement: VideoProgressPlacement)
    ensures
        placement is AboveSideLanes <==> sideways,
{
    if sideways {
        VideoProgressPlacement::AboveSideLanes
    } else {
        VideoProgressPlacement::AboveCapture
    }
}

/// How the zoom and fit chips stand to each other.
#[derive(Clone, Copy, Debug, PartialEq, Eq, Structural)]
pub enum FitZoomAxis {
    Horizontal,
    Vertical,
}

/// How the zoom and fit chips stand to each other.
pub fn fit_zoom_axis(sideways: bool) -> (axis: FitZoomAxis)
    ensures
        axis is Vertical <==> sideways,
{
    if sideways {
        FitZoomAxis::Vertical
    } else {
        FitZoomAxis::Horizontal
    }
}

/// A place beside the stop button.
#[derive(Clone, Copy, Debug, PartialEq, Eq, Structural)]
pub enum CaptureSlot {
    /// Play or pause, where a video is shown in place of the camera.
    PlayPause,
    Nothing,
    Stop,
    Photo,
}

/// What stands where photos are taken.
#[derive(Debug)]
pub enum CaptureArea {
    /// Nothing: there is no capture button, or it is about to come or go.
    Empty,
    /// While something is recorded or sent: three places, from the first on.
    Running { slots: Vec<CaptureSlot>, column: bool },
    /// Play or pause, and the capture button.
    PlayAndCapture,
    /// The capture button.
    Capture,
}

/// Something in the bottom section, from the top down.
#[derive(Clone, Copy, Debug, PartialEq, Eq, Structural)]
pub enum BottomItem {
    Chips,
    Progress,
    CaptureArea,
    BottomBar,
    /// The capture area and the bottom bar side by side.
    Lanes { capture_first: bool },
}

/// Something on the screen.
#[derive(Clone, Copy, Debug, PartialEq, Eq, Structural)]
pub enum Layer {
    Preview,
    WhiteFlash,
    BurstProgress,
    FrostedBars,
    CropOverlay,
    CompositionOverlay,
    QrOverlay,
    PrivacyWarning,
    TopBar(Edge),
    BottomBar(Edge),
    /// The zoom and fit chips, over the preview by this edge.
    Chips(Edge),
    FlashError,
    Timer(u8),
    FormatPicker,
    ExposurePicker,
    ColorPicker,
    MotorPicker,
    ToolsMenu,
    ContextDrawer(ContextPage),
}

/// What stands on the screen.
#[derive(Debug)]
pub struct Screen {
    /// From the preview up.
    pub layers: Vec<Layer>,
    pub capture: CaptureArea,
    /// The capture area is as high as its lane.
    pub capture_height_fixed: bool,
    pub bottom: Vec<BottomItem>,
}

/// `layers` if the condition holds, none otherwise.
pub open spec fn layers_if(condition: bool, layers: Seq<Layer>) -> Seq<Layer> {
    if condition {
        layers
    } else {
        seq![]
    }
}

/// `items` if the condition holds, none otherwise.
pub open spec fn items_if(condition: bool, items: Seq<BottomItem>) -> Seq<BottomItem> {
    if condition {
        items
    } else {
        seq![]
    }
}

/// Adds a layer if the condition holds.
fn push_if(layers: &mut Vec<Layer>, condition: bool, layer: Layer)
    ensures
        final(layers)@ == old(layers)@ + layers_if(condition, seq![layer]),
{
    if condition {
        layers.push(layer);
    }
    assert(layers@ =~= old(layers)@ + layers_if(condition, seq![layer]));
}

impl AppModel {
    /// The screen itself serves as flash.
    pub open spec fn screen_flashes(self) -> bool {
        self.flash_active && !self.hardware_flash
    }

    /// The three places stand in for the capture button.
    pub open spec fn runs(self) -> bool {
        (self.recording && !self.quick_recording) || self.streaming
    }

    /// The capture button is about to come or go.
    pub open spec fn crosses_view(self) -> bool {
        self.fit_animation matches Some(animation) && animation.is_view_boundary
    }

    /// The QR codes in the picture are shown.
    pub open spec fn shows_qr(self) -> bool {
        self.qr_detection_enabled && self.qr_detections > 0 && self.current_frame is Some
    }

    /// The three places upright, from the leading end.
    pub open spec fn upright_slots(self) -> Seq<CaptureSlot> {
        seq![
            if self.video_controls {
                CaptureSlot::PlayPause
            } else {
                CaptureSlot::Nothing
            },
            CaptureSlot::Stop,
            CaptureSlot::Photo,
        ]
    }

    /// The three places. At one of the sides they run the other way, so that
    /// either side mirrors the other.
    pub open spec fn slots(self) -> Seq<CaptureSlot> {
        if self.layout().quarter is Ccw90 {
            self.upright_slots().reverse()
        } else {
            self.upright_slots()
        }
    }

    /// `area` is what stands where photos are taken.
    pub open spec fn capture_is(self, area: CaptureArea) -> bool {
        if self.mode is View || self.crosses_view() {
            area is Empty
        } else if self.runs() {
            &&& area matches CaptureArea::Running { slots, column }
            &&& slots@ == self.slots()
            &&& column == self.layout().sideways()
        } else if self.video_controls {
            area is PlayAndCapture
        } else {
            area is Capture
        }
    }

    /// The bottom section, from the top down; `progress` where a video has any.
    pub open spec fn bottom_items(self, progress: bool) -> Seq<BottomItem> {
        let sideways = self.layout().sideways();
        items_if(self.chips_shown() && !sideways, seq![BottomItem::Chips]) + items_if(
            !self.ui_hidden,
            items_if(progress, seq![BottomItem::Progress]) + (if sideways {
                seq![BottomItem::Lanes { capture_first: self.layout().bottom_bar is Right }]
            } else {
                seq![BottomItem::CaptureArea, BottomItem::BottomBar]
            }),
        )
    }

    /// The layers of the picture and the bars.
    pub open spec fn base_layers(self) -> Seq<Layer> {
        seq![
            Layer::Preview,
            Layer::FrostedBars,
            Layer::CropOverlay,
            Layer::CompositionOverlay,
        ] + layers_if(self.shows_qr(), seq![Layer::QrOverlay]) + layers_if(
            self.privacy_cover_closed,
            seq![Layer::PrivacyWarning],
        ) + seq![Layer::TopBar(self.layout().top_bar), Layer::BottomBar(self.layout().bottom_bar)]
    }

    /// The layers over the bars.
    pub open spec fn notice_layers(self) -> Seq<Layer> {
        layers_if(
            self.chips_shown() && self.layout().sideways(),
            seq![Layer::Chips(self.layout().bottom_bar)],
        ) + layers_if(self.flash_error is Some, seq![Layer::FlashError]) + (
        match self.photo_timer_countdown {
            Some(remaining) => seq![Layer::Timer(remaining)],
            None => seq![],
        })
    }

    /// The layers that are opened and closed.
    pub open spec fn picker_layers(self) -> Seq<Layer> {
        layers_if(
            self.format_picker_visible && !self.format_picker_hidden,
            seq![Layer::FormatPicker],
        ) + layers_if(self.exposure_picker_visible, seq![Layer::ExposurePicker]) + layers_if(
            self.color_picker_visible,
            seq![Layer::ColorPicker],
        ) + layers_if(self.motor_picker_visible, seq![Layer::MotorPicker]) + layers_if(
            self.tools_menu_visible,
            seq![Layer::ToolsMenu],
        ) + layers_if(self.show_context, seq![Layer::ContextDrawer(self.context_page)])
    }

    /// Everything on the screen, from the preview up. A flash is white and
    /// nothing else; a burst shows how far it has come and nothing else.
    pub open spec fn layers(self) -> Seq<Layer> {
        if self.screen_flashes() {
            seq![Layer::Preview, Layer::WhiteFlash]
        } else if self.burst_active {
            seq![Layer::Preview, Layer::BurstProgress]
        } else {
            self.base_layers() + self.notice_layers() + self.picker_layers()
        }
    }

    /// Whether the QR codes in the picture are shown.
    pub fn build_qr_overlay(&self) -> (shown: bool)
        ensures
            shown == self.shows_qr(),
    {
        self.qr_detection_enabled && self.qr_detections > 0 && self.current_frame.is_some()
    }

    fn capture_slots(&self) -> (slots: Vec<CaptureSlot>)
        ensures
            slots@ == self.slots(),
    {
        let left = if self.video_controls { CaptureSlot::PlayPause } else { CaptureSlot::Nothing };
        let slots = if sideways_column_reverses(self.controls_bar_layout().quarter) {
            vec![CaptureSlot::Photo, CaptureSlot::Stop, left]
        } else {
            vec![left, CaptureSlot::Stop, CaptureSlot::Photo]
        };
        assert(slots@ =~= self.slots());
        slots
    }

    /// What stands where photos are taken.
    pub fn capture_area(&self) -> (area: CaptureArea)
        ensures
            self.capture_is(area),
    {
        let crosses = match self.fit_animation {
            Some(animation) => animation.is_view_boundary,
            None => false,
        };
        if self.mode.is_view_only() || crosses {
            return CaptureArea::Empty;
        }
        if (self.recording && !self.quick_recording) || self.streaming {
            CaptureArea::Running {
                slots: self.capture_slots(),
                column: self.controls_are_sideways(),
            }
        } else if self.video_controls {
            CaptureArea::PlayAndCapture
        } else {
            CaptureArea::Capture
        }
    }

    /// The bottom section, from the top down.
    pub fn bottom_section(&self, progress: bool) -> (items: Vec<BottomItem>)
        ensures
            items@ == self.bottom_items(progress),
    {
        let layout = self.controls_bar_layout();
        let sideways = layout.is_sideways();
        let mut items: Vec<BottomItem> = Vec::new();
        if self.shows_chips() {
            if let FitZoomLayout::Inline = fit_zoom_layout(sideways) {
                items.push(BottomItem::Chips);
            }
        }
        if !self.ui_hidden {
            if progress {
                items.push(BottomItem::Progress);
            }
            if sideways {
                items.push(
                    BottomItem::Lanes { capture_first: matches!(layout.bottom_bar, Edge::Right) },
                );
            } else {
                items.push(BottomItem::CaptureArea);
                items.push(BottomItem::BottomBar);
            }
        }
        assert(items@ =~= self.bottom_items(progress));
        items
    }

    #[verifier::spinoff_prover]
    fn push_base(&self, layers: &mut Vec<Layer>)
        ensures
            final(layers)@ == old(layers)@ + self.base_layers(),
    {
        let layout = self.controls_bar_layout();
        layers.push(Layer::Preview);
        layers.push(Layer::FrostedBars);
        layers.push(Layer::CropOverlay);
        layers.push(Layer::CompositionOverlay);
        push_if(layers, self.build_qr_overlay(), Layer::QrOverlay);
        push_if(layers, self.privacy_cover_closed, Layer::PrivacyWarning);
        layers.push(Layer::TopBar(layout.top_bar));
        layers.push(Layer::BottomBar(layout.bottom_bar));
        assert(layers@ =~= old(layers)@ + self.base_layers());
    }

    #[verifier::spinoff_prover]
    fn push_notices(&self, layers: &mut Vec<Layer>)
        ensures
            final(layers)@ == old(layers)@ + self.notice_layers(),
    {
        let layout = self.controls_bar_layout();
        let floating = matches!(
            fit_zoom_layout(layout.is_sideways()),
            FitZoomLayout::FloatUpright
        );
        push_if(layers, self.shows_chips() && floating, Layer::Chips(layout.bottom_bar));
        push_if(layers, self.flash_error.is_some(), Layer::FlashError);
        if let Some(remaining) = self.photo_timer_countdown {
            layers.push(Layer::Timer(remaining));
        }
        assert(layers@ =~= old(layers)@ + self.notice_layers());
    }

    #[verifier::spinoff_prover]
    fn push_pickers(&self, layers: &mut Vec<Layer>)
        ensures
            final(layers)@ == old(layers)@ + self.picker_layers(),
    {
        let ghost before = layers@;
        let format = self.format_picker_visible && !self.format_picker_hidden;
        let ghost a = layers_if(format, seq![Layer::FormatPicker]);
        let ghost b = layers_if(self.exposure_picker_visible, seq![Layer::ExposurePicker]);
        let ghost c = layers_if(self.color_picker_visible, seq![Layer::ColorPicker]);
        let ghost d = layers_if(self.motor_picker_visible, seq![Layer::MotorPicker]);
        let ghost e = layers_if(self.tools_menu_visible, seq![Layer::ToolsMenu]);
        let ghost f = layers_if(self.show_context, seq![Layer::ContextDrawer(self.context_page)]);
        push_if(layers, format, Layer::FormatPicker);
        push_if(layers, self.exposure_picker_visible, Layer::ExposurePicker);
        push_if(layers, self.color_picker_visible, Layer::ColorPicker);
        push_if(layers, self.motor_picker_visible, Layer::MotorPicker);
        push_if(layers, self.tools_menu_visible, Layer::ToolsMenu);
        push_if(layers, self.show_context, Layer::ContextDrawer(self.context_page));
        proof {
            lemma_concat_associative(before, a, b);
            lemma_concat_associative(before, a + b, c);
            lemma_concat_associative(before, a + b + c, d);
            lemma_concat_associative(before, a + b + c + d, e);
            lemma_concat_associative(before, a + b + c + d + e, f);
        }
    }

    /// Lays out the screen; `progress` where a video has any.
    pub fn view(&self, progress: bool) -> (screen: Screen)
        ensures
            screen.layers@ == self.layers(),
            self.capture_is(screen.capture),
            screen.capture_height_fixed == !(self.layout().sideways() && self.runs()),
            screen.bottom@ == self.bottom_items(progress),
    {
        let capture = self.capture_area();
        let running = (self.recording && !self.quick_recording) || self.streaming;
        let capture_height_fixed = capture_area_height_is_fixed(
            self.controls_are_sideways(),
            running,
        );
        let bottom = self.bottom_section(progress);
        let mut layers: Vec<Layer> = Vec::new();
        if self.flash_active && !self.hardware_flash {
            layers.push(Layer::Preview);
            layers.push(Layer::WhiteFlash);
        } else if self.burst_active {
            layers.push(Layer::Preview);
            layers.push(Layer::BurstProgress);
        } else {
            self.push_base(&mut layers);
            self.push_notices(&mut layers);
            self.push_pickers(&mut layers);
        }
        assert(layers@ =~= self.layers());
        Screen { layers, capture, capture_height_fixed, bottom }
    }
}

/// The zoom and fit chips.
#[derive(Debug)]
pub struct ChipGroup {
    pub axis: FitZoomAxis,
    /// Icon of the fit chip.
    pub fit_icon: &'static str,
    /// The fit chip is lit: the whole frame is shown.
    pub fit_lit: bool,
    pub zoom_text: String,
    /// The zoom chip is lit: the preview is zoomed.
    pub zoom_lit: bool,
}

/// How the chips stand over the preview.
#[derive(Clone, Copy, Debug, PartialEq, Eq, Structural)]
pub struct ChipPlace {
    pub horizontal: Align,
    pub vertical: Align,
    /// What they keep clear of on each side.
    pub padding: BarInsets<u32>,
}

/// How the chips stand over the preview: by the inner side of the strip, clear of
/// it by `inset`, and halfway up.
pub open spec fn chip_place(bottom_edge: Edge, inset: u32) -> ChipPlace {
    let padding = BarInsets { top: 0u32, right: 0u32, bottom: 0u32, left: 0u32 };
    match bottom_edge {
        Edge::Right => ChipPlace {
            horizontal: Align::End,
            vertical: Align::Center,
            padding: BarInsets { right: inset, ..padding },
        },
        Edge::Left => ChipPlace {
            horizontal: Align::Start,
            vertical: Align::Center,
            padding: BarInsets { left: inset, ..padding },
        },
        _ => ChipPlace { horizontal: Align::Center, vertical: Align::Center, padding },
    }
}

/// How the chips stand over the preview.
pub fn float_chips_over_preview(bottom_edge: Edge, inset: u32) -> (place: ChipPlace)
    ensures
        place == chip_place(bottom_edge, inset),
{
    match bottom_edge {
        Edge::Right => ChipPlace {
            horizontal: Align::End,
            vertical: Align::Center,
            padding: BarInsets { top: 0, right: inset, bottom: 0, left: 0 },
        },
        Edge::Left => ChipPlace {
            horizontal: Align::Start,
            vertical: Align::Center,
            padding: BarInsets { top: 0, right: 0, bottom: 0, left: inset },
        },
        _ => ChipPlace {
            horizontal: Align::Center,
            vertical: Align::Center,
            padding: BarInsets { top: 0, right: 0, bottom: 0, left: 0 },
        },
    }
}

/// Pixels that a drawer leaves free beside and below it.
pub const CONTEXT_DRAWER_INSET: u16 = 8;

/// An open drawer.
#[derive(Clone, Copy, Debug, PartialEq, Eq, Structural)]
pub struct Drawer {
    pub page: ContextPage,
    pub at_right: bool,
    pub width: DrawerWidth,
    /// Pixels left free on each side.
    pub padding: BarInsets<u16>,
}

impl AppModel {
    /// The zoom and fit chips.
    pub fn build_fit_zoom_group(&self) -> (group: ChipGroup)
        ensures
            group.axis is Vertical <==> self.layout().sideways(),
            group.fit_icon@ == (if self.preview_fit_to_view {
                "view-fullscreen-symbolic"@
            } else {
                "view-restore-symbolic"@
            }),
            group.fit_lit == self.preview_fit_to_view,
            group.zoom_text@ == zoom_text(self.zoom_level),
            group.zoom_lit == zoomed(self.zoom_level),
    {
        ChipGroup {
            axis: fit_zoom_axis(self.controls_are_sideways()),
            fit_icon: if self.preview_fit_to_view {
                "view-fullscreen-symbolic"
            } else {
                "view-restore-symbolic"
            },
            fit_lit: self.preview_fit_to_view,
            zoom_text: zoom_label_text(self.zoom_level),
            zoom_lit: is_zoomed(self.zoom_level),
        }
    }

    /// Lays out the drawer, below a title bar of so many pixels.
    pub fn build_context_drawer(&self, title_bar: u16) -> (drawer: Drawer)
        ensures
            drawer.page == self.context_page,
            drawer.at_right == drawer_at_right(self.controls_position, self.layout()),
            drawer.width == drawer_extent(self.screen_width),
            drawer.padding == (BarInsets {
                top: if self.layout().sideways() {
                    0
                } else {
                    title_bar
                },
                right: CONTEXT_DRAWER_INSET,
                bottom: CONTEXT_DRAWER_INSET,
                left: 0u16,
            }),
    {
        let layout = self.controls_bar_layout();
        Drawer {
            page: self.context_page,
            at_right: self.context_drawer_aligns_right(layout),
            width: context_drawer_width(self.screen_width),
            padding: BarInsets {
                top: context_drawer_top_inset(layout, title_bar),
                right: CONTEXT_DRAWER_INSET,
                bottom: CONTEXT_DRAWER_INSET,
                left: 0,
            },
        }
    }
}

/// What a burst says about itself.
#[derive(Clone, Copy, Debug, PartialEq, Eq, Structural)]
pub enum BurstNotice {
    /// Hold steady: so many frames of so many.
    HoldSteady { captured: usize, total: usize },
    Processing,
    Silent,
}

impl AppModel {
    /// What a burst says about itself.
    pub fn build_burst_mode_overlay(&self) -> (notice: BurstNotice)
        ensures
            notice == (match self.burst_stage {
                BurstModeStage::Capturing => BurstNotice::HoldSteady {
                    captured: self.burst_captured,
                    total: self.burst_target,
                },
                BurstModeStage::Processing => BurstNotice::Processing,
                _ => BurstNotice::Silent,
            }),
    {
        match self.burst_stage {
            BurstModeStage::Capturing => BurstNotice::HoldSteady {
                captured: self.burst_captured,
                total: self.burst_target,
            },
            BurstModeStage::Processing => BurstNotice::Processing,
            _ => BurstNotice::Silent,
        }
    }

    /// What the flash popup says.
    pub fn build_flash_error_popup(&self) -> (message: String)
        ensures
            message@ == (match self.flash_error {
                Some(error) => error@,
                None => "Flash permission error"@,
            }),
    {
        match &self.flash_error {
            Some(error) => error.as_str().to_owned(),
            None => "Flash permission error".to_owned(),
        }
    }
}

/// How much of a number of the timer is still to be seen, in parts of
/// [`TIMER_FADE_MS`]: all of it at first, or where it is not known when it
/// appeared, and nothing for the last tenth of the second.
pub fn build_timer_overlay(elapsed_ms: Option<u64>) -> (opacity: u64)
    ensures
        opacity == (match elapsed_ms {
            Some(elapsed) => if elapsed < TIMER_FADE_MS {
                TIMER_FADE_MS - elapsed
            } else {
                0
            },
            None => TIMER_FADE_MS as int,
        }),
{
    match elapsed_ms {
        Some(elapsed) => if elapsed < TIMER_FADE_MS {
            TIMER_FADE_MS - elapsed
        } else {
            0
        },
        None => TIMER_FADE_MS,
    }
}

/// How fine a picture is, for its label.
#[derive(Clone, Copy, Debug, PartialEq, Eq, Structural)]
pub enum ResolutionLabel {
    Uhd4k,
    Hd,
    P720,
    Sd,
}

/// Least widths of the labels.
#[derive(Clone, Copy, Debug, PartialEq, Eq, Structural)]
pub struct ResolutionThresholds {
    pub uhd_4k: u32,
    pub hd: u32,
    pub p720: u32,
}

/// The label of a picture so wide: the finest that it reaches.
pub open spec fn resolution_of(width: u32, thresholds: ResolutionThresholds) -> ResolutionLabel {
    if width >= thresholds.uhd_4k {
        ResolutionLabel::Uhd4k
    } else if width >= thresholds.hd {
        ResolutionLabel::Hd
    } else if width >= thresholds.p720 {
        ResolutionLabel::P720
    } else {
        ResolutionLabel::Sd
    }
}

/// The format button.
#[derive(Debug, PartialEq, Eq)]
pub struct FormatButton {
    /// How fine the picture is.
    pub resolution: ResolutionLabel,
    /// Frames each second.
    pub rate: String,
    /// It does not answer to a press, and is dimmed.
    pub disabled: bool,
}

impl AppModel {
    /// The format button: how fine the picture is, and its rate; `fallback` where
    /// the camera does not tell its rate. It answers to a press while the controls
    /// do.
    pub fn build_format_button(
        &self,
        active: &Option<ActiveFormat>,
        thresholds: &ResolutionThresholds,
        fallback: &str,
    ) -> (button: FormatButton)
        ensures
            button.resolution == (match active {
                Some(format) => resolution_of(format.width, *thresholds),
                None => ResolutionLabel::Hd,
            }),
            button.rate@ == (match active {
                Some(ActiveFormat { framerate: Some(rate), .. }) => decimal(*rate as nat),
                _ => fallback@,
            }),
            button.disabled == self.ui_disabled,
    {
        let (resolution, rate) = format_label(active, thresholds, fallback);
        FormatButton { resolution, rate, disabled: self.ui_disabled }
    }
}

fn format_label(
    active: &Option<ActiveFormat>,
    thresholds: &ResolutionThresholds,
    fallback: &str,
) -> (label: (ResolutionLabel, String))
    ensures
        label.0 == (match active {
            Some(format) => resolution_of(format.width, *thresholds),
            None => ResolutionLabel::Hd,
        }),
        label.1@ == (match active {
            Some(ActiveFormat { framerate: Some(rate), .. }) => decimal(*rate as nat),
            _ => fallback@,
        }),
{
    match active {
        Some(format) => {
            let resolution = if format.width >= thresholds.uhd_4k {
                ResolutionLabel::Uhd4k
            } else if format.width >= thresholds.hd {
                ResolutionLabel::Hd
            } else if format.width >= thresholds.p720 {
                ResolutionLabel::P720
            } else {
                ResolutionLabel::Sd
            };
            let rate = match format.framerate {
                Some(rate) => decimal_text(rate as u64),
                None => fallback.to_owned(),
            };
            (resolution, rate)
        },
        None => (ResolutionLabel::Hd, fallback.to_owned()),
    }
}

/// What stands for the size of a file: width times height, or dashes while there
/// is none.
pub open spec fn file_size_text(frame: Option<(u32, u32)>) -> Seq<char> {
    match frame {
        Some((width, height)) => if width > 0 && height > 0 {
            decimal(width as nat) + "×"@ + decimal(height as nat)
        } else {
            "---"@
        },
        None => "---"@,
    }
}

/// What stands for the size of a file.
pub fn build_file_source_resolution_label(frame: Option<(u32, u32)>) -> (text: String)
    ensures
        text@ == file_size_text(frame),
{
    match frame {
        Some((width, height)) => if width > 0 && height > 0 {
            let mut text = decimal_text(width as u64);
            text.append("×");
            let rest = decimal_text(height as u64);
            text.append(rest.as_str());
            text
        } else {
            "---".to_owned()
        },
        None => "---".to_owned(),
    }
}

proof fn lemma_base_layers(model: AppModel, k: int)
    requires
        0 <= k < model.base_layers().len(),
    ensures
        model.base_layers()[k] is Preview <==> k == 0,
        !(model.base_layers()[k] is ContextDrawer),
{
}

proof fn lemma_notice_layers(model: AppModel, k: int)
    requires
        0 <= k < model.notice_layers().len(),
    ensures
        !(model.notice_layers()[k] is Preview),
        !(model.notice_layers()[k] is ContextDrawer),
{
}

#[verifier::spinoff_prover]
proof fn lemma_picker_layers(model: AppModel)
    ensures
        ({
            let pickers = model.picker_layers();
            &&& forall|k: int| 0 <= k < pickers.len() ==> !(#[trigger] pickers[k] is Preview)
            &&& forall|k: int|
                0 <= k < pickers.len() && #[trigger] pickers[k] is ContextDrawer ==> k
                    == pickers.len() - 1
            &&& model.show_context ==> pickers.len() > 0 && pickers[pickers.len() - 1]
                is ContextDrawer
        }),
{
    let open = layers_if(
        model.format_picker_visible && !model.format_picker_hidden,
        seq![Layer::FormatPicker],
    ) + layers_if(model.exposure_picker_visible, seq![Layer::ExposurePicker]) + layers_if(
        model.color_picker_visible,
        seq![Layer::ColorPicker],
    ) + layers_if(model.motor_picker_visible, seq![Layer::MotorPicker]) + layers_if(
        model.tools_menu_visible,
        seq![Layer::ToolsMenu],
    );
    assert forall|k: int| 0 <= k < open.len() implies !(#[trigger] open[k] is Preview) && !(
    open[k] is ContextDrawer) by {}
    let pickers = model.picker_layers();
    assert(pickers == open + layers_if(
        model.show_context,
        seq![Layer::ContextDrawer(model.context_page)],
    ));
    assert forall|k: int| 0 <= k < open.len() implies #[trigger] pickers[k] == open[k] by {}
}

/// Whatever is shown, the preview is at the bottom and nowhere else; an open
/// drawer is at the top.
pub proof fn law_preview_at_the_bottom_drawer_at_the_top(model: AppModel, k: int)
    requires
        0 <= k < model.layers().len(),
    ensures
        model.layers()[k] is Preview <==> k == 0,
        model.layers()[k] is ContextDrawer ==> k == model.layers().len() - 1,
        model.show_context && !model.screen_flashes() && !model.burst_active
            ==> model.layers()[model.layers().len() - 1] is ContextDrawer,
{
    if !model.screen_flashes() && !model.burst_active {
        lemma_stacked(model.base_layers(), model.notice_layers(), model.picker_layers(), k);
        assert forall|j: int| 0 <= j < model.base_layers().len() implies (
        #[trigger] model.base_layers()[j] is Preview <==> j == 0) && !(
        model.base_layers()[j] is ContextDrawer) by {
            lemma_base_layers(model, j);
        }
        assert forall|j: int| 0 <= j < model.notice_layers().len() implies !(
        #[trigger] model.notice_layers()[j] is Preview) && !(
        model.notice_layers()[j] is ContextDrawer) by {
            lemma_notice_layers(model, j);
        }
        lemma_picker_layers(model);
    }
}

proof fn lemma_stacked(base: Seq<Layer>, notices: Seq<Layer>, pickers: Seq<Layer>, k: int)
    requires
        0 <= k < (base + notices + pickers).len(),
    ensures
        (base + notices + pickers)[k] == (if k < base.len() {
            base[k]
        } else if k < base.len() + notices.len() {
            notices[k - base.len()]
        } else {
            pickers[k - base.len() - notices.len()]
        }),
        pickers.len() > 0 ==> (base + notices + pickers)[(base + notices + pickers).len() - 1]
            == pickers[pickers.len() - 1],
{
}

/// The chips are shown in one place: in the bottom section of an upright window,
/// over the preview of one with bars at its sides. Where they are not shown, they
/// are in neither.
#[verifier::spinoff_prover]
pub proof fn law_chips_in_one_place(model: AppModel, progress: bool)
    ensures
        model.bottom_items(progress).contains(BottomItem::Chips) <==> (model.chips_shown()
            && !model.layout().sideways()),
        forall|edge: Edge| #[trigger]
            model.notice_layers().contains(Layer::Chips(edge)) <==> (model.chips_shown()
                && model.layout().sideways() && edge == model.layout().bottom_bar),
{
    let items = model.bottom_items(progress);
    let layers = model.notice_layers();
    if model.chips_shown() && !model.layout().sideways() {
        assert(items[0] is Chips);
    } else {
        assert forall|k: int| 0 <= k < items.len() implies !(items[k] is Chips) by {}
    }
    let place = Layer::Chips(model.layout().bottom_bar);
    if model.chips_shown() && model.layout().sideways() {
        assert(layers[0] == place);
        assert forall|k: int| 1 <= k < layers.len() implies !(layers[k] is Chips) by {}
    } else {
        assert forall|k: int| 0 <= k < layers.len() implies !(layers[k] is Chips) by {}
    }
}

/// With the bars hidden, nothing is left in the bottom section.
pub proof fn law_hidden_bars_leave_nothing(model: AppModel, progress: bool)
    requires
        model.ui_hidden,
    ensures
        model.bottom_items(progress).len() == 0,
{
}

/// The stop button is in the middle, and either side mirrors the other.
pub proof fn law_stop_in_the_middle(model: AppModel, k: int)
    requires
        0 <= k < 3,
    ensures
        model.slots().len() == 3,
        model.slots()[1] is Stop,
        model.layout().quarter is Ccw90 ==> model.slots()[k] == model.upright_slots()[2 - k],
{
}

/// A wider picture never has a coarser label.
pub proof fn law_labels_are_ordered(
    narrow: u32,
    wide: u32,
    thresholds: ResolutionThresholds,
)
    requires
        narrow <= wide,
        thresholds.p720 <= thresholds.hd <= thresholds.uhd_4k,
    ensures
        resolution_of(narrow, thresholds) is Uhd4k ==> resolution_of(wide, thresholds) is Uhd4k,
        resolution_of(wide, thresholds) is Sd ==> resolution_of(narrow, thresholds) is Sd,
        resolution_of(narrow, thresholds) is Hd ==> !(resolution_of(wide, thresholds) is P720),
{
}

/// What stands where photos are taken, whatever else is going on: nothing where the
/// preview is all there is or is about to be; while a video is recorded, other than
/// by holding the button, or something is sent, a stop button with a photo button
/// beside it; else the capture button, with play or pause where a video is shown.
pub proof fn law_what_takes_the_photo(model: AppModel, area: CaptureArea)
    requires
        model.capture_is(area),
    ensures
        ({
            let gone = model.mode is View || (model.fit_animation matches Some(animation)
                && animation.is_view_boundary);
            let running = model.streaming || (model.recording && !model.quick_recording);
            &&& gone <==> area is Empty
            &&& !gone && running <==> area is Running
            &&& !gone && !running && model.video_controls <==> area is PlayAndCapture
            &&& !gone && !running && !model.video_controls <==> area is Capture
            &&& area matches CaptureArea::Running { slots, column } ==> {
                &&& slots@.len() == 3
                &&& slots@.contains(CaptureSlot::Stop)
                &&& slots@.contains(CaptureSlot::Photo)
                &&& slots@.contains(CaptureSlot::PlayPause) <==> model.video_controls
            }
        }),
{
    if let CaptureArea::Running { slots, column } = area {
        assert(slots@[1] is Stop);
        assert(slots@[0] is Photo || slots@[2] is Photo);
        assert(model.video_controls ==> slots@[0] is PlayPause || slots@[2] is PlayPause);
    }
}

/// The three places in order: play or pause first, the stop button in the middle and
/// the photo button last, and the other way round where the controls stand at the
/// right. They stand one below the other at either side.
pub proof fn law_order_of_the_places(model: AppModel, area: CaptureArea)
    requires
        model.capture_is(area),
    ensures
        area matches CaptureArea::Running { slots, column } ==> {
            let turned = model.controls_position is Right || (model.controls_position is Bottom && (
            model.display_orientation is Rotate270 || model.display_orientation is Flipped270));
            let at_left = model.controls_position is Left || (model.controls_position is Bottom && (
            model.display_orientation is Rotate90 || model.display_orientation is Flipped90));
            let first = if turned {
                slots@[2]
            } else {
                slots@[0]
            };
            let last = if turned {
                slots@[0]
            } else {
                slots@[2]
            };
            &&& slots@[1] is Stop
            &&& last is Photo
            &&& first is PlayPause <==> model.video_controls
            &&& first is Nothing <==> !model.video_controls
            &&& column <==> turned || at_left
        },
{
}

/// The capture area is as high as its lane, but for the stack of a recording at a
/// side.
pub proof fn law_when_the_capture_area_grows(model: AppModel)
    ensures
        ({
            let turned = model.display_orientation is Rotate90 || model.display_orientation
                is Flipped90 || model.display_orientation is Rotate270 || model.display_orientation
                is Flipped270;
            let at_a_side = !(model.controls_position is Bottom) || turned;
            let running = model.streaming || (model.recording && !model.quick_recording);
            model.layout().sideways() && model.runs() <==> at_a_side && running
        }),
{
}

proof fn lemma_layer_if(condition: bool, one: Layer, layer: Layer)
    ensures
        layers_if(condition, seq![one]).contains(layer) <==> condition && layer == one,
{
    if condition {
        assert(layers_if(condition, seq![one])[0] == one);
    }
}

#[verifier::spinoff_prover]
proof fn lemma_base_contains(model: AppModel, layer: Layer)
    ensures
        model.base_layers().contains(layer) <==> {
            ||| layer is Preview
            ||| layer is FrostedBars
            ||| layer is CropOverlay
            ||| layer is CompositionOverlay
            ||| layer is QrOverlay && model.shows_qr()
            ||| layer is PrivacyWarning && model.privacy_cover_closed
            ||| layer == Layer::TopBar(model.layout().top_bar)
            ||| layer == Layer::BottomBar(model.layout().bottom_bar)
        },
{
    let picture = seq![
        Layer::Preview,
        Layer::FrostedBars,
        Layer::CropOverlay,
        Layer::CompositionOverlay,
    ];
    let qr = layers_if(model.shows_qr(), seq![Layer::QrOverlay]);
    let cover = layers_if(model.privacy_cover_closed, seq![Layer::PrivacyWarning]);
    let bars = seq![
        Layer::TopBar(model.layout().top_bar),
        Layer::BottomBar(model.layout().bottom_bar),
    ];
    lemma_joined_contain(picture, qr, layer);
    lemma_joined_contain(picture + qr, cover, layer);
    lemma_joined_contain(picture + qr + cover, bars, layer);
    lemma_layer_if(model.shows_qr(), Layer::QrOverlay, layer);
    lemma_layer_if(model.privacy_cover_closed, Layer::PrivacyWarning, layer);
    assert(picture[0] is Preview && picture[1] is FrostedBars && picture[2] is CropOverlay
        && picture[3] is CompositionOverlay);
    assert(bars[0] == Layer::TopBar(model.layout().top_bar));
    assert(bars[1] == Layer::BottomBar(model.layout().bottom_bar));
}

#[verifier::spinoff_prover]
proof fn lemma_notices_contain(model: AppModel, layer: Layer)
    ensures
        model.notice_layers().contains(layer) <==> {
            ||| layer == Layer::Chips(model.layout().bottom_bar) && model.chips_shown()
                && model.layout().sideways()
            ||| layer is FlashError && model.flash_error is Some
            ||| (layer matches Layer::Timer(left) && model.photo_timer_countdown == Some(left))
        },
{
    let chips = layers_if(
        model.chips_shown() && model.layout().sideways(),
        seq![Layer::Chips(model.layout().bottom_bar)],
    );
    let error = layers_if(model.flash_error is Some, seq![Layer::FlashError]);
    let timer: Seq<Layer> = match model.photo_timer_countdown {
        Some(remaining) => seq![Layer::Timer(remaining)],
        None => seq![],
    };
    lemma_joined_contain(chips, error, layer);
    lemma_joined_contain(chips + error, timer, layer);
    lemma_layer_if(
        model.chips_shown() && model.layout().sideways(),
        Layer::Chips(model.layout().bottom_bar),
        layer,
    );
    lemma_layer_if(model.flash_error is Some, Layer::FlashError, layer);
    if model.photo_timer_countdown is Some {
        assert(timer[0] == Layer::Timer(model.photo_timer_countdown->0));
    }
}

#[verifier::spinoff_prover]
proof fn lemma_pickers_contain(model: AppModel, layer: Layer)
    ensures
        model.picker_layers().contains(layer) <==> {
            ||| layer is FormatPicker && model.format_picker_visible && !model.format_picker_hidden
            ||| layer is ExposurePicker && model.exposure_picker_visible
            ||| layer is ColorPicker && model.color_picker_visible
            ||| layer is MotorPicker && model.motor_picker_visible
            ||| layer is ToolsMenu && model.tools_menu_visible
            ||| layer == Layer::ContextDrawer(model.context_page) && model.show_context
        },
{
    let format = model.format_picker_visible && !model.format_picker_hidden;
    let a = layers_if(format, seq![Layer::FormatPicker]);
    let b = layers_if(model.exposure_picker_visible, seq![Layer::ExposurePicker]);
    let c = layers_if(model.color_picker_visible, seq![Layer::ColorPicker]);
    let d = layers_if(model.motor_picker_visible, seq![Layer::MotorPicker]);
    let e = layers_if(model.tools_menu_visible, seq![Layer::ToolsMenu]);
    let f = layers_if(model.show_context, seq![Layer::ContextDrawer(model.context_page)]);
    lemma_joined_contain(a, b, layer);
    lemma_joined_contain(a + b, c, layer);
    lemma_joined_contain(a + b + c, d, layer);
    lemma_joined_contain(a + b + c + d, e, layer);
    lemma_joined_contain(a + b + c + d + e, f, layer);
    lemma_layer_if(format, Layer::FormatPicker, layer);
    lemma_layer_if(model.exposure_picker_visible, Layer::ExposurePicker, layer);
    lemma_layer_if(model.color_picker_visible, Layer::ColorPicker, layer);
    lemma_layer_if(model.motor_picker_visible, Layer::MotorPicker, layer);
    lemma_layer_if(model.tools_menu_visible, Layer::ToolsMenu, layer);
    lemma_layer_if(model.show_context, Layer::ContextDrawer(model.context_page), layer);
}

/// What is on the screen, layer by layer, by what is going on: the preview always; a
/// screen that serves as flash, or a burst, over nothing else; the bars and overlays
/// of the picture at any other time, each notice, warning, picker and menu just where
/// there is reason for it, and each bar at the edge that it stands on.
pub proof fn law_what_is_on_the_screen(model: AppModel, layer: Layer)
    ensures
        ({
            let there = model.layers().contains(layer);
            let flashing = model.flash_active && !model.hardware_flash;
            let busy = !flashing && model.burst_active;
            let usual = !flashing && !model.burst_active;
            let codes = model.qr_detection_enabled && model.qr_detections > 0
                && model.current_frame is Some;
            match layer {
                Layer::Preview => there,
                Layer::WhiteFlash => there <==> flashing,
                Layer::BurstProgress => there <==> busy,
                Layer::FrostedBars | Layer::CropOverlay | Layer::CompositionOverlay => there
                    <==> usual,
                Layer::QrOverlay => there <==> usual && codes,
                Layer::PrivacyWarning => there <==> usual && model.privacy_cover_closed,
                Layer::TopBar(edge) => there <==> usual && edge == model.layout().top_bar,
                Layer::BottomBar(edge) => there <==> usual && edge == model.layout().bottom_bar,
                Layer::Chips(edge) => there <==> usual && (edge is Left || edge is Right) && edge
                    == model.layout().bottom_bar && (model.mode is Photo || model.mode is View)
                    && !model.tools_menu_visible && !model.ui_hidden,
                Layer::FlashError => there <==> usual && model.flash_error is Some,
                Layer::Timer(left) => there <==> usual && model.photo_timer_countdown == Some(left),
                Layer::FormatPicker => there <==> usual && model.format_picker_visible
                    && !model.format_picker_hidden,
                Layer::ExposurePicker => there <==> usual && model.exposure_picker_visible,
                Layer::ColorPicker => there <==> usual && model.color_picker_visible,
                Layer::MotorPicker => there <==> usual && model.motor_picker_visible,
                Layer::ToolsMenu => there <==> usual && model.tools_menu_visible,
                Layer::ContextDrawer(page) => there <==> usual && model.show_context && page
                    == model.context_page,
            }
        }),
{
    if model.screen_flashes() {
        assert(model.layers()[0] is Preview && model.layers()[1] is WhiteFlash);
    } else if model.burst_active {
        assert(model.layers()[0] is Preview && model.layers()[1] is BurstProgress);
    } else {
        lemma_base_contains(model, layer);
        lemma_notices_contain(model, layer);
        lemma_pickers_contain(model, layer);
        lemma_joined_contain(model.base_layers(), model.notice_layers(), layer);
        lemma_joined_contain(
            model.base_layers() + model.notice_layers(),
            model.picker_layers(),
            layer,
        );
    }
}

/// How far up a layer lies.
pub open spec fn layer_height(layer: Layer) -> int {
    match layer {
        Layer::Preview => 0,
        Layer::WhiteFlash => 1,
        Layer::BurstProgress => 1,
        Layer::FrostedBars => 1,
        Layer::CropOverlay => 2,
        Layer::CompositionOverlay => 3,
        Layer::QrOverlay => 4,
        Layer::PrivacyWarning => 5,
        Layer::TopBar(_) => 6,
        Layer::BottomBar(_) => 7,
        Layer::Chips(_) => 8,
        Layer::FlashError => 9,
        Layer::Timer(_) => 10,
        Layer::FormatPicker => 11,
        Layer::ExposurePicker => 12,
        Layer::ColorPicker => 13,
        Layer::MotorPicker => 14,
        Layer::ToolsMenu => 15,
        Layer::ContextDrawer(_) => 16,
    }
}

#[verifier::spinoff_prover]
proof fn lemma_base_ascends(model: AppModel)
    ensures
        ascends(model.base_layers(), |layer: Layer| layer_height(layer), 0, 8),
{
    let rank = |layer: Layer| layer_height(layer);
    let picture = seq![
        Layer::Preview,
        Layer::FrostedBars,
        Layer::CropOverlay,
        Layer::CompositionOverlay,
    ];
    let qr = layers_if(model.shows_qr(), seq![Layer::QrOverlay]);
    let cover = layers_if(model.privacy_cover_closed, seq![Layer::PrivacyWarning]);
    let bars = seq![
        Layer::TopBar(model.layout().top_bar),
        Layer::BottomBar(model.layout().bottom_bar),
    ];
    assert(ascends(picture, rank, 0, 4));
    assert(ascends(bars, rank, 6, 8));
    lemma_joined_ascend(picture, qr, rank, 0, 4, 5);
    lemma_joined_ascend(picture + qr, cover, rank, 0, 5, 6);
    lemma_joined_ascend(picture + qr + cover, bars, rank, 0, 6, 8);
}

#[verifier::spinoff_prover]
proof fn lemma_notices_ascend(model: AppModel)
    ensures
        ascends(model.notice_layers(), |layer: Layer| layer_height(layer), 8, 11),
{
    let rank = |layer: Layer| layer_height(layer);
    let chips = layers_if(
        model.chips_shown() && model.layout().sideways(),
        seq![Layer::Chips(model.layout().bottom_bar)],
    );
    let error = layers_if(model.flash_error is Some, seq![Layer::FlashError]);
    let timer: Seq<Layer> = match model.photo_timer_countdown {
        Some(remaining) => seq![Layer::Timer(remaining)],
        None => seq![],
    };
    lemma_joined_ascend(chips, error, rank, 8, 9, 10);
    lemma_joined_ascend(chips + error, timer, rank, 8, 10, 11);
}

#[verifier::spinoff_prover]
proof fn lemma_pickers_ascend(model: AppModel)
    ensures
        ascends(model.picker_layers(), |layer: Layer| layer_height(layer), 11, 17),
{
    let rank = |layer: Layer| layer_height(layer);
    let a = layers_if(
        model.format_picker_visible && !model.format_picker_hidden,
        seq![Layer::FormatPicker],
    );
    let b = layers_if(model.exposure_picker_visible, seq![Layer::ExposurePicker]);
    let c = layers_if(model.color_picker_visible, seq![Layer::ColorPicker]);
    let d = layers_if(model.motor_picker_visible, seq![Layer::MotorPicker]);
    let e = layers_if(model.tools_menu_visible, seq![Layer::ToolsMenu]);
    let f = layers_if(model.show_context, seq![Layer::ContextDrawer(model.context_page)]);
    lemma_joined_ascend(a, b, rank, 11, 12, 13);
    lemma_joined_ascend(a + b, c, rank, 11, 13, 14);
    lemma_joined_ascend(a + b + c, d, rank, 11, 14, 15);
    lemma_joined_ascend(a + b + c + d, e, rank, 11, 15, 16);
    lemma_joined_ascend(a + b + c + d + e, f, rank, 11, 16, 17);
}

/// Layers never change places: whatever is shown, of two layers the one that lies
/// further up comes later, and none is there twice. The picture lies under the bars,
/// the bars under the notices, the notices under the pickers, the drawer over all.
pub proof fn law_layers_keep_their_order(model: AppModel, lower: int, upper: int)
    requires
        0 <= lower < upper < model.layers().len(),
    ensures
        layer_height(model.layers()[lower]) < layer_height(model.layers()[upper]),
{
    if !model.screen_flashes() && !model.burst_active {
        let rank = |layer: Layer| layer_height(layer);
        lemma_base_ascends(model);
        lemma_notices_ascend(model);
        lemma_pickers_ascend(model);
        lemma_joined_ascend(model.base_layers(), model.notice_layers(), rank, 0, 8, 11);
        lemma_joined_ascend(
            model.base_layers() + model.notice_layers(),
            model.picker_layers(),
            rank,
            0,
            11,
            17,
        );
        assert(rank(model.layers()[lower]) < rank(model.layers()[upper]));
    }
}

/// The bottom section from the top down: the chips, the progress of a video, then
/// the capture button over the modes, or both side by side where the controls stand
/// at a side, the capture button toward the picture.
#[verifier::spinoff_prover]
pub proof fn law_the_bottom_section(model: AppModel, progress: bool)
    ensures
        ({
            let items = model.bottom_items(progress);
            let at_left = model.layout().bottom_bar is Left;
            let at_right = model.layout().bottom_bar is Right;
            let upright = !at_left && !at_right;
            let chips: int = if upright && (model.mode is Photo || model.mode is View)
                && !model.tools_menu_visible && !model.ui_hidden {
                1
            } else {
                0
            };
            let bar: int = if progress {
                1
            } else {
                0
            };
            &&& model.ui_hidden ==> items.len() == 0
            &&& !model.ui_hidden ==> {
                &&& items.len() == chips + bar + (if upright {
                    2int
                } else {
                    1
                })
                &&& chips == 1 ==> items[0] is Chips
                &&& progress ==> items[chips] is Progress
                &&& upright ==> items[chips + bar] is CaptureArea && items[chips + bar + 1]
                    is BottomBar
                &&& at_right ==> items[chips + bar] == (BottomItem::Lanes { capture_first: true })
                &&& at_left ==> items[chips + bar] == (BottomItem::Lanes { capture_first: false })
            }
        }),
{
}

/// The chips float clear of the strip at the side that it stands on, and only there;
/// they are always halfway up.
pub proof fn law_chips_clear_the_strip(edge: Edge, inset: u32)
    ensures
        ({
            let place = chip_place(edge, inset);
            &&& place.vertical is Center
            &&& edge is Right ==> place.horizontal is End && place.padding.right == inset
            &&& edge is Left ==> place.horizontal is Start && place.padding.left == inset
            &&& !(edge is Right) ==> place.padding.right == 0
            &&& !(edge is Left) ==> place.padding.left == 0
            &&& edge is Top || edge is Bottom ==> place.horizontal is Center
            &&& place.padding.top == 0 && place.padding.bottom == 0
        }),
{
}

/// A picture has the finest label whose least width it reaches, and none that it does
/// not reach.
pub proof fn law_labels_are_earned(width: u32, thresholds: ResolutionThresholds)
    requires
        thresholds.p720 <= thresholds.hd <= thresholds.uhd_4k,
    ensures
        ({
            let label = resolution_of(width, thresholds);
            &&& label is Uhd4k <==> width >= thresholds.uhd_4k
            &&& label is Uhd4k || label is Hd <==> width >= thresholds.hd
            &&& label is Sd <==> width < thresholds.p720
        }),
{
}

/// The size of a file can be read off its label: the decimals of its width and of its
/// height, with one sign between them; without a size it says so.
pub proof fn law_sizes_are_told(width: u32, height: u32)
    ensures
        file_size_text(None) == "---"@,
        width == 0 || height == 0 ==> file_size_text(Some((width, height))) == "---"@,
        width > 0 && height > 0 ==> {
            let text = file_size_text(Some((width, height)));
            let first = decimal(width as nat);
            let last = decimal(height as nat);
            &&& text.len() == first.len() + 1 + last.len()
            &&& text.take(first.len() as int) == first
            &&& text[first.len() as int] == '×'
            &&& text.skip(first.len() as int + 1) == last
        },
{
    reveal_strlit("×");
    if width > 0 && height > 0 {
        let text = file_size_text(Some((width, height)));
        let first = decimal(width as nat);
        let last = decimal(height as nat);
        assert(text.take(first.len() as int) =~= first);
        assert(text.skip(first.len() as int + 1) =~= last);
    }
}

} // verus!
