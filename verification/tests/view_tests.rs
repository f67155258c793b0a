//! What stands on the screen.

use camera::bar_layout::{
    bar_cross_lengths, bar_layout, capture_area_height_is_fixed, controls_bar_layout,
    map_bar_insets, pin_to_edge, sideways_column_reverses, Align, BarLength, Edge, Quarter,
};
use camera::bits::F32;
use camera::config::{CameraMode, ControlsPosition, PhotoAspectRatio};
use camera::display_orientation::DisplayOrientation;
use camera::insets::BarInsets;
use camera::model::{
    context_drawer_top_inset, context_drawer_width, picker_panel_height, ActiveFormat, AppModel,
    BarMetrics, BurstModeStage, ColorSettings, ContextPage, DrawerWidth, ExposureSettings,
    FitAnimation, FitFrom, PhotoTimerSetting, RangeControl,
};
use camera::primitive::FilterType;
use camera::screen::{
    build_file_source_resolution_label, build_timer_overlay, fit_zoom_axis, fit_zoom_layout,
    float_chips_over_preview, video_progress_placement, BottomItem, BurstNotice, CaptureArea,
    CaptureSlot, FitZoomAxis, FitZoomLayout, FormatButton, Layer, ResolutionLabel,
    ResolutionThresholds, VideoProgressPlacement,
};
use camera::tools::{Tool, ToolIcon};
use camera::top_bar::TopBarCell;

const TOP: f32 = 47.0;
const BOTTOM: f32 = 174.0;
/// A title bar of 47 pixels, a bottom bar of 66, a capture button of 76.
const METRICS: BarMetrics = BarMetrics {
    top_bar: 47 * 4,
    bottom_bar: 66 * 4,
    capture_button: 76 * 4,
    side_strip: 174 * 4,
    space_xs: 12,
    space_l: 32,
};

fn single(value: f32) -> F32 {
    F32 { bits: value.to_bits() }
}

fn value(single: F32) -> f32 {
    f32::from_bits(single.bits)
}

fn model() -> AppModel {
    AppModel::default()
}

#[test]
fn compact_side_picker_height_stays_inside_the_window() {
    assert_eq!(picker_panel_height(true, single(360.0), 12), Some(12 * 2));
    assert_eq!(picker_panel_height(false, single(360.0), 12), None);
    assert_eq!(picker_panel_height(true, single(480.0), 12), Some(24));
    assert_eq!(picker_panel_height(true, single(480.1), 12), None);
    assert_eq!(picker_panel_height(true, single(0.0), 12), None);
    assert_eq!(picker_panel_height(true, single(f32::NAN), 12), None);
}

#[test]
fn sideways_video_progress_is_kept_with_the_side_controls() {
    assert_eq!(video_progress_placement(true), VideoProgressPlacement::AboveSideLanes);
    assert_eq!(video_progress_placement(false), VideoProgressPlacement::AboveCapture);
}

#[test]
fn sideways_modal_padding_reserves_side_bars_not_portrait_bars() {
    let mut left = model();
    left.controls_position = ControlsPosition::Left;
    left.screen_width = single(733.0);
    left.screen_height = single(360.0);
    let top = left.settled_top_ui_height(&METRICS);
    let bottom = left.settled_bottom_ui_height(&METRICS);
    let chips = 4 * left.zoom_chip_strip_height(&METRICS);
    let padding = left.overlay_popup_padding(top, bottom, bottom + chips, 0);
    assert_eq!(padding, left.settled_popup_padding(&METRICS));

    assert_eq!(padding.top, 0);
    assert_eq!(padding.bottom, 0);
    assert!(padding.right > 0 || padding.left > 0);
    assert_eq!(padding.right, 47 * 4);
    assert_eq!(padding.left, (166 + 44) * 4);
}

#[test]
fn popups_move_with_the_bars() {
    let mut m = model();
    let padding = m.overlay_popup_padding(20.5, 90.25, 134.25, 0.0);
    assert_eq!((padding.top, padding.bottom), (20.5, 134.25));
    m.tools_menu_visible = true;
    assert_eq!(m.overlay_popup_padding(20.5, 90.25, 134.25, 0.0).bottom, 90.25);
    m.controls_position = ControlsPosition::Right;
    let padding = m.overlay_popup_padding(20.5, 90.25, 134.25, 0.0);
    assert_eq!((padding.left, padding.right), (20.5, 90.25));
}

#[test]
fn bars_grow_where_the_picture_is_cut_to_a_shape() {
    let mut m = model();
    m.screen_width = single(400.0);
    m.screen_height = single(880.0);
    let grown = BarInsets {
        top: single(200.0),
        right: single(0.0),
        bottom: single(280.0),
        left: single(0.0),
    };
    assert_eq!(m.settled_growth(&METRICS), None);
    let base = m.settled_bar_insets(&METRICS, grown);
    assert_eq!((value(base.top), value(base.bottom)), (47.0, 166.0));
    assert_eq!((value(base.left), value(base.right)), (0.0, 0.0));

    m.photo_aspect_ratio = PhotoAspectRatio::Ratio4x3;
    let growth = m.settled_growth(&METRICS).unwrap();
    assert_eq!(growth.base, m.settled_base_insets(&METRICS));
    assert_eq!(growth.screen, (m.screen_width, m.screen_height));
    assert_eq!(growth.ratio, (3, 4));
    assert_eq!(m.settled_bar_insets(&METRICS, grown), grown);
    assert_eq!(m.bar_insets(1, 2, 0, Some(growth.base)), growth.base);

    let moving = m.inset_growth(20.5, 90.25, 0.0, Some(1.25)).unwrap();
    assert_eq!((moving.base.top, moving.base.bottom, moving.ratio), (20.5, 90.25, 1.25));
    assert_eq!((moving.base.left, moving.screen), (0.0, growth.screen));
    assert_eq!(m.inset_growth(20.5, 90.25, 0.0, None::<f32>), None);

    m.preview_fit_to_view = true;
    assert_eq!(m.settled_growth(&METRICS), None);
    assert_eq!(m.settled_bar_insets(&METRICS, grown), base);
}

#[test]
fn bar_popups_hang_off_the_top_bar() {
    let mut m = model();
    let anchor = m.anchor_bar_popup(47, 8);
    assert_eq!((anchor.edge, anchor.leading), (Edge::Top, false));
    assert_eq!((anchor.bar, anchor.gap), (47, 8));
    m.controls_position = ControlsPosition::Left;
    let anchor = m.anchor_bar_popup_leading(47, 8);
    assert_eq!((anchor.edge, anchor.leading), (Edge::Right, true));
}

#[test]
fn lengths_agree_with_floats() {
    let mut lengths = vec![0u32, 1, 2, 3, 1000, 4096, u32::MAX, u32::MAX - 1, 1 << 31];
    for digits in 22..32u32 {
        for step in 0..520u32 {
            lengths.push((1 << digits) + step);
            lengths.push((1u32 << digits) - 1 - step);
        }
    }
    for n in lengths {
        let float = n as f32;
        assert_eq!(F32::from_whole(n), single(float), "{n}");
        assert_eq!(single(float).to_texels(), float.round().max(1.0) as u32, "{n}");
    }
    let mut floats = vec![
        0.0f32,
        -0.0,
        -5.0,
        0.49,
        0.5,
        0.999,
        1.4999,
        1.5,
        2.5,
        3.5,
        719.5,
        8_388_607.5,
        1e9,
        4.3e9,
        1e30,
        f32::INFINITY,
        f32::NEG_INFINITY,
        f32::NAN,
        f32::MIN_POSITIVE,
    ];
    for bits in (0..0x7f80_0000u32).step_by(65_537) {
        floats.push(f32::from_bits(bits));
    }
    for float in floats {
        assert_eq!(single(float).to_texels(), float.round().max(1.0) as u32, "{float}");
    }
}

#[test]
fn popups_keep_clear_of_the_chips_while_those_are_shown() {
    let mut m = model();
    let padding = m.settled_popup_padding(&METRICS);
    assert_eq!((padding.top, padding.bottom), (47 * 4, (166 + 44) * 4));
    assert_eq!((padding.left, padding.right), (0, 0));
    m.tools_menu_visible = true;
    assert_eq!(m.settled_popup_padding(&METRICS), m.settled_base_insets(&METRICS));
    m.tools_menu_visible = false;
    m.controls_position = ControlsPosition::Right;
    let padding = m.settled_popup_padding(&METRICS);
    assert_eq!((padding.left, padding.right), (47 * 4, (166 + 44) * 4));
}

#[test]
fn sideways_fit_zoom_uses_the_standard_upright_row() {
    assert_eq!(fit_zoom_layout(true), FitZoomLayout::FloatUpright);
    assert_eq!(fit_zoom_layout(false), FitZoomLayout::Inline);
}

#[test]
fn sideways_fit_zoom_stacks_buttons_vertically() {
    assert_eq!(fit_zoom_axis(true), FitZoomAxis::Vertical);
    assert_eq!(fit_zoom_axis(false), FitZoomAxis::Horizontal);
}

#[test]
fn context_drawer_only_reserves_the_horizontal_title_bar() {
    let bar = METRICS.top_bar;
    assert_eq!(context_drawer_top_inset(bar_layout(DisplayOrientation::Rotate0), bar), bar);
    assert_eq!(context_drawer_top_inset(bar_layout(DisplayOrientation::Rotate180), bar), bar);
    assert_eq!(context_drawer_top_inset(bar_layout(DisplayOrientation::Rotate90), bar), 0);
    assert_eq!(context_drawer_top_inset(bar_layout(DisplayOrientation::Rotate270), bar), 0);
}

#[test]
fn context_drawer_stays_opposite_a_side_title_bar() {
    let m = model();
    assert!(m.context_drawer_aligns_right(bar_layout(DisplayOrientation::Rotate270)));
    assert!(!m.context_drawer_aligns_right(bar_layout(DisplayOrientation::Rotate90)));
}

#[test]
fn manual_left_controls_keep_context_drawers_on_the_right() {
    let mut m = model();
    m.controls_position = ControlsPosition::Left;
    assert!(m.context_drawer_aligns_right(m.controls_bar_layout()));
}

#[test]
fn view_mode_chips_collapse_the_missing_capture_lane() {
    let gap = 12 * 4;
    let photo = model();
    let mut view = model();
    view.mode = CameraMode::View;

    assert_eq!(photo.sideways_chip_inset(&METRICS, gap), u32::from(METRICS.side_strip + gap));
    assert_eq!(view.sideways_chip_inset(&METRICS, gap), u32::from(METRICS.bottom_bar + gap));
}

#[test]
fn rotate0_keeps_bars_on_top_and_bottom() {
    let layout = bar_layout(DisplayOrientation::Rotate0);
    let insets = map_bar_insets(layout, TOP, BOTTOM, 0.0);

    assert_eq!(insets.top, TOP);
    assert_eq!(insets.bottom, BOTTOM);
    assert_eq!(insets.left, 0.0);
    assert_eq!(insets.right, 0.0);
}

#[test]
fn rotate180_is_treated_as_portrait() {
    let layout = bar_layout(DisplayOrientation::Rotate180);
    let insets = map_bar_insets(layout, TOP, BOTTOM, 0.0);

    assert_eq!(insets.top, TOP);
    assert_eq!(insets.bottom, BOTTOM);
    assert_eq!(insets.left, 0.0);
    assert_eq!(insets.right, 0.0);
}

#[test]
fn rotate270_puts_the_top_bar_on_the_left() {
    let layout = bar_layout(DisplayOrientation::Rotate270);
    let insets = map_bar_insets(layout, TOP, BOTTOM, 0.0);

    assert_eq!(insets.left, TOP);
    assert_eq!(insets.right, BOTTOM);
    assert_eq!(insets.top, 0.0);
    assert_eq!(insets.bottom, 0.0);
}

#[test]
fn rotate90_mirrors_rotate270_top_bar_on_the_right() {
    let insets = map_bar_insets(bar_layout(DisplayOrientation::Rotate90), TOP, BOTTOM, 0.0);

    assert_eq!(insets.left, BOTTOM);
    assert_eq!(insets.right, TOP);
    assert_eq!(insets.top, 0.0);
    assert_eq!(insets.bottom, 0.0);

    assert_ne!(
        insets,
        map_bar_insets(bar_layout(DisplayOrientation::Rotate270), TOP, BOTTOM, 0.0)
    );
}

#[test]
fn bar_insets_reads_the_models_display_orientation() {
    let mut m = model();
    m.display_orientation = DisplayOrientation::Rotate90;
    let top = m.settled_top_ui_height(&METRICS);
    let bottom = m.settled_bottom_ui_height(&METRICS);

    let insets = m.bar_insets(top, bottom, 0, None);

    assert_eq!(insets.left, bottom);
    assert_eq!(insets.right, top);
    assert_eq!(insets.top, 0);
    assert_eq!(insets.bottom, 0);
    assert_eq!(m.settled_base_insets(&METRICS), insets);
}

#[test]
fn manual_controls_position_overrides_bar_edges() {
    let mut m = model();
    m.display_orientation = DisplayOrientation::Rotate0;
    m.controls_position = ControlsPosition::Left;

    let layout = m.controls_bar_layout();
    let top = m.settled_top_ui_height(&METRICS);
    let bottom = m.settled_bottom_ui_height(&METRICS);
    let insets = m.bar_insets(top, bottom, 0, None);

    assert_eq!(layout.bottom_bar, Edge::Left);
    assert_eq!(layout.top_bar, Edge::Right);
    assert_eq!(insets.left, bottom);
    assert_eq!(insets.right, top);
}

#[test]
fn bars_are_as_thick_as_their_parts() {
    let mut m = model();
    assert_eq!(m.settled_top_ui_height(&METRICS), 47 * 4);
    // 66 for the bar, 76 for the button, 12 above and below it.
    assert_eq!(m.settled_bottom_ui_height(&METRICS), 166 * 4);
    assert_eq!(m.settled_capture_area_height(&METRICS), 100 * 4);
    m.mode = CameraMode::Video;
    // A quarter of the space above the modes.
    assert_eq!(m.settled_bottom_ui_height(&METRICS), 69 * 4);
    for hide in [false, true] {
        m.ui_hidden = hide;
        m.mode = if hide { CameraMode::Photo } else { CameraMode::View };
        assert_eq!(m.settled_top_ui_height(&METRICS), 0);
        assert_eq!(m.settled_bottom_ui_height(&METRICS), 0);
        assert_eq!(m.settled_capture_area_height(&METRICS), 0);
    }
}

#[test]
fn resting_values_are_exact_singles() {
    let m = model();
    let rest = m.settled_fit_state(&METRICS);
    assert_eq!(value(rest.blend), 1.0);
    assert_eq!(value(rest.top_ui_height), 47.0);
    assert_eq!(value(rest.bottom_ui_height), 166.0);
    assert_eq!(value(rest.capture_area_height), 100.0);
    for quarters in [1u32, 2, 3, 5, 276, 4095, 65_537, 16_777_215] {
        assert_eq!(value(F32::from_quarters(quarters)), quarters as f32 / 4.0);
    }
}

#[test]
fn an_animation_starts_once_and_marks_the_way_to_and_from_the_bare_view() {
    let mut m = model();
    let rest = m.settled_fit_state(&METRICS);
    let moving = FitFrom { blend: single(0.25), ..rest };
    assert_eq!(m.capture_fit_state(&METRICS, moving), rest);
    assert_eq!(m.start_fit_animation(&METRICS, rest, 5), None);
    assert_eq!(m.fit_animation, None);

    m.preview_fit_to_view = true;
    assert_eq!(m.start_fit_animation(&METRICS, rest, 10), Some(16));
    let running = FitAnimation { start_ms: 10, from: rest, is_view_boundary: false };
    assert_eq!(m.fit_animation, Some(running));
    assert_eq!(m.capture_fit_state(&METRICS, moving), moving);

    m.mode = CameraMode::View;
    assert_eq!(m.start_fit_animation(&METRICS, moving, 20), None);
    let crossing = FitAnimation { start_ms: 20, from: moving, is_view_boundary: true };
    assert_eq!(m.fit_animation, Some(crossing));

    m.mode = CameraMode::Photo;
    let gone = FitFrom { capture_area_height: single(0.0), ..moving };
    m.start_fit_animation(&METRICS, gone, 30);
    assert!(m.fit_animation.unwrap().is_view_boundary);
}

#[test]
fn departing_agrees_with_a_difference_of_floats() {
    let mut probes = vec![
        0.0f32,
        -0.0,
        f32::MIN_POSITIVE,
        f32::EPSILON,
        -f32::EPSILON,
        1e-30,
        0.03125,
        8_388_608.0,
        1e30,
        f32::MAX,
        f32::INFINITY,
        f32::NEG_INFINITY,
        f32::NAN,
    ];
    let quarters = [0u32, 1, 2, 3, 4, 5, 7, 8, 15, 188, 664, 400, 65_535, 16_777_215];
    for n in quarters {
        let bits = (n as f32 / 4.0).to_bits();
        for step in 0..12u32 {
            probes.push(f32::from_bits(bits + step));
            probes.push(f32::from_bits(bits.saturating_sub(step)));
            probes.push(-f32::from_bits(bits + step));
        }
    }
    for step in 0..4u32 {
        probes.push(f32::from_bits(f32::EPSILON.to_bits() - step));
        probes.push(f32::from_bits(f32::EPSILON.to_bits() + step));
    }
    for n in quarters {
        for probe in &probes {
            let differs = (n as f32 / 4.0 - probe).abs() > f32::EPSILON;
            assert_eq!(single(*probe).departs_from(n), differs, "{n} quarters and {probe:e}");
        }
    }
}

#[test]
fn the_preview_fills_unless_asked_or_shared() {
    let mut m = model();
    assert_eq!(value(m.settled_blend()), 1.0);
    m.preview_fit_to_view = true;
    assert_eq!(value(m.settled_blend()), 0.0);
    m.mode = CameraMode::Video;
    assert_eq!(value(m.settled_blend()), 1.0);
    m.preview_fit_to_view = false;
    m.mode = CameraMode::Virtual;
    assert_eq!(value(m.settled_blend()), 0.0);
}

#[test]
fn portrait_needs_a_size() {
    let mut m = model();
    assert!(!m.screen_is_portrait());
    m.screen_width = single(400.0);
    m.screen_height = single(880.0);
    assert!(m.screen_is_portrait());
    m.screen_height = single(400.0);
    assert!(!m.screen_is_portrait());
    m.screen_height = single(f32::INFINITY);
    assert!(m.screen_is_portrait());
    m.screen_width = single(-1.0);
    assert!(!m.screen_is_portrait());
}

#[test]
fn the_crop_turns_with_the_window() {
    let mut m = model();
    m.photo_aspect_ratio = PhotoAspectRatio::Ratio16x9;
    assert_eq!(m.settled_crop_target_ratio(), Some((16, 9)));
    m.screen_width = single(400.0);
    m.screen_height = single(880.0);
    assert_eq!(m.settled_crop_target_ratio(), Some((9, 16)));
    m.preview_fit_to_view = true;
    assert_eq!(m.settled_crop_target_ratio(), None);
    assert_eq!(PhotoAspectRatio::Native.display_ratio(true), None);
    assert_eq!(PhotoAspectRatio::Ratio1x1.display_ratio(true), Some((1, 1)));
    assert_eq!(PhotoAspectRatio::Ratio4x3.display_ratio(false), Some((4, 3)));
    assert_eq!(PhotoAspectRatio::Ratio2x1.display_ratio(true), Some((1, 2)));
}

#[test]
fn focus_is_the_main_windows() {
    let mut m = model();
    m.focus_chain = vec![3, 4];
    assert!(!m.window_is_focused());
    m.main_window = Some(4);
    assert!(m.window_is_focused());
    m.main_window = Some(5);
    assert!(!m.window_is_focused());
}

#[test]
fn drawers_have_a_least_and_a_greatest_width() {
    assert_eq!(context_drawer_width(single(500.0)), DrawerWidth::Narrowest);
    assert_eq!(context_drawer_width(single(712.0)), DrawerWidth::Narrowest);
    assert_eq!(context_drawer_width(single(800.0)), DrawerWidth::Remainder);
    assert_eq!(context_drawer_width(single(848.0)), DrawerWidth::Widest);
    assert_eq!(context_drawer_width(single(2000.0)), DrawerWidth::Widest);
}

#[test]
fn bars_turn_as_the_display_does() {
    let right = controls_bar_layout(ControlsPosition::Right, DisplayOrientation::Rotate0);
    assert_eq!(right, bar_layout(DisplayOrientation::Rotate270));
    assert_eq!(right.quarter, Quarter::Ccw90);
    assert!(sideways_column_reverses(Quarter::Ccw90));
    assert!(!sideways_column_reverses(Quarter::Cw90));
    assert!(!capture_area_height_is_fixed(true, true));
    assert!(capture_area_height_is_fixed(true, false));
    assert!(capture_area_height_is_fixed(false, true));
    assert_eq!(bar_cross_lengths(true), (BarLength::Thickness, BarLength::Fill));
    assert_eq!(bar_cross_lengths(false), (BarLength::Fill, BarLength::Thickness));
    assert_eq!(pin_to_edge(Edge::Right), (Align::End, Align::Center));
    assert_eq!(pin_to_edge(Edge::Left), (Align::Start, Align::Center));
    assert_eq!(pin_to_edge(Edge::Top), (Align::Center, Align::Start));
    assert_eq!(pin_to_edge(Edge::Bottom), (Align::Center, Align::End));
}

#[test]
fn the_chip_row_is_as_high_as_its_chips_and_its_gap() {
    let mut m = model();
    assert_eq!(m.zoom_chip_strip_height(&METRICS), 44);
    m.tools_menu_visible = true;
    assert_eq!(m.zoom_chip_strip_height(&METRICS), 0);
    m.tools_menu_visible = false;
    m.mode = CameraMode::Video;
    assert_eq!(m.zoom_chip_strip_height(&METRICS), 0);
}

#[test]
fn the_top_bar_holds_what_the_mode_needs() {
    let mut m = model();
    m.flash_enabled = true;
    m.burst_offered = true;
    let upright = [
        TopBarCell::FormatButton { disabled: false },
        TopBarCell::Spring,
        TopBarCell::Flash { lit: true, disabled: false },
        TopBarCell::TightGap,
        TopBarCell::Burst { lit: false, disabled: false },
        TopBarCell::TightGap,
        TopBarCell::Tools { lit: false, disabled: false },
        TopBarCell::Settings,
        TopBarCell::TightGap,
        TopBarCell::Minimize,
        TopBarCell::Maximize,
        TopBarCell::Close,
    ];
    let bar = m.build_top_bar();
    assert_eq!(bar.cells, upright);
    assert!(!bar.column);

    for orientation in [DisplayOrientation::Rotate90, DisplayOrientation::Rotate270] {
        m.display_orientation = orientation;
        let bar = m.build_top_bar();
        assert!(bar.column);
        let turned: Vec<TopBarCell> = upright.iter().rev().copied().collect();
        assert_eq!(bar.cells, turned);
    }

    m.ui_hidden = true;
    assert!(m.build_top_bar().cells.is_empty());
}

#[test]
fn the_format_gives_way_to_the_file_and_to_recording() {
    let mut m = model();
    m.mode = CameraMode::Virtual;
    m.file_source = true;
    let cells = m.build_top_bar().cells;
    assert_eq!(cells[0], TopBarCell::FileSize);
    assert!(cells.contains(&TopBarCell::OpenFile { lit: true, disabled: false }));
    m.streaming = true;
    let cells = m.build_top_bar().cells;
    assert_eq!(cells[0], TopBarCell::StreamingIndicator);
    assert_eq!(cells[1], TopBarCell::SmallGap);
    assert!(!cells.contains(&TopBarCell::OpenFile { lit: true, disabled: false }));

    let mut m = model();
    m.mode = CameraMode::Video;
    m.recording = true;
    m.ui_disabled = true;
    let cells = m.build_top_bar().cells;
    assert_eq!(cells[0], TopBarCell::RecordingIndicator);
    assert!(!cells.iter().any(|cell| matches!(cell, TopBarCell::FormatButton { .. })));
    assert!(!m.can_pick_format());
    assert!(!cells.contains(&TopBarCell::Settings));
    assert!(cells.contains(&TopBarCell::Tools { lit: false, disabled: true }));
    m.mode = CameraMode::Timelapse;
    m.timelapse_running = true;
    let cells = m.build_top_bar().cells;
    assert_eq!(cells[2], TopBarCell::TimelapseIndicator);
    assert!(cells.contains(&TopBarCell::FormatButton { disabled: true }));
    assert!(!m.can_pick_format());
    m.ui_disabled = false;
    let offered = m.build_top_bar().cells;
    assert!(offered.contains(&TopBarCell::FormatButton { disabled: false }));
    assert!(m.can_pick_format());
    m.ui_disabled = true;
    assert!(!cells.contains(&TopBarCell::Flash { lit: false, disabled: true }));
    m.hardware_flash = true;
    assert!(m.build_top_bar().cells.contains(&TopBarCell::Flash { lit: false, disabled: true }));
}

#[test]
fn tools_stand_in_two_rows() {
    let mut m = model();
    let rows = m.build_tools_menu();
    assert_eq!(rows.len(), 2);
    let names = |row: &Vec<camera::tools::ToolButton>| -> Vec<Tool> {
        row.iter().map(|b| b.tool).collect()
    };
    assert_eq!(names(&rows[0]), [Tool::Timer, Tool::Aspect]);
    assert_eq!(names(&rows[1]), [Tool::Filter]);

    m.available_exposure_controls.any_essential = true;
    m.available_exposure_controls.any_white_balance = true;
    m.has_motor_controls = true;
    let rows = m.build_tools_menu();
    assert_eq!(names(&rows[0]), [Tool::Timer, Tool::Aspect, Tool::Exposure]);
    assert_eq!(names(&rows[1]), [Tool::Color, Tool::Filter, Tool::Motor]);

    let mut view = model();
    view.mode = CameraMode::View;
    assert!(view.build_tools_menu().is_empty());
    view.has_motor_controls = true;
    assert_eq!(view.build_tools_menu().len(), 1);
}

#[test]
fn tools_wear_the_picture_of_their_setting() {
    let mut m = model();
    m.photo_timer_setting = PhotoTimerSetting::Sec5;
    m.photo_aspect_ratio = PhotoAspectRatio::Ratio4x3;
    let buttons = m.tools();
    assert_eq!((buttons[0].icon, buttons[0].active), (ToolIcon::Timer5, true));
    assert_eq!((buttons[1].icon, buttons[1].active), (ToolIcon::Aspect4x3, true));
    m.screen_width = single(400.0);
    m.screen_height = single(880.0);
    assert_eq!(m.tools()[1].icon, ToolIcon::Aspect3x4);
    m.photo_aspect_ratio = PhotoAspectRatio::Ratio1x1;
    assert_eq!(m.tools()[1].icon, ToolIcon::Aspect1x1);
}

#[test]
fn changes_light_the_tools_only_where_they_count() {
    let mut m = model();
    assert!(!m.has_non_default_tool_settings());
    m.photo_timer_setting = PhotoTimerSetting::Sec3;
    assert!(m.has_non_default_tool_settings());
    m.mode = CameraMode::Video;
    assert!(!m.has_non_default_tool_settings());
    m.selected_filter = FilterType { gpu_code: 3, preblur: false };
    assert!(m.has_non_default_tool_settings());
    m.selected_filter = FilterType::standard();

    let set = ExposureSettings {
        aperture_priority: false,
        exposure_compensation: 2,
        backlight_compensation: Some(1),
    };
    m.exposure_settings = Some(set);
    assert!(!m.is_exposure_changed(), "the camera has none of these controls");
    m.available_exposure_controls.has_exposure_auto = true;
    assert!(m.is_exposure_changed());
    m.exposure_settings = Some(ExposureSettings { aperture_priority: true, ..set });
    assert!(!m.is_exposure_changed());
    m.available_exposure_controls.exposure_bias = RangeControl { available: true, default: 2 };
    assert!(!m.is_exposure_changed());
    m.available_exposure_controls.exposure_bias = RangeControl { available: true, default: 0 };
    assert!(m.is_exposure_changed());

    let colors = ColorSettings {
        contrast: None,
        saturation: None,
        sharpness: None,
        hue: None,
        white_balance_auto: Some(false),
    };
    m.color_settings = Some(colors);
    assert!(!m.is_color_changed());
    m.available_exposure_controls.has_white_balance_auto = true;
    assert!(m.is_color_changed());
    m.color_settings = Some(ColorSettings { white_balance_auto: Some(true), ..colors });
    assert!(!m.is_color_changed());
    m.available_exposure_controls.hue = RangeControl { available: true, default: 0 };
    m.color_settings = Some(ColorSettings { hue: Some(9), white_balance_auto: None, ..colors });
    assert!(m.is_color_changed());
}

#[test]
fn layers_stand_in_order() {
    let mut m = model();
    assert_eq!(
        m.view(false).layers,
        [
            Layer::Preview,
            Layer::FrostedBars,
            Layer::CropOverlay,
            Layer::CompositionOverlay,
            Layer::TopBar(Edge::Top),
            Layer::BottomBar(Edge::Bottom),
        ]
    );
    m.controls_position = ControlsPosition::Right;
    m.qr_detection_enabled = true;
    m.qr_detections = 1;
    m.current_frame = Some((640, 480));
    m.privacy_cover_closed = true;
    m.flash_error = Some("no permission".to_string());
    m.photo_timer_countdown = Some(3);
    m.exposure_picker_visible = true;
    m.color_picker_visible = true;
    m.motor_picker_visible = true;
    m.show_context = true;
    m.context_page = ContextPage::Filters;
    assert_eq!(
        m.view(false).layers,
        [
            Layer::Preview,
            Layer::FrostedBars,
            Layer::CropOverlay,
            Layer::CompositionOverlay,
            Layer::QrOverlay,
            Layer::PrivacyWarning,
            Layer::TopBar(Edge::Left),
            Layer::BottomBar(Edge::Right),
            Layer::Chips(Edge::Right),
            Layer::FlashError,
            Layer::Timer(3),
            Layer::ExposurePicker,
            Layer::ColorPicker,
            Layer::MotorPicker,
            Layer::ContextDrawer(ContextPage::Filters),
        ]
    );
    m.format_picker_visible = true;
    assert!(m.view(false).layers.contains(&Layer::FormatPicker));
    m.format_picker_hidden = true;
    assert!(!m.view(false).layers.contains(&Layer::FormatPicker));
    m.tools_menu_visible = true;
    assert!(!m.view(false).layers.contains(&Layer::Chips(Edge::Right)));

    m.burst_active = true;
    assert_eq!(m.view(false).layers, [Layer::Preview, Layer::BurstProgress]);
    m.flash_active = true;
    assert_eq!(m.view(false).layers, [Layer::Preview, Layer::WhiteFlash]);
    m.hardware_flash = true;
    assert_eq!(m.view(false).layers, [Layer::Preview, Layer::BurstProgress]);
}

#[test]
fn the_bottom_section_follows_the_bars() {
    let mut m = model();
    assert_eq!(
        m.bottom_section(true),
        [BottomItem::Chips, BottomItem::Progress, BottomItem::CaptureArea, BottomItem::BottomBar]
    );
    m.controls_position = ControlsPosition::Right;
    assert_eq!(
        m.bottom_section(true),
        [BottomItem::Progress, BottomItem::Lanes { capture_first: true }]
    );
    m.controls_position = ControlsPosition::Left;
    assert_eq!(m.bottom_section(false), [BottomItem::Lanes { capture_first: false }]);
    m.ui_hidden = true;
    assert!(m.bottom_section(true).is_empty());
}

#[test]
fn the_capture_area_follows_what_runs() {
    let slots_of = |m: &AppModel| match m.capture_area() {
        CaptureArea::Running { slots, column } => (slots, column),
        other => panic!("{other:?}"),
    };
    let mut m = model();
    assert!(matches!(m.capture_area(), CaptureArea::Capture));
    m.video_controls = true;
    assert!(matches!(m.capture_area(), CaptureArea::PlayAndCapture));
    m.streaming = true;
    let upright = [CaptureSlot::PlayPause, CaptureSlot::Stop, CaptureSlot::Photo];
    assert_eq!(slots_of(&m), (upright.to_vec(), false));
    m.controls_position = ControlsPosition::Left;
    assert_eq!(slots_of(&m), (upright.to_vec(), true));
    assert!(!m.view(false).capture_height_fixed);
    m.controls_position = ControlsPosition::Right;
    m.video_controls = false;
    assert_eq!(
        slots_of(&m),
        (vec![CaptureSlot::Photo, CaptureSlot::Stop, CaptureSlot::Nothing], true)
    );
    m.streaming = false;
    m.recording = true;
    m.quick_recording = true;
    assert!(matches!(m.capture_area(), CaptureArea::Capture));
    m.mode = CameraMode::View;
    assert!(matches!(m.capture_area(), CaptureArea::Empty));
}

#[test]
fn notices_say_what_is_going_on() {
    let mut m = model();
    m.burst_captured = 3;
    m.burst_target = 8;
    assert_eq!(m.build_burst_mode_overlay(), BurstNotice::Silent);
    m.burst_stage = BurstModeStage::Capturing;
    assert_eq!(
        m.build_burst_mode_overlay(),
        BurstNotice::HoldSteady { captured: 3, total: 8 }
    );
    m.burst_stage = BurstModeStage::Processing;
    assert_eq!(m.build_burst_mode_overlay(), BurstNotice::Processing);
    assert_eq!(m.build_flash_error_popup(), "Flash permission error");
    m.flash_error = Some("denied".to_string());
    assert_eq!(m.build_flash_error_popup(), "denied");

    assert_eq!(build_timer_overlay(None), 900);
    assert_eq!(build_timer_overlay(Some(0)), 900);
    assert_eq!(build_timer_overlay(Some(225)), 675);
    assert_eq!(build_timer_overlay(Some(900)), 0);
    assert_eq!(build_timer_overlay(Some(5000)), 0);
}

#[test]
fn labels_tell_size_and_rate() {
    let thresholds = ResolutionThresholds { uhd_4k: 3840, hd: 1920, p720: 1280 };
    let mut m = model();
    let label = |width: u32, framerate: Option<u32>| {
        let format = Some(ActiveFormat { width, height: 0, framerate });
        let button = model().build_format_button(&format, &thresholds, "30");
        assert!(!button.disabled);
        (button.resolution, button.rate)
    };
    assert_eq!(label(3840, Some(60)), (ResolutionLabel::Uhd4k, "60".to_string()));
    assert_eq!(label(3839, Some(120)), (ResolutionLabel::Hd, "120".to_string()));
    assert_eq!(label(1280, None), (ResolutionLabel::P720, "30".to_string()));
    assert_eq!(label(640, Some(15)), (ResolutionLabel::Sd, "15".to_string()));
    let mut expected = FormatButton {
        resolution: ResolutionLabel::Hd,
        rate: "30".to_string(),
        disabled: false,
    };
    assert_eq!(m.build_format_button(&None, &thresholds, "30"), expected);
    m.ui_disabled = true;
    expected.disabled = true;
    assert_eq!(m.build_format_button(&None, &thresholds, "30"), expected);

    assert_eq!(build_file_source_resolution_label(Some((1280, 720))), "1280×720");
    assert_eq!(build_file_source_resolution_label(Some((0, 720))), "---");
    assert_eq!(build_file_source_resolution_label(None), "---");
}

#[test]
fn chips_hug_the_inner_side_of_the_strip() {
    let right = float_chips_over_preview(Edge::Right, 99);
    assert_eq!((right.horizontal, right.vertical), (Align::End, Align::Center));
    assert_eq!((right.padding.right, right.padding.left), (99, 0));
    let left = float_chips_over_preview(Edge::Left, 99);
    assert_eq!(left.horizontal, Align::Start);
    assert_eq!((left.padding.right, left.padding.left), (0, 99));
    let none = float_chips_over_preview(Edge::Bottom, 99);
    assert_eq!((none.horizontal, none.padding.bottom), (Align::Center, 0));
}

#[test]
fn chips_show_fit_and_zoom() {
    let mut m = model();
    let group = m.build_fit_zoom_group();
    assert_eq!(group.axis, FitZoomAxis::Horizontal);
    assert_eq!((group.fit_icon, group.fit_lit), ("view-restore-symbolic", false));
    assert_eq!((group.zoom_text.as_str(), group.zoom_lit), ("1x", false));
    m.preview_fit_to_view = true;
    m.zoom_level = single(1.3);
    m.controls_position = ControlsPosition::Left;
    let group = m.build_fit_zoom_group();
    assert_eq!(group.axis, FitZoomAxis::Vertical);
    assert_eq!((group.fit_icon, group.fit_lit), ("view-fullscreen-symbolic", true));
    assert_eq!((group.zoom_text.as_str(), group.zoom_lit), ("1.3x", true));
}

#[test]
fn the_drawer_shows_its_page_clear_of_the_title_bar() {
    let mut m = model();
    m.context_page = ContextPage::Insights;
    m.screen_width = single(900.0);
    let drawer = m.build_context_drawer(47);
    assert_eq!(drawer.page, ContextPage::Insights);
    assert!(drawer.at_right);
    assert_eq!(drawer.width, DrawerWidth::Widest);
    assert_eq!((drawer.padding.top, drawer.padding.right), (47, 8));
    assert_eq!((drawer.padding.bottom, drawer.padding.left), (8, 0));
    m.display_orientation = DisplayOrientation::Rotate90;
    let drawer = m.build_context_drawer(47);
    assert!(!drawer.at_right);
    assert_eq!(drawer.padding.top, 0);
}
