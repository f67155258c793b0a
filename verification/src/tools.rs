//! The tools menu, and whether anything in it was changed.

use vstd::prelude::*;
use crate::config::{CameraMode, PhotoAspectRatio};
use crate::model::{
    AppModel, ColorSettings, ExposureControls, ExposureSettings, PhotoTimerSetting, RangeControl,
};
use crate::order::{ascends, lemma_joined_ascend};
use crate::primitive::FilterType;

verus! {

/// A control was set to something else than its default.
pub open spec fn range_changed(control: RangeControl, value: Option<i32>) -> bool {
    control.available && (value matches Some(set) && set != control.default)
}

/// Exposure was set to something else than the camera's default.
pub open spec fn exposure_changed(controls: ExposureControls, settings: ExposureSettings) -> bool {
    ||| controls.has_exposure_auto && !settings.aperture_priority
    ||| range_changed(controls.exposure_bias, Some(settings.exposure_compensation))
    ||| range_changed(controls.backlight_compensation, settings.backlight_compensation)
}

/// Colors were set to something else than the camera's defaults.
pub open spec fn color_changed(controls: ExposureControls, settings: ColorSettings) -> bool {
    ||| range_changed(controls.contrast, settings.contrast)
    ||| range_changed(controls.saturation, settings.saturation)
    ||| range_changed(controls.sharpness, settings.sharpness)
    ||| range_changed(controls.hue, settings.hue)
    ||| controls.has_white_balance_auto && settings.white_balance_auto == Some(false)
}

/// Something in the tools menu was changed. The timer and the shape of photos
/// count only where photos are taken.
pub open spec fn tools_changed(model: AppModel) -> bool {
    ||| model.mode is Photo && !(model.photo_timer_setting is Off)
    ||| model.mode is Photo && !(model.photo_aspect_ratio is Native)
    ||| (model.exposure_settings matches Some(settings) && exposure_changed(
        model.available_exposure_controls,
        settings,
    ))
    ||| (model.color_settings matches Some(settings) && color_changed(
        model.available_exposure_controls,
        settings,
    ))
    ||| model.selected_filter != FilterType::standard()
}

fn is_range_changed(control: &RangeControl, value: Option<i32>) -> (answer: bool)
    ensures
        answer == range_changed(*control, value),
{
    control.available && match value {
        Some(set) => set != control.default,
        None => false,
    }
}

/// A picture on a tool.
#[derive(Clone, Copy, Debug, PartialEq, Eq, Structural)]
pub enum ToolIcon {
    TimerOff,
    Timer3,
    Timer5,
    Timer10,
    AspectNative,
    Aspect1x1,
    Aspect4x3,
    Aspect3x4,
    Aspect16x9,
    Aspect9x16,
    Aspect2x1,
    Aspect1x2,
    Exposure,
    Color,
    Filter,
    Motor,
}

/// What a tool does.
#[derive(Clone, Copy, Debug, PartialEq, Eq, Structural)]
pub enum Tool {
    Timer,
    Aspect,
    Exposure,
    Color,
    Filter,
    Motor,
}

/// A tool in the menu.
#[derive(Clone, Copy, Debug, PartialEq, Eq, Structural)]
pub struct ToolButton {
    pub tool: Tool,
    pub icon: ToolIcon,
    pub active: bool,
}

/// The timer's picture.
pub open spec fn timer_icon(setting: PhotoTimerSetting) -> ToolIcon {
    match setting {
        PhotoTimerSetting::Off => ToolIcon::TimerOff,
        PhotoTimerSetting::Sec3 => ToolIcon::Timer3,
        PhotoTimerSetting::Sec5 => ToolIcon::Timer5,
        PhotoTimerSetting::Sec10 => ToolIcon::Timer10,
    }
}

/// The picture of a shape: as the window is turned, unless it is a square or the
/// sensor's own.
pub open spec fn aspect_icon(ratio: PhotoAspectRatio, portrait: bool) -> ToolIcon {
    match ratio {
        PhotoAspectRatio::Native => ToolIcon::AspectNative,
        PhotoAspectRatio::Ratio1x1 => ToolIcon::Aspect1x1,
        PhotoAspectRatio::Ratio4x3 => if portrait {
            ToolIcon::Aspect3x4
        } else {
            ToolIcon::Aspect4x3
        },
        PhotoAspectRatio::Ratio16x9 => if portrait {
            ToolIcon::Aspect9x16
        } else {
            ToolIcon::Aspect16x9
        },
        PhotoAspectRatio::Ratio2x1 => if portrait {
            ToolIcon::Aspect1x2
        } else {
            ToolIcon::Aspect2x1
        },
    }
}

/// `buttons` if the condition holds, none otherwise.
pub open spec fn tools_if(condition: bool, buttons: Seq<ToolButton>) -> Seq<ToolButton> {
    if condition {
        buttons
    } else {
        seq![]
    }
}

impl AppModel {
    /// The tools that only photos have.
    pub open spec fn photo_tools(self) -> Seq<ToolButton> {
        tools_if(
            self.mode is Photo,
            seq![
                ToolButton {
                    tool: Tool::Timer,
                    icon: timer_icon(self.photo_timer_setting),
                    active: !(self.photo_timer_setting is Off),
                },
                ToolButton {
                    tool: Tool::Aspect,
                    icon: aspect_icon(self.photo_aspect_ratio, self.portrait()),
                    active: !(self.photo_aspect_ratio is Native),
                },
            ],
        )
    }

    /// Exposure and colors, where the camera has controls for them.
    pub open spec fn camera_tools(self) -> Seq<ToolButton> {
        let controls = self.available_exposure_controls;
        tools_if(
            controls.any_essential,
            seq![
                ToolButton {
                    tool: Tool::Exposure,
                    icon: ToolIcon::Exposure,
                    active: self.exposure_settings matches Some(settings) && exposure_changed(
                        controls,
                        settings,
                    ),
                },
            ],
        ) + tools_if(
            controls.any_image_control || controls.any_white_balance,
            seq![
                ToolButton {
                    tool: Tool::Color,
                    icon: ToolIcon::Color,
                    active: self.color_settings matches Some(settings) && color_changed(
                        controls,
                        settings,
                    ),
                },
            ],
        )
    }

    /// Filters, where anything is recorded or sent, and the camera's motors.
    pub open spec fn last_tools(self) -> Seq<ToolButton> {
        tools_if(
            !(self.mode is View),
            seq![
                ToolButton {
                    tool: Tool::Filter,
                    icon: ToolIcon::Filter,
                    active: self.selected_filter != FilterType::standard(),
                },
            ],
        ) + tools_if(
            self.has_motor_controls,
            seq![
                ToolButton {
                    tool: Tool::Motor,
                    icon: ToolIcon::Motor,
                    active: self.motor_picker_visible,
                },
            ],
        )
    }

    /// The tools in the menu, in order.
    pub open spec fn tool_buttons(self) -> Seq<ToolButton> {
        self.photo_tools() + self.camera_tools() + self.last_tools()
    }

    /// Whether the shape of photos was changed.
    pub fn is_aspect_ratio_changed(&self) -> (answer: bool)
        ensures
            answer == !(self.photo_aspect_ratio is Native),
    {
        !matches!(self.photo_aspect_ratio, PhotoAspectRatio::Native)
    }

    /// Whether the exposure was changed.
    pub fn is_exposure_changed(&self) -> (answer: bool)
        ensures
            answer == (self.exposure_settings matches Some(settings) && exposure_changed(
                self.available_exposure_controls,
                settings,
            )),
    {
        let controls = &self.available_exposure_controls;
        match self.exposure_settings {
            Some(settings) => (controls.has_exposure_auto && !settings.aperture_priority)
                || is_range_changed(&controls.exposure_bias, Some(settings.exposure_compensation))
                || is_range_changed(
                &controls.backlight_compensation,
                settings.backlight_compensation,
            ),
            None => false,
        }
    }

    /// Whether the colors were changed.
    pub fn is_color_changed(&self) -> (answer: bool)
        ensures
            answer == (self.color_settings matches Some(settings) && color_changed(
                self.available_exposure_controls,
                settings,
            )),
    {
        let controls = &self.available_exposure_controls;
        match self.color_settings {
            Some(settings) => is_range_changed(&controls.contrast, settings.contrast)
                || is_range_changed(&controls.saturation, settings.saturation) || is_range_changed(
                &controls.sharpness,
                settings.sharpness,
            ) || is_range_changed(&controls.hue, settings.hue) || (controls.has_white_balance_auto
                && match settings.white_balance_auto {
                Some(automatic) => !automatic,
                None => false,
            }),
            None => false,
        }
    }

    /// Whether something in the tools menu was changed.
    pub fn has_non_default_tool_settings(&self) -> (answer: bool)
        ensures
            answer == tools_changed(*self),
    {
        let in_photo = matches!(self.mode, CameraMode::Photo);
        let timer_active = in_photo && !matches!(self.photo_timer_setting, PhotoTimerSetting::Off);
        let aspect_active = in_photo && self.is_aspect_ratio_changed();
        timer_active || aspect_active || self.is_exposure_changed() || self.is_color_changed()
            || self.selected_filter != FilterType::standard()
    }

    fn timer_button(&self) -> (button: ToolButton)
        ensures
            button == (ToolButton {
                tool: Tool::Timer,
                icon: timer_icon(self.photo_timer_setting),
                active: !(self.photo_timer_setting is Off),
            }),
    {
        let icon = match self.photo_timer_setting {
            PhotoTimerSetting::Off => ToolIcon::TimerOff,
            PhotoTimerSetting::Sec3 => ToolIcon::Timer3,
            PhotoTimerSetting::Sec5 => ToolIcon::Timer5,
            PhotoTimerSetting::Sec10 => ToolIcon::Timer10,
        };
        let active = !matches!(self.photo_timer_setting, PhotoTimerSetting::Off);
        ToolButton { tool: Tool::Timer, icon, active }
    }

    fn aspect_button(&self) -> (button: ToolButton)
        ensures
            button == (ToolButton {
                tool: Tool::Aspect,
                icon: aspect_icon(self.photo_aspect_ratio, self.portrait()),
                active: !(self.photo_aspect_ratio is Native),
            }),
    {
        let portrait = self.screen_is_portrait();
        let icon = match self.photo_aspect_ratio {
            PhotoAspectRatio::Native => ToolIcon::AspectNative,
            PhotoAspectRatio::Ratio1x1 => ToolIcon::Aspect1x1,
            PhotoAspectRatio::Ratio4x3 => if portrait {
                ToolIcon::Aspect3x4
            } else {
                ToolIcon::Aspect4x3
            },
            PhotoAspectRatio::Ratio16x9 => if portrait {
                ToolIcon::Aspect9x16
            } else {
                ToolIcon::Aspect16x9
            },
            PhotoAspectRatio::Ratio2x1 => if portrait {
                ToolIcon::Aspect1x2
            } else {
                ToolIcon::Aspect2x1
            },
        };
        ToolButton { tool: Tool::Aspect, icon, active: self.is_aspect_ratio_changed() }
    }

    /// The tools in the menu, in order.
    #[verifier::spinoff_prover]
    pub fn tools(&self) -> (buttons: Vec<ToolButton>)
        ensures
            buttons@ == self.tool_buttons(),
    {
        let mut buttons: Vec<ToolButton> = Vec::new();
        if matches!(self.mode, CameraMode::Photo) {
            buttons.push(self.timer_button());
            buttons.push(self.aspect_button());
        }
        assert(buttons@ =~= self.photo_tools());
        let ghost photo = buttons@;
        let controls = &self.available_exposure_controls;
        if controls.any_essential {
            buttons.push(
                ToolButton {
                    tool: Tool::Exposure,
                    icon: ToolIcon::Exposure,
                    active: self.is_exposure_changed(),
                },
            );
        }
        if controls.any_image_control || controls.any_white_balance {
            buttons.push(
                ToolButton {
                    tool: Tool::Color,
                    icon: ToolIcon::Color,
                    active: self.is_color_changed(),
                },
            );
        }
        assert(buttons@ =~= photo + self.camera_tools());
        let ghost camera = buttons@;
        if !matches!(self.mode, CameraMode::View) {
            buttons.push(
                ToolButton {
                    tool: Tool::Filter,
                    icon: ToolIcon::Filter,
                    active: self.selected_filter != FilterType::standard(),
                },
            );
        }
        if self.has_motor_controls {
            buttons.push(
                ToolButton {
                    tool: Tool::Motor,
                    icon: ToolIcon::Motor,
                    active: self.motor_picker_visible,
                },
            );
        }
        assert(buttons@ =~= camera + self.last_tools());
        buttons
    }

    /// Lays out the tools menu: two rows at most.
    pub fn build_tools_menu(&self) -> (rows: Vec<Vec<ToolButton>>)
        ensures
            rows_of(rows@) == two_rows(self.tool_buttons()),
    {
        in_two_rows(&self.tools())
    }
}

/// Buttons of the first of two rows: half of them, the greater half of an odd
/// number.
pub open spec fn first_row_len(count: nat) -> nat {
    (count + 1) / 2
}

/// Buttons in two rows; in none or one where there are too few.
pub open spec fn two_rows(buttons: Seq<ToolButton>) -> Seq<Seq<ToolButton>> {
    let first = first_row_len(buttons.len()) as int;
    if buttons.len() == 0 {
        seq![]
    } else if buttons.len() == 1 {
        seq![buttons]
    } else {
        seq![buttons.take(first), buttons.skip(first)]
    }
}

/// The rows as sequences.
pub open spec fn rows_of(rows: Seq<Vec<ToolButton>>) -> Seq<Seq<ToolButton>> {
    rows.map_values(|row: Vec<ToolButton>| row@)
}

/// Distributes buttons to two rows.
pub fn in_two_rows(buttons: &Vec<ToolButton>) -> (rows: Vec<Vec<ToolButton>>)
    ensures
        rows_of(rows@) == two_rows(buttons@),
{
    let count: usize = buttons.len();
    let per_row: usize = count / 2 + count % 2;
    let mut rows: Vec<Vec<ToolButton>> = Vec::new();
    if count > 0 {
        let mut first: Vec<ToolButton> = Vec::new();
        let mut i: usize = 0;
        while i < per_row
            invariant
                i <= per_row <= buttons@.len(),
                first@ == buttons@.take(i as int),
            decreases per_row - i,
        {
            first.push(buttons[i]);
            i = i + 1;
            assert(first@ =~= buttons@.take(i as int));
        }
        let mut second: Vec<ToolButton> = Vec::new();
        while i < count
            invariant
                per_row <= i <= count,
                count == buttons@.len(),
                second@ == buttons@.subrange(per_row as int, i as int),
            decreases count - i,
        {
            second.push(buttons[i]);
            i = i + 1;
            assert(second@ =~= buttons@.subrange(per_row as int, i as int));
        }
        let ghost whole = first@;
        rows.push(first);
        if count == 1 {
            assert(whole =~= buttons@);
        }
        if count > 1 {
            assert(second@ =~= buttons@.skip(per_row as int));
            rows.push(second);
        }
    }
    assert(rows_of(rows@) =~= two_rows(buttons@));
    rows
}

/// Read row by row, the rows hold the buttons in their order; there are two at
/// most, the first is longer by one at most, and none is empty.
pub proof fn law_rows_keep_the_order(buttons: Seq<ToolButton>)
    ensures
        two_rows(buttons).len() <= 2,
        two_rows(buttons).flatten() == buttons,
        forall|k: int|
            0 <= k < two_rows(buttons).len() ==> #[trigger] two_rows(buttons)[k].len() > 0,
        two_rows(buttons).len() == 2 ==> {
            let rows = two_rows(buttons);
            rows[1].len() <= rows[0].len() <= rows[1].len() + 1
        },
{
    reveal_with_fuel(Seq::flatten, 3);
    let rows = two_rows(buttons);
    if buttons.len() == 0 {
        assert(rows.flatten() =~= buttons);
    } else if buttons.len() == 1 {
        assert(rows.drop_first() =~= Seq::<Seq<ToolButton>>::empty());
        assert(rows.flatten() =~= buttons);
    } else {
        let rest = rows.drop_first();
        assert(rest.drop_first() =~= Seq::<Seq<ToolButton>>::empty());
        assert(rest.first() == rows[1]);
        assert(rest.flatten() =~= rows[1]);
        assert(rows.flatten() =~= rows[0] + rows[1]);
        assert(rows[0] + rows[1] =~= buttons);
    }
}

/// Every tool that is active makes the tools count as changed, but for the
/// camera's motors, which keep no setting.
#[verifier::spinoff_prover]
pub proof fn law_active_tools_count_as_changed(model: AppModel, k: int)
    requires
        0 <= k < model.tool_buttons().len(),
        model.tool_buttons()[k].active,
        !(model.tool_buttons()[k].tool is Motor),
    ensures
        tools_changed(model),
{
}

/// A control counts as changed just where the camera has it and it was set to
/// something else than its default: setting it to its default, or not at all, changes
/// nothing, and neither does a control that the camera lacks.
pub proof fn law_what_counts_as_changed(control: RangeControl, value: i32)
    ensures
        !range_changed(control, None),
        !control.available ==> !range_changed(control, Some(value)),
        !range_changed(control, Some(control.default)),
        control.available && value != control.default ==> range_changed(control, Some(value)),
{
}

/// Any one setting of the exposure that is not the camera's default makes the exposure
/// count as changed, and nothing else does.
pub proof fn law_any_exposure_setting_counts(
    controls: ExposureControls,
    settings: ExposureSettings,
)
    ensures
        ({
            let by_hand = controls.has_exposure_auto && !settings.aperture_priority;
            let bias = controls.exposure_bias.available && settings.exposure_compensation
                != controls.exposure_bias.default;
            let backlight = controls.backlight_compensation.available && (
            settings.backlight_compensation matches Some(set) && set
                != controls.backlight_compensation.default);
            exposure_changed(controls, settings) <==> by_hand || bias || backlight
        }),
{
}

/// Any one color setting that is not the camera's default makes the colors count as
/// changed, and nothing else does.
pub proof fn law_any_color_setting_counts(controls: ExposureControls, settings: ColorSettings)
    ensures
        ({
            let contrast = controls.contrast.available && (settings.contrast matches Some(set)
                && set != controls.contrast.default);
            let saturation = controls.saturation.available && (settings.saturation matches Some(set)
                && set != controls.saturation.default);
            let sharpness = controls.sharpness.available && (settings.sharpness matches Some(set)
                && set != controls.sharpness.default);
            let hue = controls.hue.available && (settings.hue matches Some(set) && set
                != controls.hue.default);
            let by_hand = controls.has_white_balance_auto && settings.white_balance_auto == Some(
                false,
            );
            color_changed(controls, settings) <==> contrast || saturation || sharpness || hue
                || by_hand
        }),
{
}

/// The tools count as changed just where something that they set is: the timer or the
/// shape of photos while photos are taken, the exposure, the colors, or the filter.
pub proof fn law_when_the_tools_are_changed(model: AppModel)
    ensures
        ({
            let timer = model.mode is Photo && !(model.photo_timer_setting is Off);
            let shape = model.mode is Photo && !(model.photo_aspect_ratio is Native);
            let exposure = model.exposure_settings is Some && exposure_changed(
                model.available_exposure_controls,
                model.exposure_settings->0,
            );
            let color = model.color_settings is Some && color_changed(
                model.available_exposure_controls,
                model.color_settings->0,
            );
            let filter = model.selected_filter.gpu_code != 0 || model.selected_filter.preblur;
            tools_changed(model) <==> timer || shape || exposure || color || filter
        }),
{
}

/// Where a tool stands in the menu.
pub open spec fn tool_place(tool: Tool) -> int {
    match tool {
        Tool::Timer => 0,
        Tool::Aspect => 1,
        Tool::Exposure => 2,
        Tool::Color => 3,
        Tool::Filter => 4,
        Tool::Motor => 5,
    }
}

/// A tool is in the menu where there is use for it: the timer and the shape where
/// photos are taken, exposure and colors where the camera has controls for them,
/// filters anywhere but in a view, motors where there are any. Each is active where
/// its own setting was changed, the motors while their picker is open.
pub open spec fn tool_is_right(model: AppModel, button: ToolButton) -> bool {
    let controls = model.available_exposure_controls;
    match button.tool {
        Tool::Timer => {
            &&& model.mode is Photo
            &&& button.active <==> !(model.photo_timer_setting is Off)
            &&& button.icon is TimerOff <==> model.photo_timer_setting is Off
            &&& button.icon is Timer3 <==> model.photo_timer_setting is Sec3
            &&& button.icon is Timer5 <==> model.photo_timer_setting is Sec5
            &&& button.icon is Timer10 <==> model.photo_timer_setting is Sec10
        },
        Tool::Aspect => {
            &&& model.mode is Photo
            &&& button.icon == aspect_icon(model.photo_aspect_ratio, model.portrait())
            &&& button.active <==> !(model.photo_aspect_ratio is Native)
        },
        Tool::Exposure => {
            &&& controls.any_essential
            &&& button.icon is Exposure
            &&& button.active <==> model.exposure_settings is Some && exposure_changed(
                controls,
                model.exposure_settings->0,
            )
        },
        Tool::Color => {
            &&& controls.any_image_control || controls.any_white_balance
            &&& button.icon is Color
            &&& button.active <==> model.color_settings is Some && color_changed(
                controls,
                model.color_settings->0,
            )
        },
        Tool::Filter => {
            &&& !(model.mode is View)
            &&& button.icon is Filter
            &&& button.active <==> model.selected_filter.gpu_code != 0
                || model.selected_filter.preblur
        },
        Tool::Motor => {
            &&& model.has_motor_controls
            &&& button.icon is Motor
            &&& button.active <==> model.motor_picker_visible
        },
    }
}

#[verifier::spinoff_prover]
proof fn lemma_tools_ascend(model: AppModel)
    ensures
        ascends(model.photo_tools(), |button: ToolButton| tool_place(button.tool), 0, 2),
        ascends(model.camera_tools(), |button: ToolButton| tool_place(button.tool), 2, 4),
        ascends(model.last_tools(), |button: ToolButton| tool_place(button.tool), 4, 6),
{
}

/// The tools stand in one order, whichever of them are there, and none twice.
pub proof fn law_tools_keep_their_order(model: AppModel, first: int, second: int)
    requires
        0 <= first < second < model.tool_buttons().len(),
    ensures
        tool_place(model.tool_buttons()[first].tool) < tool_place(
            model.tool_buttons()[second].tool,
        ),
{
    let rank = |button: ToolButton| tool_place(button.tool);
    lemma_tools_ascend(model);
    lemma_joined_ascend(model.photo_tools(), model.camera_tools(), rank, 0, 2, 4);
    lemma_joined_ascend(
        model.photo_tools() + model.camera_tools(),
        model.last_tools(),
        rank,
        0,
        4,
        6,
    );
    assert(rank(model.tool_buttons()[first]) < rank(model.tool_buttons()[second]));
}

/// Every tool in the menu is one that there is use for, and shows how it is set.
#[verifier::spinoff_prover]
pub proof fn law_tools_show_their_setting(model: AppModel, k: int)
    requires
        0 <= k < model.tool_buttons().len(),
    ensures
        tool_is_right(model, model.tool_buttons()[k]),
{
}

/// Every tool that there is use for is in the menu.
#[verifier::spinoff_prover]
pub proof fn law_no_tool_is_missing(model: AppModel)
    ensures
        ({
            let controls = model.available_exposure_controls;
            let colors = controls.any_image_control || controls.any_white_balance;
            let photo: int = if model.mode is Photo {
                2
            } else {
                0
            };
            let exposure: int = if controls.any_essential {
                1
            } else {
                0
            };
            let color: int = if colors {
                1
            } else {
                0
            };
            let filter: int = if model.mode is View {
                0
            } else {
                1
            };
            let motor: int = if model.has_motor_controls {
                1
            } else {
                0
            };
            model.tool_buttons().len() == photo + exposure + color + filter + motor
        }),
{
}

/// The picture of a shape shows it as the window is turned: upright in an upright
/// window, and the same either way for a square and for the sensor's own shape.
pub proof fn law_shapes_are_shown_as_turned(ratio: PhotoAspectRatio, portrait: bool)
    ensures
        ({
            let icon = aspect_icon(ratio, portrait);
            &&& icon is AspectNative <==> ratio is Native
            &&& icon is Aspect1x1 <==> ratio is Ratio1x1
            &&& icon is Aspect4x3 <==> ratio is Ratio4x3 && !portrait
            &&& icon is Aspect3x4 <==> ratio is Ratio4x3 && portrait
            &&& icon is Aspect16x9 <==> ratio is Ratio16x9 && !portrait
            &&& icon is Aspect9x16 <==> ratio is Ratio16x9 && portrait
            &&& icon is Aspect2x1 <==> ratio is Ratio2x1 && !portrait
            &&& icon is Aspect1x2 <==> ratio is Ratio2x1 && portrait
        }),
{
}

} // verus!
