//! What stands in the top bar.

use vstd::prelude::*;
use crate::config::CameraMode;
use crate::model::AppModel;
use crate::order::{ascends, lemma_joined_ascend, lemma_joined_contain};
use crate::tools::tools_changed;

verus! {

/// Something that stands in the top bar.
#[derive(Clone, Copy, Debug, PartialEq, Eq, Structural)]
pub enum TopBarCell {
    RecordingIndicator,
    StreamingIndicator,
    TimelapseIndicator,
    /// The theme's small space.
    SmallGap,
    /// Five pixels.
    TightGap,
    /// All the space that is left.
    Spring,
    FormatButton { disabled: bool },
    /// Size of the file that is shown in place of the camera.
    FileSize,
    Flash { lit: bool, disabled: bool },
    Burst { lit: bool, disabled: bool },
    OpenFile { lit: bool, disabled: bool },
    Tools { lit: bool, disabled: bool },
    Settings,
    Minimize,
    Maximize,
    Close,
}

/// The top bar.
#[derive(Debug)]
pub struct TopBar {
    /// Nothing, where the bar serves only to drag the window by.
    pub cells: Vec<TopBarCell>,
    /// The cells stand one below the other.
    pub column: bool,
    /// The colors of a window with the focus.
    pub focused: bool,
}

/// `cells` if the condition holds, none otherwise.
pub open spec fn cells_if(condition: bool, cells: Seq<TopBarCell>) -> Seq<TopBarCell> {
    if condition {
        cells
    } else {
        seq![]
    }
}

impl AppModel {
    /// A file stands in for the camera.
    pub open spec fn file_shown(self) -> bool {
        self.mode is Virtual && self.file_source
    }

    /// The format button is shown: the picker is not open already, nothing is being
    /// recorded or sent that would change under way, no file is shown, and the
    /// camera leaves a choice. It answers to a press only while the controls do.
    pub open spec fn format_offered(self) -> bool {
        &&& !self.format_picker_visible
        &&& self.mode is Photo || self.mode is Timelapse || !self.recording
        &&& !self.streaming
        &&& !self.file_shown()
        &&& !self.format_picker_hidden
    }

    /// The format can be picked: its button is shown, and answers to a press.
    pub open spec fn format_pickable(self) -> bool {
        self.format_offered() && !self.ui_disabled
    }

    /// The flash can be switched: it lights photos, and what else is recorded if
    /// the camera has one of its own.
    pub open spec fn flash_offered(self) -> bool {
        self.mode is Photo || ((self.mode is Video || self.mode is Timelapse)
            && self.hardware_flash)
    }

    /// What is going on.
    pub open spec fn indicator_cells(self) -> Seq<TopBarCell> {
        cells_if(
            self.recording,
            seq![TopBarCell::RecordingIndicator, TopBarCell::SmallGap],
        ) + cells_if(self.streaming, seq![TopBarCell::StreamingIndicator, TopBarCell::SmallGap])
            + cells_if(
            self.timelapse_running,
            seq![TopBarCell::TimelapseIndicator, TopBarCell::SmallGap],
        )
    }

    /// The format, or the size of the file.
    pub open spec fn format_cells(self) -> Seq<TopBarCell> {
        if self.format_offered() {
            seq![TopBarCell::FormatButton { disabled: self.ui_disabled }]
        } else if self.file_shown() {
            seq![TopBarCell::FileSize]
        } else {
            seq![]
        }
    }

    /// The flash, and with it the burst.
    pub open spec fn flash_cells(self) -> Seq<TopBarCell> {
        cells_if(
            self.flash_offered(),
            seq![
                TopBarCell::Flash { lit: self.flash_enabled, disabled: self.ui_disabled },
                TopBarCell::TightGap,
            ] + cells_if(
                self.burst_offered,
                seq![
                    TopBarCell::Burst { lit: self.burst_expected, disabled: self.ui_disabled },
                    TopBarCell::TightGap,
                ],
            ),
        )
    }

    /// The file in place of the camera.
    pub open spec fn file_cells(self) -> Seq<TopBarCell> {
        cells_if(
            self.mode is Virtual && !self.streaming,
            seq![
                TopBarCell::OpenFile { lit: self.file_source, disabled: self.ui_disabled },
                TopBarCell::TightGap,
            ],
        )
    }

    /// The tools, the settings, and the window's own controls.
    pub open spec fn window_cells(self) -> Seq<TopBarCell> {
        seq![
            TopBarCell::Tools {
                lit: self.tools_menu_visible || tools_changed(self),
                disabled: self.ui_disabled,
            },
        ] + cells_if(!self.ui_disabled, seq![TopBarCell::Settings]) + seq![
            TopBarCell::TightGap,
            TopBarCell::Minimize,
            TopBarCell::Maximize,
            TopBarCell::Close,
        ]
    }

    /// What stands in an upright top bar, from its leading end.
    pub open spec fn upright_cells(self) -> Seq<TopBarCell> {
        self.indicator_cells() + self.format_cells() + seq![TopBarCell::Spring]
            + self.flash_cells() + self.file_cells() + self.window_cells()
    }

    /// What stands in the top bar. At a side it starts with the window's
    /// controls, whichever side it is.
    pub open spec fn top_bar_cells(self) -> Seq<TopBarCell> {
        if self.bare() {
            seq![]
        } else if self.layout().sideways() {
            self.upright_cells().reverse()
        } else {
            self.upright_cells()
        }
    }

    fn push_indicators(&self, cells: &mut Vec<TopBarCell>)
        ensures
            final(cells)@ == old(cells)@ + self.indicator_cells(),
    {
        if self.recording {
            cells.push(TopBarCell::RecordingIndicator);
            cells.push(TopBarCell::SmallGap);
        }
        if self.streaming {
            cells.push(TopBarCell::StreamingIndicator);
            cells.push(TopBarCell::SmallGap);
        }
        if self.timelapse_running {
            cells.push(TopBarCell::TimelapseIndicator);
            cells.push(TopBarCell::SmallGap);
        }
        assert(cells@ =~= old(cells)@ + self.indicator_cells());
    }

    fn shows_file(&self) -> (answer: bool)
        ensures
            answer == self.file_shown(),
    {
        matches!(self.mode, CameraMode::Virtual) && self.file_source
    }

    fn shows_format_button(&self) -> (answer: bool)
        ensures
            answer == self.format_offered(),
    {
        !self.format_picker_visible && (matches!(
            self.mode,
            CameraMode::Photo | CameraMode::Timelapse
        ) || !self.recording) && !self.streaming && !self.shows_file() && !self.format_picker_hidden
    }

    /// Whether the format can be picked.
    pub fn can_pick_format(&self) -> (enabled: bool)
        ensures
            enabled == (self.format_offered() && !self.ui_disabled),
    {
        self.shows_format_button() && !self.ui_disabled
    }

    fn push_format(&self, cells: &mut Vec<TopBarCell>)
        ensures
            final(cells)@ == old(cells)@ + self.format_cells(),
    {
        if self.shows_format_button() {
            cells.push(TopBarCell::FormatButton { disabled: self.ui_disabled });
        } else if self.shows_file() {
            cells.push(TopBarCell::FileSize);
        }
        assert(cells@ =~= old(cells)@ + self.format_cells());
    }

    fn push_flash(&self, cells: &mut Vec<TopBarCell>)
        ensures
            final(cells)@ == old(cells)@ + self.flash_cells(),
    {
        if matches!(self.mode, CameraMode::Photo) || (matches!(
            self.mode,
            CameraMode::Video | CameraMode::Timelapse
        ) && self.hardware_flash) {
            cells.push(
                TopBarCell::Flash { lit: self.flash_enabled, disabled: self.ui_disabled },
            );
            cells.push(TopBarCell::TightGap);
            if self.burst_offered {
                cells.push(
                    TopBarCell::Burst { lit: self.burst_expected, disabled: self.ui_disabled },
                );
                cells.push(TopBarCell::TightGap);
            }
        }
        assert(cells@ =~= old(cells)@ + self.flash_cells());
    }

    fn push_file(&self, cells: &mut Vec<TopBarCell>)
        ensures
            final(cells)@ == old(cells)@ + self.file_cells(),
    {
        if matches!(self.mode, CameraMode::Virtual) && !self.streaming {
            cells.push(
                TopBarCell::OpenFile { lit: self.file_source, disabled: self.ui_disabled },
            );
            cells.push(TopBarCell::TightGap);
        }
        assert(cells@ =~= old(cells)@ + self.file_cells());
    }

    fn push_window(&self, cells: &mut Vec<TopBarCell>)
        ensures
            final(cells)@ == old(cells)@ + self.window_cells(),
    {
        cells.push(
            TopBarCell::Tools {
                lit: self.tools_menu_visible || self.has_non_default_tool_settings(),
                disabled: self.ui_disabled,
            },
        );
        if !self.ui_disabled {
            cells.push(TopBarCell::Settings);
        }
        cells.push(TopBarCell::TightGap);
        cells.push(TopBarCell::Minimize);
        cells.push(TopBarCell::Maximize);
        cells.push(TopBarCell::Close);
        assert(cells@ =~= old(cells)@ + self.window_cells());
    }

    /// Lays out the top bar.
    pub fn build_top_bar(&self) -> (bar: TopBar)
        ensures
            bar.cells@ == self.top_bar_cells(),
            bar.column == self.layout().sideways(),
            bar.focused == (self.main_window matches Some(id) && self.focus_chain@.contains(id)),
    {
        let column = self.controls_are_sideways();
        let focused = self.window_is_focused();
        let mut cells: Vec<TopBarCell> = Vec::new();
        if self.is_bare() {
            return TopBar { cells, column, focused };
        }
        self.push_indicators(&mut cells);
        self.push_format(&mut cells);
        cells.push(TopBarCell::Spring);
        self.push_flash(&mut cells);
        self.push_file(&mut cells);
        self.push_window(&mut cells);
        assert(cells@ =~= self.upright_cells());
        if column {
            cells = reversed(&cells);
        }
        TopBar { cells, column, focused }
    }
}

/// The cells from the other end.
fn reversed(cells: &Vec<TopBarCell>) -> (turned: Vec<TopBarCell>)
    ensures
        turned@ == cells@.reverse(),
{
    let mut turned: Vec<TopBarCell> = Vec::new();
    let mut i: usize = cells.len();
    while i > 0
        invariant
            i <= cells@.len(),
            turned@.len() == cells@.len() - i,
            forall|j: int| 0 <= j < turned@.len() ==> turned@[j] == cells@[cells@.len() - 1 - j],
        decreases i,
    {
        i = i - 1;
        turned.push(cells[i]);
    }
    assert(turned@ =~= cells@.reverse());
    turned
}

/// A window with bars always has its own controls, at the end of an upright top
/// bar and at the start of one at a side.
#[verifier::spinoff_prover]
pub proof fn law_window_controls_are_reachable(model: AppModel)
    requires
        !model.bare(),
    ensures
        ({
            let cells = model.top_bar_cells();
            &&& cells.len() >= 5
            &&& if model.layout().sideways() {
                cells[0] is Close && cells[1] is Maximize && cells[2] is Minimize
            } else {
                cells[cells.len() - 1] is Close && cells[cells.len() - 2] is Maximize
                    && cells[cells.len() - 3] is Minimize
            }
        }),
{
    let cells = model.upright_cells();
    let last = model.window_cells();
    assert(cells[cells.len() - 1] == last[last.len() - 1]);
    assert(cells[cells.len() - 2] == last[last.len() - 2]);
    assert(cells[cells.len() - 3] == last[last.len() - 3]);
}

/// The bar holds the same at a side as upright, from the other end.
pub proof fn law_turning_reverses_the_bar(model: AppModel, k: int)
    requires
        !model.bare(),
        0 <= k < model.top_bar_cells().len(),
    ensures
        model.top_bar_cells().len() == model.upright_cells().len(),
        model.layout().sideways() ==> model.top_bar_cells()[k]
            == model.upright_cells()[model.upright_cells().len() - 1 - k],
{
}

/// While the controls do nothing, none of them answers to a press but the
/// window's own.
#[verifier::spinoff_prover]
pub proof fn law_disabled_controls_are_marked(model: AppModel, k: int)
    requires
        model.ui_disabled,
        0 <= k < model.upright_cells().len(),
    ensures
        !(model.upright_cells()[k] is Settings),
        !model.format_pickable(),
        model.upright_cells()[k] matches TopBarCell::FormatButton { disabled } ==> disabled,
        model.upright_cells()[k] matches TopBarCell::Flash { disabled, .. } ==> disabled,
        model.upright_cells()[k] matches TopBarCell::Burst { disabled, .. } ==> disabled,
        model.upright_cells()[k] matches TopBarCell::OpenFile { disabled, .. } ==> disabled,
        model.upright_cells()[k] matches TopBarCell::Tools { disabled, .. } ==> disabled,
{
}

/// Only the format's own part of the bar holds its button.
#[verifier::spinoff_prover]
proof fn lemma_no_format_elsewhere(model: AppModel)
    ensures
        forall|k: int|
            0 <= k < model.indicator_cells().len() ==> !(#[trigger] model.indicator_cells()[k]
                is FormatButton),
        forall|k: int|
            0 <= k < model.flash_cells().len() ==> !(#[trigger] model.flash_cells()[k]
                is FormatButton),
        forall|k: int|
            0 <= k < model.file_cells().len() ==> !(#[trigger] model.file_cells()[k]
                is FormatButton),
        forall|k: int|
            0 <= k < model.window_cells().len() ==> !(#[trigger] model.window_cells()[k]
                is FormatButton),
{
}

#[verifier::spinoff_prover]
proof fn lemma_format_place(model: AppModel, k: int)
    requires
        0 <= k < model.upright_cells().len(),
    ensures
        model.upright_cells()[k] is FormatButton <==> model.format_offered() && k
            == model.indicator_cells().len(),
{
    lemma_no_format_elsewhere(model);
    let first = model.indicator_cells();
    let format = model.format_cells();
    let flash = model.flash_cells();
    let file = model.file_cells();
    let window = model.window_cells();
    let cells = model.upright_cells();
    let spring = first.len() + format.len();
    if k < first.len() {
        assert(cells[k] == first[k]);
    } else if k < spring {
        assert(cells[k] == format[k - first.len()]);
    } else if k == spring {
        assert(cells[k] == TopBarCell::Spring);
    } else if k <= spring + flash.len() {
        assert(cells[k] == flash[k - spring - 1]);
    } else if k <= spring + flash.len() + file.len() {
        assert(cells[k] == file[k - spring - 1 - flash.len()]);
    } else {
        assert(cells[k] == window[k - spring - 1 - flash.len() - file.len()]);
    }
}

/// The bar shows the format button just where the format is offered, and the
/// format can be picked just where the button is not disabled.
#[verifier::spinoff_prover]
pub proof fn law_the_format_is_picked_by_its_button(model: AppModel, k: int)
    requires
        !model.bare(),
        0 <= k < model.top_bar_cells().len(),
    ensures
        model.top_bar_cells()[k] matches TopBarCell::FormatButton { disabled }
            ==> model.format_offered() && disabled == !model.format_pickable(),
        model.format_offered() ==> model.top_bar_cells().contains(
            TopBarCell::FormatButton { disabled: !model.format_pickable() },
        ),
{
    let cells = model.upright_cells();
    let bar = model.top_bar_cells();
    let before = model.indicator_cells().len() as int;
    let sideways = model.layout().sideways();
    let place = if sideways {
        cells.len() - 1 - k
    } else {
        k
    };
    assert(bar[k] == cells[place]);
    lemma_format_place(model, place);
    if model.format_offered() {
        assert(cells[before] == model.format_cells()[0]);
        let shown = if sideways {
            cells.len() - 1 - before
        } else {
            before
        };
        assert(bar[shown] == cells[before]);
    }
}

proof fn lemma_reversed_contain(cells: Seq<TopBarCell>, cell: TopBarCell)
    ensures
        cells.reverse().contains(cell) <==> cells.contains(cell),
{
    let turned = cells.reverse();
    if cells.contains(cell) {
        let i = choose|i: int| 0 <= i < cells.len() && cells[i] == cell;
        assert(turned[cells.len() - 1 - i] == cell);
    }
    if turned.contains(cell) {
        let i = choose|i: int| 0 <= i < turned.len() && turned[i] == cell;
        assert(cells[cells.len() - 1 - i] == cell);
    }
}

proof fn lemma_cell_pair_if(condition: bool, one: TopBarCell, gap: TopBarCell, cell: TopBarCell)
    ensures
        cells_if(condition, seq![one, gap]).contains(cell) <==> condition && (cell == one || cell
            == gap),
{
    if condition {
        assert(cells_if(condition, seq![one, gap])[0] == one);
        assert(cells_if(condition, seq![one, gap])[1] == gap);
    }
}

#[verifier::spinoff_prover]
proof fn lemma_indicators_contain(model: AppModel, cell: TopBarCell)
    requires
        !(cell is SmallGap),
    ensures
        model.indicator_cells().contains(cell) <==> {
            ||| cell is RecordingIndicator && model.recording
            ||| cell is StreamingIndicator && model.streaming
            ||| cell is TimelapseIndicator && model.timelapse_running
        },
{
    let gap = TopBarCell::SmallGap;
    let a = cells_if(model.recording, seq![TopBarCell::RecordingIndicator, gap]);
    let b = cells_if(model.streaming, seq![TopBarCell::StreamingIndicator, gap]);
    let c = cells_if(model.timelapse_running, seq![TopBarCell::TimelapseIndicator, gap]);
    lemma_joined_contain(a, b, cell);
    lemma_joined_contain(a + b, c, cell);
    lemma_cell_pair_if(model.recording, TopBarCell::RecordingIndicator, gap, cell);
    lemma_cell_pair_if(model.streaming, TopBarCell::StreamingIndicator, gap, cell);
    lemma_cell_pair_if(model.timelapse_running, TopBarCell::TimelapseIndicator, gap, cell);
}

#[verifier::spinoff_prover]
proof fn lemma_flash_contains(model: AppModel, cell: TopBarCell)
    requires
        !(cell is TightGap),
    ensures
        model.flash_cells().contains(cell) <==> model.flash_offered() && {
            ||| cell == (TopBarCell::Flash {
                lit: model.flash_enabled,
                disabled: model.ui_disabled,
            })
            ||| model.burst_offered && cell == (TopBarCell::Burst {
                lit: model.burst_expected,
                disabled: model.ui_disabled,
            })
        },
{
    let gap = TopBarCell::TightGap;
    let flash = TopBarCell::Flash { lit: model.flash_enabled, disabled: model.ui_disabled };
    let burst = TopBarCell::Burst { lit: model.burst_expected, disabled: model.ui_disabled };
    let rest = cells_if(model.burst_offered, seq![burst, gap]);
    lemma_joined_contain(seq![flash, gap], rest, cell);
    lemma_cell_pair_if(true, flash, gap, cell);
    lemma_cell_pair_if(model.burst_offered, burst, gap, cell);
}

#[verifier::spinoff_prover]
proof fn lemma_window_contains(model: AppModel, cell: TopBarCell)
    requires
        !(cell is TightGap),
    ensures
        model.window_cells().contains(cell) <==> {
            ||| cell == (TopBarCell::Tools {
                lit: model.tools_menu_visible || tools_changed(model),
                disabled: model.ui_disabled,
            })
            ||| cell is Settings && !model.ui_disabled
            ||| cell is Minimize
            ||| cell is Maximize
            ||| cell is Close
        },
{
    let tools = seq![
        TopBarCell::Tools {
            lit: model.tools_menu_visible || tools_changed(model),
            disabled: model.ui_disabled,
        },
    ];
    let settings = cells_if(!model.ui_disabled, seq![TopBarCell::Settings]);
    let window = seq![
        TopBarCell::TightGap,
        TopBarCell::Minimize,
        TopBarCell::Maximize,
        TopBarCell::Close,
    ];
    lemma_joined_contain(tools, settings, cell);
    lemma_joined_contain(tools + settings, window, cell);
    assert(tools[0] is Tools);
    if !model.ui_disabled {
        assert(settings[0] is Settings);
    }
    assert(window[1] is Minimize && window[2] is Maximize && window[3] is Close);
}

/// What stands in the top bar, by what is going on: each indicator while there is
/// something to indicate; the format while it can change, or the size of the file;
/// the flash where there is one to switch, and the burst with it; the file where
/// other programs are shown it; and always the tools and the window's own controls.
/// Each is lit by its own setting.
#[verifier::spinoff_prover]
pub proof fn law_what_is_in_the_top_bar(model: AppModel, cell: TopBarCell)
    requires
        !(cell is SmallGap),
        !(cell is TightGap),
    ensures
        ({
            let there = model.top_bar_cells().contains(cell);
            let bars = !(model.mode is View) && !model.ui_hidden;
            let file = model.mode is Virtual && model.file_source;
            let format = !model.format_picker_visible && !model.format_picker_hidden
                && !model.streaming && !file && (!model.recording || model.mode is Photo
                || model.mode is Timelapse);
            let flash = model.mode is Photo || (model.hardware_flash && (model.mode is Video
                || model.mode is Timelapse));
            match cell {
                TopBarCell::RecordingIndicator => there <==> bars && model.recording,
                TopBarCell::StreamingIndicator => there <==> bars && model.streaming,
                TopBarCell::TimelapseIndicator => there <==> bars && model.timelapse_running,
                TopBarCell::FormatButton { disabled } => there <==> bars && format && disabled
                    == model.ui_disabled,
                TopBarCell::FileSize => there <==> bars && file,
                TopBarCell::Spring => there <==> bars,
                TopBarCell::Flash { lit, disabled } => there <==> bars && flash && lit
                    == model.flash_enabled && disabled == model.ui_disabled,
                TopBarCell::Burst { lit, disabled } => there <==> bars && flash
                    && model.burst_offered && lit == model.burst_expected && disabled
                    == model.ui_disabled,
                TopBarCell::OpenFile { lit, disabled } => there <==> bars && model.mode is Virtual
                    && !model.streaming && lit == model.file_source && disabled
                    == model.ui_disabled,
                TopBarCell::Tools { lit, disabled } => there <==> bars && disabled
                    == model.ui_disabled && lit == (model.tools_menu_visible || tools_changed(
                    model,
                )),
                TopBarCell::Settings => there <==> bars && !model.ui_disabled,
                TopBarCell::Minimize | TopBarCell::Maximize | TopBarCell::Close => there <==> bars,
                TopBarCell::SmallGap | TopBarCell::TightGap => true,
            }
        }),
{
    let a = model.indicator_cells();
    let b = model.format_cells();
    let c = seq![TopBarCell::Spring];
    let d = model.flash_cells();
    let e = model.file_cells();
    let f = model.window_cells();
    let open = TopBarCell::OpenFile { lit: model.file_source, disabled: model.ui_disabled };
    lemma_indicators_contain(model, cell);
    lemma_flash_contains(model, cell);
    lemma_window_contains(model, cell);
    lemma_cell_pair_if(
        model.mode is Virtual && !model.streaming,
        open,
        TopBarCell::TightGap,
        cell,
    );
    lemma_joined_contain(a, b, cell);
    lemma_joined_contain(a + b, c, cell);
    lemma_joined_contain(a + b + c, d, cell);
    lemma_joined_contain(a + b + c + d, e, cell);
    lemma_joined_contain(a + b + c + d + e, f, cell);
    lemma_reversed_contain(model.upright_cells(), cell);
    assert(c[0] is Spring);
    if model.format_offered() {
        assert(b[0] == (TopBarCell::FormatButton { disabled: model.ui_disabled }));
    } else if model.file_shown() {
        assert(b[0] is FileSize);
    }
}

/// Where along an upright bar a cell stands; gaps stand anywhere.
pub open spec fn cell_place(cell: TopBarCell) -> int {
    match cell {
        TopBarCell::SmallGap | TopBarCell::TightGap => -1,
        TopBarCell::RecordingIndicator => 0,
        TopBarCell::StreamingIndicator => 1,
        TopBarCell::TimelapseIndicator => 2,
        TopBarCell::FormatButton { .. } => 3,
        TopBarCell::FileSize => 3,
        TopBarCell::Spring => 4,
        TopBarCell::Flash { .. } => 5,
        TopBarCell::Burst { .. } => 6,
        TopBarCell::OpenFile { .. } => 7,
        TopBarCell::Tools { .. } => 8,
        TopBarCell::Settings => 9,
        TopBarCell::Minimize => 10,
        TopBarCell::Maximize => 11,
        TopBarCell::Close => 12,
    }
}

#[verifier::spinoff_prover]
proof fn lemma_leading_cells_ascend(model: AppModel)
    ensures
        ascends(model.indicator_cells(), |cell: TopBarCell| cell_place(cell), 0, 3),
        ascends(model.format_cells(), |cell: TopBarCell| cell_place(cell), 3, 4),
        ascends(seq![TopBarCell::Spring], |cell: TopBarCell| cell_place(cell), 4, 5),
{
    let rank = |cell: TopBarCell| cell_place(cell);
    let gap = TopBarCell::SmallGap;
    let a = cells_if(model.recording, seq![TopBarCell::RecordingIndicator, gap]);
    let b = cells_if(model.streaming, seq![TopBarCell::StreamingIndicator, gap]);
    let c = cells_if(model.timelapse_running, seq![TopBarCell::TimelapseIndicator, gap]);
    lemma_joined_ascend(a, b, rank, 0, 1, 2);
    lemma_joined_ascend(a + b, c, rank, 0, 2, 3);
}

#[verifier::spinoff_prover]
proof fn lemma_trailing_cells_ascend(model: AppModel)
    ensures
        ascends(model.flash_cells(), |cell: TopBarCell| cell_place(cell), 5, 7),
        ascends(model.file_cells(), |cell: TopBarCell| cell_place(cell), 7, 8),
        ascends(model.window_cells(), |cell: TopBarCell| cell_place(cell), 8, 13),
{
    let rank = |cell: TopBarCell| cell_place(cell);
    let gap = TopBarCell::TightGap;
    let flash = seq![
        TopBarCell::Flash { lit: model.flash_enabled, disabled: model.ui_disabled },
        gap,
    ];
    let burst = cells_if(
        model.burst_offered,
        seq![TopBarCell::Burst { lit: model.burst_expected, disabled: model.ui_disabled }, gap],
    );
    assert(ascends(flash, rank, 5, 6));
    lemma_joined_ascend(flash, burst, rank, 5, 6, 7);
    let tools = seq![
        TopBarCell::Tools {
            lit: model.tools_menu_visible || tools_changed(model),
            disabled: model.ui_disabled,
        },
    ];
    let settings = cells_if(!model.ui_disabled, seq![TopBarCell::Settings]);
    let window = seq![gap, TopBarCell::Minimize, TopBarCell::Maximize, TopBarCell::Close];
    assert(ascends(tools, rank, 8, 9));
    assert(ascends(window, rank, 10, 13));
    lemma_joined_ascend(tools, settings, rank, 8, 9, 10);
    lemma_joined_ascend(tools + settings, window, rank, 8, 10, 13);
}

/// The cells keep their order, whichever of them are there: what is going on and the
/// format at the leading end, the window's controls at the other, and nothing that
/// is not a gap twice. At a side the bar runs the other way.
pub proof fn law_cells_keep_their_order(model: AppModel, first: int, second: int)
    requires
        0 <= first < second < model.top_bar_cells().len(),
        cell_place(model.top_bar_cells()[first]) >= 0,
        cell_place(model.top_bar_cells()[second]) >= 0,
    ensures
        ({
            let one = cell_place(model.top_bar_cells()[first]);
            let other = cell_place(model.top_bar_cells()[second]);
            let at_a_side = !(model.layout().bottom_bar is Bottom);
            &&& !at_a_side ==> one < other
            &&& at_a_side ==> one > other
        }),
{
    let rank = |cell: TopBarCell| cell_place(cell);
    let a = model.indicator_cells();
    let b = model.format_cells();
    let c = seq![TopBarCell::Spring];
    let d = model.flash_cells();
    let e = model.file_cells();
    let f = model.window_cells();
    lemma_leading_cells_ascend(model);
    lemma_trailing_cells_ascend(model);
    lemma_joined_ascend(a, b, rank, 0, 3, 4);
    lemma_joined_ascend(a + b, c, rank, 0, 4, 5);
    lemma_joined_ascend(a + b + c, d, rank, 0, 5, 7);
    lemma_joined_ascend(a + b + c + d, e, rank, 0, 7, 8);
    lemma_joined_ascend(a + b + c + d + e, f, rank, 0, 8, 13);
    let cells = model.upright_cells();
    let bar = model.top_bar_cells();
    if model.layout().sideways() {
        assert(bar[first] == cells[cells.len() - 1 - first]);
        assert(bar[second] == cells[cells.len() - 1 - second]);
        assert(rank(cells[cells.len() - 1 - second]) < rank(cells[cells.len() - 1 - first]));
    } else {
        assert(rank(bar[first]) < rank(bar[second]));
    }
}

/// The cell at `k` has the gap beside it that it takes.
pub open spec fn set_off(cells: Seq<TopBarCell>, k: int) -> bool {
    let cell = cells[k];
    &&& cell is RecordingIndicator || cell is StreamingIndicator || cell is TimelapseIndicator
        ==> k + 1 < cells.len() && cells[k + 1] is SmallGap
    &&& cell is Flash || cell is Burst || cell is OpenFile ==> k + 1 < cells.len() && cells[k + 1]
        is TightGap
    &&& cell is Minimize ==> k > 0 && cells[k - 1] is TightGap
}

/// Every cell has the gap beside it that it takes.
pub open spec fn all_set_off(cells: Seq<TopBarCell>) -> bool {
    forall|k: int| 0 <= k < cells.len() ==> #[trigger] set_off(cells, k)
}

proof fn lemma_joined_set_off(first: Seq<TopBarCell>, second: Seq<TopBarCell>)
    requires
        all_set_off(first),
        all_set_off(second),
    ensures
        all_set_off(first + second),
{
    let both = first + second;
    let n = first.len() as int;
    assert forall|k: int| 0 <= k < both.len() implies #[trigger] set_off(both, k) by {
        if k < n {
            assert(set_off(first, k));
            assert(both[k] == first[k]);
            if k + 1 < n {
                assert(both[k + 1] == first[k + 1]);
            }
            if k > 0 {
                assert(both[k - 1] == first[k - 1]);
            }
        } else {
            assert(set_off(second, k - n));
            assert(both[k] == second[k - n]);
            if k + 1 < both.len() {
                assert(both[k + 1] == second[k - n + 1]);
            }
            if k > n {
                assert(both[k - 1] == second[k - n - 1]);
            }
        }
    }
}

#[verifier::spinoff_prover]
proof fn lemma_parts_are_set_off(model: AppModel)
    ensures
        all_set_off(model.indicator_cells()),
        all_set_off(model.format_cells()),
        all_set_off(seq![TopBarCell::Spring]),
        all_set_off(model.flash_cells()),
        all_set_off(model.file_cells()),
        all_set_off(model.window_cells()),
{
}

/// The small space sets off each indicator, the tight one the flash, the burst, the
/// file and the window's controls.
pub proof fn law_cells_are_set_off(model: AppModel)
    ensures
        all_set_off(model.upright_cells()),
{
    let a = model.indicator_cells();
    let b = model.format_cells();
    let c = seq![TopBarCell::Spring];
    let d = model.flash_cells();
    let e = model.file_cells();
    let f = model.window_cells();
    lemma_parts_are_set_off(model);
    lemma_joined_set_off(a, b);
    lemma_joined_set_off(a + b, c);
    lemma_joined_set_off(a + b + c, d);
    lemma_joined_set_off(a + b + c + d, e);
    lemma_joined_set_off(a + b + c + d + e, f);
}

} // verus!
