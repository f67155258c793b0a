//! What the user has chosen.

use std::collections::HashMap;
use vstd::prelude::*;

verus! {

/// Where the capture controls stand.
#[derive(Clone, Copy, Debug, PartialEq, Eq, Structural)]
pub enum ControlsPosition {
    /// Follows the bottom edge of the display, whichever way up it is.
    Bottom,
    /// The left edge of the window.
    Left,
    /// The right edge of the window.
    Right,
}

impl Default for ControlsPosition {
    fn default() -> (value: Self)
        ensures
            value is Bottom,
    {
        ControlsPosition::Bottom
    }
}

impl ControlsPosition {
    /// Every one, in the order that they are offered.
    pub const ALL: [ControlsPosition; 3] = [
        ControlsPosition::Bottom,
        ControlsPosition::Left,
        ControlsPosition::Right,
    ];
}

/// File format of photos.
#[derive(Clone, Copy, Debug, PartialEq, Eq, Structural)]
pub enum PhotoOutputFormat {
    /// Lossy, small.
    Jpeg,
    /// Lossless, large.
    Png,
    /// What the sensor delivered.
    Dng,
}

impl Default for PhotoOutputFormat {
    fn default() -> (value: Self)
        ensures
            value is Jpeg,
    {
        PhotoOutputFormat::Jpeg
    }
}

impl PhotoOutputFormat {
    /// Every one, in the order that they are offered.
    pub const ALL: [PhotoOutputFormat; 3] = [
        PhotoOutputFormat::Jpeg,
        PhotoOutputFormat::Png,
        PhotoOutputFormat::Dng,
    ];

    /// File name extension.
    pub open spec fn extension_text(self) -> &'static str {
        match self {
            PhotoOutputFormat::Jpeg => "jpg",
            PhotoOutputFormat::Png => "png",
            PhotoOutputFormat::Dng => "dng",
        }
    }

    /// File name extension.
    pub fn extension(&self) -> (text: &'static str)
        ensures
            text@ == self.extension_text()@,
    {
        match self {
            PhotoOutputFormat::Jpeg => "jpg",
            PhotoOutputFormat::Png => "png",
            PhotoOutputFormat::Dng => "dng",
        }
    }

    /// Name to show.
    pub open spec fn display_name_text(self) -> &'static str {
        match self {
            PhotoOutputFormat::Jpeg => "JPEG",
            PhotoOutputFormat::Png => "PNG",
            PhotoOutputFormat::Dng => "DNG (Raw)",
        }
    }

    /// Name to show.
    pub fn display_name(&self) -> (text: &'static str)
        ensures
            text@ == self.display_name_text()@,
    {
        match self {
            PhotoOutputFormat::Jpeg => "JPEG",
            PhotoOutputFormat::Png => "PNG",
            PhotoOutputFormat::Dng => "DNG (Raw)",
        }
    }
}

/// How many frames a photo is put together from.
#[derive(Clone, Copy, Debug, PartialEq, Eq, Structural)]
pub enum BurstModeSetting {
    /// One shot.
    Off,
    /// As many frames as the light asks for.
    Auto,
    Frames4,
    Frames6,
    Frames8,
    Frames50,
}

impl Default for BurstModeSetting {
    fn default() -> (value: Self)
        ensures
            value is Off,
    {
        BurstModeSetting::Off
    }
}

impl BurstModeSetting {
    /// Every one, in the order that they are offered.
    pub const ALL: [BurstModeSetting; 6] = [
        BurstModeSetting::Off,
        BurstModeSetting::Auto,
        BurstModeSetting::Frames4,
        BurstModeSetting::Frames6,
        BurstModeSetting::Frames8,
        BurstModeSetting::Frames50,
    ];

    /// Frames that a photo always takes, where that is fixed.
    pub open spec fn fixed_frames(self) -> Option<usize> {
        match self {
            BurstModeSetting::Off => None,
            BurstModeSetting::Auto => None,
            BurstModeSetting::Frames4 => Some(4),
            BurstModeSetting::Frames6 => Some(6),
            BurstModeSetting::Frames8 => Some(8),
            BurstModeSetting::Frames50 => Some(50),
        }
    }

    /// Whether a photo takes more than one frame.
    pub fn is_enabled(&self) -> (answer: bool)
        ensures
            answer == !(self is Off),
    {
        !matches!(self, BurstModeSetting::Off)
    }

    /// Frames that a photo always takes, where that is fixed.
    pub fn frame_count(&self) -> (count: Option<usize>)
        ensures
            count == self.fixed_frames(),
    {
        match self {
            BurstModeSetting::Off => None,
            BurstModeSetting::Auto => None,
            BurstModeSetting::Frames4 => Some(4),
            BurstModeSetting::Frames6 => Some(6),
            BurstModeSetting::Frames8 => Some(8),
            BurstModeSetting::Frames50 => Some(50),
        }
    }
}

/// How sound is encoded.
#[derive(Clone, Copy, Debug, PartialEq, Eq, Structural)]
pub enum AudioEncoder {
    /// Best quality.
    Opus,
    /// Plays everywhere.
    AAC,
}

impl Default for AudioEncoder {
    fn default() -> (value: Self)
        ensures
            value is Opus,
    {
        AudioEncoder::Opus
    }
}

impl AudioEncoder {
    /// Every one, in the order that they are offered.
    pub const ALL: [AudioEncoder; 2] = [
        AudioEncoder::Opus,
        AudioEncoder::AAC,
    ];

    /// Name to show.
    pub open spec fn display_name_text(self) -> &'static str {
        match self {
            AudioEncoder::Opus => "Opus",
            AudioEncoder::AAC => "AAC",
        }
    }

    /// Name to show.
    pub fn display_name(&self) -> (text: &'static str)
        ensures
            text@ == self.display_name_text()@,
    {
        match self {
            AudioEncoder::Opus => "Opus",
            AudioEncoder::AAC => "AAC",
        }
    }
}

/// Time between two frames of a timelapse.
#[derive(Clone, Copy, Debug, PartialEq, Eq, Structural)]
pub enum TimelapseInterval {
    /// Two frames each second.
    Fps2,
    Sec1,
    Sec2,
    Sec5,
    Sec10,
    Sec30,
    Min1,
    Min5,
}

impl Default for TimelapseInterval {
    fn default() -> (value: Self)
        ensures
            value is Fps2,
    {
        TimelapseInterval::Fps2
    }
}

impl TimelapseInterval {
    /// Every one, in the order that they are offered.
    pub const ALL: [TimelapseInterval; 8] = [
        TimelapseInterval::Fps2,
        TimelapseInterval::Sec1,
        TimelapseInterval::Sec2,
        TimelapseInterval::Sec5,
        TimelapseInterval::Sec10,
        TimelapseInterval::Sec30,
        TimelapseInterval::Min1,
        TimelapseInterval::Min5,
    ];

    /// Milliseconds.
    pub open spec fn duration(self) -> u64 {
        match self {
            TimelapseInterval::Fps2 => 500,
            TimelapseInterval::Sec1 => 1_000,
            TimelapseInterval::Sec2 => 2_000,
            TimelapseInterval::Sec5 => 5_000,
            TimelapseInterval::Sec10 => 10_000,
            TimelapseInterval::Sec30 => 30_000,
            TimelapseInterval::Min1 => 60_000,
            TimelapseInterval::Min5 => 300_000,
        }
    }

    /// Milliseconds.
    pub fn millis(&self) -> (millis: u64)
        ensures
            millis == self.duration(),
    {
        match self {
            TimelapseInterval::Fps2 => 500,
            TimelapseInterval::Sec1 => 1_000,
            TimelapseInterval::Sec2 => 2_000,
            TimelapseInterval::Sec5 => 5_000,
            TimelapseInterval::Sec10 => 10_000,
            TimelapseInterval::Sec30 => 30_000,
            TimelapseInterval::Min1 => 60_000,
            TimelapseInterval::Min5 => 300_000,
        }
    }

    /// Name to show.
    pub open spec fn display_name_text(self) -> &'static str {
        match self {
            TimelapseInterval::Fps2 => "2 fps",
            TimelapseInterval::Sec1 => "1 second",
            TimelapseInterval::Sec2 => "2 seconds",
            TimelapseInterval::Sec5 => "5 seconds",
            TimelapseInterval::Sec10 => "10 seconds",
            TimelapseInterval::Sec30 => "30 seconds",
            TimelapseInterval::Min1 => "1 minute",
            TimelapseInterval::Min5 => "5 minutes",
        }
    }

    /// Name to show.
    pub fn display_name(&self) -> (text: &'static str)
        ensures
            text@ == self.display_name_text()@,
    {
        match self {
            TimelapseInterval::Fps2 => "2 fps",
            TimelapseInterval::Sec1 => "1 second",
            TimelapseInterval::Sec2 => "2 seconds",
            TimelapseInterval::Sec5 => "5 seconds",
            TimelapseInterval::Sec10 => "10 seconds",
            TimelapseInterval::Sec30 => "30 seconds",
            TimelapseInterval::Min1 => "1 minute",
            TimelapseInterval::Min5 => "5 minutes",
        }
    }
}

/// Lines over the preview.
#[derive(Clone, Copy, Debug, PartialEq, Eq, Structural)]
pub enum CompositionGuide {
    NoGuide,
    /// Lines at the thirds.
    RuleOfThirds,
    /// Lines at the golden section.
    PhiGrid,
    /// Golden spirals, by the corner that they turn about.
    SpiralTopLeft,
    SpiralTopRight,
    SpiralBottomLeft,
    SpiralBottomRight,
    Diagonals,
    Crosshair,
}

impl Default for CompositionGuide {
    fn default() -> (value: Self)
        ensures
            value is NoGuide,
    {
        CompositionGuide::NoGuide
    }
}

impl CompositionGuide {
    /// Every one, in the order that they are offered.
    pub const ALL: [CompositionGuide; 9] = [
        CompositionGuide::NoGuide,
        CompositionGuide::RuleOfThirds,
        CompositionGuide::PhiGrid,
        CompositionGuide::SpiralTopLeft,
        CompositionGuide::SpiralTopRight,
        CompositionGuide::SpiralBottomLeft,
        CompositionGuide::SpiralBottomRight,
        CompositionGuide::Diagonals,
        CompositionGuide::Crosshair,
    ];
}

/// What the camera is used for.
#[derive(Clone, Copy, Debug, PartialEq, Eq, Structural)]
pub enum CameraMode {
    Photo,
    Video,
    Timelapse,
    /// Feeds other programs.
    Virtual,
    /// Shows the preview alone.
    View,
}

impl Default for CameraMode {
    fn default() -> (value: Self)
        ensures
            value is Photo,
    {
        CameraMode::Photo
    }
}

/// Bit rate of videos.
#[derive(Clone, Copy, Debug, PartialEq, Eq, Structural)]
pub enum BitratePreset {
    Low,
    Medium,
    High,
}

impl Default for BitratePreset {
    fn default() -> (value: Self)
        ensures
            value is Medium,
    {
        BitratePreset::Medium
    }
}

/// Shape of photos.
#[derive(Clone, Copy, Debug, PartialEq, Eq, Structural)]
pub enum PhotoAspectRatio {
    /// The sensor's own.
    Native,
    Ratio4x3,
    Ratio16x9,
    Ratio1x1,
    Ratio2x1,
}

impl Default for PhotoAspectRatio {
    fn default() -> (value: Self)
        ensures
            value is Native,
    {
        PhotoAspectRatio::Native
    }
}

/// Light or dark.
#[derive(Clone, Copy, Debug, PartialEq, Eq, Structural)]
pub enum AppTheme {
    /// As the desktop is.
    System,
    Dark,
    Light,
}

impl Default for AppTheme {
    fn default() -> (value: Self)
        ensures
            value is System,
    {
        AppTheme::System
    }
}

/// Which theme to start with.
#[derive(Clone, Copy, Debug, PartialEq, Eq, Structural)]
pub enum ThemeChoice {
    /// The desktop's own, whichever of its two it prefers.
    DesktopPreference,
    /// The desktop's dark one, kept dark.
    DesktopDark,
    /// The desktop's light one, kept light.
    DesktopLight,
    BuiltinDark,
    BuiltinLight,
}

impl AppTheme {
    /// Which theme to start with. Only COSMIC has themes of its own to read;
    /// elsewhere the built-in ones serve, and what the desktop prefers is not
    /// known yet, so the dark one stands in for it.
    pub open spec fn choice(self, is_cosmic: bool) -> ThemeChoice {
        match self {
            AppTheme::Dark => if is_cosmic {
                ThemeChoice::DesktopDark
            } else {
                ThemeChoice::BuiltinDark
            },
            AppTheme::Light => if is_cosmic {
                ThemeChoice::DesktopLight
            } else {
                ThemeChoice::BuiltinLight
            },
            AppTheme::System => if is_cosmic {
                ThemeChoice::DesktopPreference
            } else {
                ThemeChoice::BuiltinDark
            },
        }
    }

    /// Which theme to start with.
    pub fn theme(&self, is_cosmic: bool) -> (choice: ThemeChoice)
        ensures
            choice == self.choice(is_cosmic),
    {
        if is_cosmic {
            match self {
                AppTheme::Dark => ThemeChoice::DesktopDark,
                AppTheme::Light => ThemeChoice::DesktopLight,
                AppTheme::System => ThemeChoice::DesktopPreference,
            }
        } else {
            match self {
                AppTheme::Dark | AppTheme::System => ThemeChoice::BuiltinDark,
                AppTheme::Light => ThemeChoice::BuiltinLight,
            }
        }
    }
}

/// How overlays are painted over the preview.
#[derive(Clone, Copy, Debug, PartialEq, Eq, Structural)]
pub enum OverlayEffect {
    /// As COSMIC paints its windows. Elsewhere there is nothing to follow.
    System,
    /// Over a live blur of the preview.
    Frosted,
    /// Tinted, over the sharp preview.
    Translucent,
    /// Opaque.
    Off,
}

impl OverlayEffect {
    /// Every one, in a fixed order. What is offered is [`Self::available`].
    pub const ALL: [OverlayEffect; 4] = [
        OverlayEffect::System,
        OverlayEffect::Frosted,
        OverlayEffect::Translucent,
        OverlayEffect::Off,
    ];

    /// What a desktop offers, in the order that it is offered: off COSMIC there
    /// is no setting to follow, so following it is not offered.
    pub open spec fn offered(is_cosmic: bool) -> Seq<OverlayEffect> {
        if is_cosmic {
            seq![
                OverlayEffect::System,
                OverlayEffect::Frosted,
                OverlayEffect::Translucent,
                OverlayEffect::Off,
            ]
        } else {
            seq![OverlayEffect::Frosted, OverlayEffect::Translucent, OverlayEffect::Off]
        }
    }

    /// What a desktop makes of a choice: off COSMIC, following it comes to a
    /// tint.
    pub open spec fn honoured(self, is_cosmic: bool) -> OverlayEffect {
        if self is System && !is_cosmic {
            OverlayEffect::Translucent
        } else {
            self
        }
    }

    /// What is chosen before the user chooses.
    pub open spec fn preset(is_cosmic: bool) -> OverlayEffect {
        if is_cosmic {
            OverlayEffect::System
        } else {
            OverlayEffect::Translucent
        }
    }

    /// What is chosen before the user chooses.
    pub fn default_for(is_cosmic: bool) -> (effect: OverlayEffect)
        ensures
            effect == OverlayEffect::preset(is_cosmic),
    {
        if is_cosmic {
            OverlayEffect::System
        } else {
            OverlayEffect::Translucent
        }
    }

    /// What a desktop offers, in order.
    pub fn available_for(is_cosmic: bool) -> (effects: Vec<OverlayEffect>)
        ensures
            effects@ == OverlayEffect::offered(is_cosmic),
    {
        if is_cosmic {
            vec![
                OverlayEffect::System,
                OverlayEffect::Frosted,
                OverlayEffect::Translucent,
                OverlayEffect::Off,
            ]
        } else {
            vec![OverlayEffect::Frosted, OverlayEffect::Translucent, OverlayEffect::Off]
        }
    }

    /// What the desktop offers, in order. This is what an index counts in.
    pub fn available(desktop: &Desktop) -> (effects: Vec<OverlayEffect>)
        ensures
            effects@ == OverlayEffect::offered(desktop.is_cosmic),
    {
        OverlayEffect::available_for(desktop.is_cosmic)
    }

    /// What a desktop makes of the choice. It is asked for when the choice is
    /// read, so what is stored stays what the user chose.
    pub fn effective_for(self, is_cosmic: bool) -> (effect: OverlayEffect)
        ensures
            effect == self.honoured(is_cosmic),
    {
        if matches!(self, OverlayEffect::System) && !is_cosmic {
            OverlayEffect::Translucent
        } else {
            self
        }
    }

    /// What the desktop makes of the choice.
    pub fn effective(self, desktop: &Desktop) -> (effect: OverlayEffect)
        ensures
            effect == self.honoured(desktop.is_cosmic),
    {
        self.effective_for(desktop.is_cosmic)
    }

    /// Where the choice stands among what a desktop offers.
    pub fn dropdown_index_for(self, is_cosmic: bool) -> (index: usize)
        ensures
            index < OverlayEffect::offered(is_cosmic).len(),
            OverlayEffect::offered(is_cosmic)[index as int] == self.honoured(is_cosmic),
    {
        let effective = self.effective_for(is_cosmic);
        let available = OverlayEffect::available_for(is_cosmic);
        let mut index: usize = 0;
        proof {
            OverlayEffect::lemma_honoured_is_offered(self, is_cosmic);
        }
        while index < available.len()
            invariant
                index <= available@.len(),
                available@ == OverlayEffect::offered(is_cosmic),
                available@.contains(effective),
                effective == self.honoured(is_cosmic),
                forall|j: int| 0 <= j < index ==> available@[j] != effective,
            decreases available@.len() - index,
        {
            if available[index] == effective {
                return index;
            }
            index = index + 1;
        }
        0
    }

    /// Where the choice stands among what the desktop offers.
    pub fn dropdown_index(self, desktop: &Desktop) -> (index: usize)
        ensures
            index < OverlayEffect::offered(desktop.is_cosmic).len(),
            OverlayEffect::offered(desktop.is_cosmic)[index as int] == self.honoured(
                desktop.is_cosmic,
            ),
    {
        self.dropdown_index_for(desktop.is_cosmic)
    }

    /// What stands at an index of what a desktop offers.
    pub fn from_dropdown_index_for(index: usize, is_cosmic: bool) -> (effect: Option<OverlayEffect>)
        ensures
            effect == (if index < OverlayEffect::offered(is_cosmic).len() {
                Some(OverlayEffect::offered(is_cosmic)[index as int])
            } else {
                None
            }),
    {
        let available = OverlayEffect::available_for(is_cosmic);
        if index < available.len() {
            Some(available[index])
        } else {
            None
        }
    }

    /// What stands at an index of what the desktop offers.
    pub fn from_dropdown_index(index: usize, desktop: &Desktop) -> (effect: Option<OverlayEffect>)
        ensures
            effect == (if index < OverlayEffect::offered(desktop.is_cosmic).len() {
                Some(OverlayEffect::offered(desktop.is_cosmic)[index as int])
            } else {
                None
            }),
    {
        OverlayEffect::from_dropdown_index_for(index, desktop.is_cosmic)
    }

    proof fn lemma_honoured_is_offered(effect: OverlayEffect, is_cosmic: bool)
        ensures
            OverlayEffect::offered(is_cosmic).contains(effect.honoured(is_cosmic)),
    {
        let offered = OverlayEffect::offered(is_cosmic);
        assert(offered[0] == offered[0]);
        if is_cosmic {
            assert(offered[1] is Frosted && offered[2] is Translucent && offered[3] is Off);
        } else {
            assert(offered[1] is Translucent && offered[2] is Off);
        }
    }
}

/// What a desktop makes of any choice is something that it offers, and what it
/// offers it honours as it is. Every desktop offers the three surfaces; only
/// COSMIC offers to follow it. What is preset is offered.
pub proof fn law_choices_are_offered(effect: OverlayEffect, is_cosmic: bool)
    ensures
        OverlayEffect::offered(is_cosmic).contains(effect.honoured(is_cosmic)),
        OverlayEffect::offered(is_cosmic).contains(effect) <==> (is_cosmic || !(effect is System)),
        OverlayEffect::offered(is_cosmic).contains(effect) ==> effect.honoured(is_cosmic) == effect,
        OverlayEffect::offered(is_cosmic).contains(OverlayEffect::preset(is_cosmic)),
        OverlayEffect::System.honoured(true) is System,
{
    OverlayEffect::lemma_honoured_is_offered(effect, is_cosmic);
    OverlayEffect::lemma_honoured_is_offered(OverlayEffect::System, is_cosmic);
}

/// No two indices of what a desktop offers mean the same: a choice, its index,
/// and back is the choice, and an index, its choice, and back is the index.
pub proof fn law_indices_round_trip(is_cosmic: bool, i: int, j: int)
    requires
        0 <= i < OverlayEffect::offered(is_cosmic).len(),
        0 <= j < OverlayEffect::offered(is_cosmic).len(),
    ensures
        OverlayEffect::offered(is_cosmic)[i] == OverlayEffect::offered(is_cosmic)[j] <==> i == j,
        OverlayEffect::offered(is_cosmic)[i].honoured(is_cosmic)
            == OverlayEffect::offered(is_cosmic)[i],
{
}

/// Off COSMIC every index means what stands one later in the full order.
pub proof fn law_indices_shift_off_cosmic(i: int)
    requires
        0 <= i < OverlayEffect::offered(false).len(),
    ensures
        OverlayEffect::offered(false).len() + 1 == OverlayEffect::offered(true).len(),
        OverlayEffect::offered(false)[i] == OverlayEffect::offered(true)[i + 1],
{
}

/// The desktop that the program runs on.
#[derive(Clone, Copy, Debug, PartialEq, Eq, Structural)]
pub struct Desktop {
    pub is_cosmic: bool,
}

/// A character with ASCII letters in upper case.
pub open spec fn ascii_upper(c: char) -> char {
    if 'a' <= c && c <= 'z' {
        ((c as u32) - 32) as char
    } else {
        c
    }
}

/// `name` stands at `start` of `text`, in upper or lower case.
pub open spec fn stands_at(text: Seq<char>, name: Seq<char>, start: int) -> bool {
    &&& 0 <= start
    &&& start + name.len() <= text.len()
    &&& forall|k: int| 0 <= k < name.len() ==> ascii_upper(#[trigger] text[start + k]) == name[k]
}

/// `text` names COSMIC, in upper or lower case.
pub open spec fn names_cosmic(text: Seq<char>) -> bool {
    exists|start: int| #[trigger] stands_at(text, "COSMIC"@, start)
}

fn upper(c: char) -> (raised: char)
    ensures
        raised == ascii_upper(c),
{
    match c {
        'a' => 'A',
        'b' => 'B',
        'c' => 'C',
        'd' => 'D',
        'e' => 'E',
        'f' => 'F',
        'g' => 'G',
        'h' => 'H',
        'i' => 'I',
        'j' => 'J',
        'k' => 'K',
        'l' => 'L',
        'm' => 'M',
        'n' => 'N',
        'o' => 'O',
        'p' => 'P',
        'q' => 'Q',
        'r' => 'R',
        's' => 'S',
        't' => 'T',
        'u' => 'U',
        'v' => 'V',
        'w' => 'W',
        'x' => 'X',
        'y' => 'Y',
        'z' => 'Z',
        _ => c,
    }
}

fn cosmic_at(text: &str, len: usize, start: usize) -> (answer: bool)
    requires
        len == text@.len(),
        start <= len,
    ensures
        answer == stands_at(text@, "COSMIC"@, start as int),
{
    proof {
        reveal_strlit("COSMIC");
    }
    if len - start < 6 {
        return false;
    }
    let ghost name = "COSMIC"@;
    let ghost here = text@;
    let matched = upper(text.get_char(start)) == 'C' && upper(text.get_char(start + 1)) == 'O'
        && upper(text.get_char(start + 2)) == 'S' && upper(text.get_char(start + 3)) == 'M'
        && upper(text.get_char(start + 4)) == 'I' && upper(text.get_char(start + 5)) == 'C';
    proof {
        if stands_at(here, name, start as int) {
            assert(ascii_upper(here[start + 0]) == name[0]);
            assert(ascii_upper(here[start + 1]) == name[1]);
            assert(ascii_upper(here[start + 2]) == name[2]);
            assert(ascii_upper(here[start + 3]) == name[3]);
            assert(ascii_upper(here[start + 4]) == name[4]);
            assert(ascii_upper(here[start + 5]) == name[5]);
        }
    }
    matched
}

/// Whether the desktop is COSMIC, by what it calls itself, if anything.
pub fn is_cosmic_desktop(name: Option<&str>) -> (answer: bool)
    ensures
        answer == (name matches Some(text) && names_cosmic(text@)),
{
    let Some(text) = name else {
        return false;
    };
    let len: usize = text.unicode_len();
    let mut start: usize = 0;
    while start < len
        invariant
            name == Some(text),
            start <= len,
            len == text@.len(),
            forall|s: int| 0 <= s < start ==> !#[trigger] stands_at(text@, "COSMIC"@, s),
        decreases len - start,
    {
        if cosmic_at(text, len, start) {
            return true;
        }
        start = start + 1;
    }
    proof {
        reveal_strlit("COSMIC");
    }
    false
}

impl Desktop {
    /// The desktop, by what it calls itself, if anything.
    pub fn named(name: Option<&str>) -> (desktop: Desktop)
        ensures
            desktop.is_cosmic == (name matches Some(text) && names_cosmic(text@)),
    {
        Desktop { is_cosmic: is_cosmic_desktop(name) }
    }
}

/// The desktop once it was asked for: as it called itself the first time.
pub open spec fn asked_desktop(kept: Option<Desktop>, name: Option<Seq<char>>) -> Desktop {
    match kept {
        Some(desktop) => desktop,
        None => Desktop { is_cosmic: name matches Some(text) && names_cosmic(text) },
    }
}

/// The desktop, which is asked for its name once: `kept` is what came of it, and
/// from then on decides whatever the desktop calls itself.
pub fn desktop_once(kept: &mut Option<Desktop>, name: Option<&str>) -> (desktop: Desktop)
    ensures
        *final(kept) == Some(desktop),
        desktop == asked_desktop(
            *old(kept),
            match name {
                Some(text) => Some(text@),
                None => None,
            },
        ),
{
    let desktop = match *kept {
        Some(desktop) => desktop,
        None => Desktop::named(name),
    };
    *kept = Some(desktop);
    desktop
}

/// The desktops that a process sees, asking once for each of the names that the
/// desktop goes by in turn.
pub open spec fn desktops_seen(names: Seq<Option<Seq<char>>>) -> Seq<Desktop>
    decreases names.len(),
{
    if names.len() == 0 {
        seq![]
    } else {
        let before = desktops_seen(names.drop_last());
        let kept = if before.len() == 0 {
            None
        } else {
            Some(before.last())
        };
        before.push(asked_desktop(kept, names.last()))
    }
}

/// Whatever the desktop calls itself later, the first name decides every answer.
pub proof fn law_first_name_decides(names: Seq<Option<Seq<char>>>, k: int)
    requires
        0 <= k < names.len(),
    ensures
        desktops_seen(names).len() == names.len(),
        desktops_seen(names)[k].is_cosmic == (names[0] matches Some(text) && names_cosmic(text)),
    decreases names.len(),
{
    let rest = names.drop_last();
    if rest.len() > 0 {
        law_first_name_decides(rest, rest.len() - 1);
        if k < rest.len() {
            law_first_name_decides(rest, k);
        }
    } else {
        assert(desktops_seen(rest) =~= seq![]);
    }
}

/// Picture size and rate of one camera.
#[derive(Clone, Debug, PartialEq, Eq)]
pub struct FormatSettings {
    pub width: u32,
    pub height: u32,
    pub framerate: Option<u32>,
    /// As the camera calls it.
    pub pixel_format: String,
}

/// The same, by the name that only videos had.
pub type VideoSettings = FormatSettings;

impl Default for FormatSettings {
    fn default() -> (settings: Self)
        ensures
            settings.width == 0,
            settings.height == 0,
            settings.framerate is None,
            settings.pixel_format@.len() == 0,
    {
        FormatSettings { width: 0, height: 0, framerate: None, pixel_format: String::new() }
    }
}

/// What the user has chosen.
#[derive(Clone, Debug, PartialEq, Eq)]
pub struct Config {
    pub app_theme: AppTheme,
    pub overlay_effect: OverlayEffect,
    pub controls_position: ControlsPosition,
    /// What the camera is used for at first.
    pub default_mode: CameraMode,
    /// Folder of captures, below that of pictures or videos.
    pub save_folder_name: String,
    /// The camera that last showed a picture.
    pub last_camera_path: Option<String>,
    /// The camera that is being started. Still set at the next start, it never
    /// showed a picture.
    pub pending_camera_path: Option<String>,
    /// Cameras that never showed a picture since one last did.
    pub failed_camera_paths: Vec<String>,
    /// By the path of the camera.
    pub video_settings: HashMap<String, FormatSettings>,
    /// By the path of the camera.
    pub photo_settings: HashMap<String, FormatSettings>,
    pub last_video_encoder_index: Option<usize>,
    pub bug_report_url: String,
    pub mirror_preview: bool,
    /// Mirror what is captured too, where the preview is mirrored.
    pub mirror_captures: bool,
    pub bitrate_preset: BitratePreset,
    pub virtual_camera_enabled: bool,
    pub photo_output_format: PhotoOutputFormat,
    /// Keep the frames that a photo was put together from.
    pub save_burst_raw: bool,
    pub burst_mode_setting: BurstModeSetting,
    pub record_audio: bool,
    pub audio_encoder: AudioEncoder,
    pub composition_guide: CompositionGuide,
    pub timelapse_interval: TimelapseInterval,
    pub haptic_feedback: bool,
    pub photo_aspect_ratio: PhotoAspectRatio,
    /// Show the whole frame rather than fill the window.
    pub preview_fit_to_view: bool,
    /// Keys that the user chose, by action; an empty one for none at all.
    pub key_bindings: HashMap<String, String>,
}

impl Config {
    /// What is chosen before the user chooses.
    pub fn default_for(desktop: &Desktop) -> (config: Config)
        ensures
            config.app_theme is System,
            config.overlay_effect == OverlayEffect::preset(desktop.is_cosmic),
            config.controls_position is Bottom,
            config.default_mode is Photo,
            config.save_folder_name@ == "Camera"@,
            config.last_camera_path is None,
            config.pending_camera_path is None,
            config.failed_camera_paths@.len() == 0,
            config.video_settings@ == Map::<String, FormatSettings>::empty(),
            config.photo_settings@ == Map::<String, FormatSettings>::empty(),
            config.last_video_encoder_index is None,
            config.bug_report_url@
                == "https://github.com/cosmic-utils/cosmic-ext-camera/issues/new?template=bug_report_from_app.yml"@,
            config.mirror_preview,
            !config.mirror_captures,
            config.bitrate_preset is Medium,
            !config.virtual_camera_enabled,
            config.photo_output_format is Jpeg,
            !config.save_burst_raw,
            config.burst_mode_setting is Off,
            config.record_audio,
            config.audio_encoder is Opus,
            config.composition_guide is NoGuide,
            config.timelapse_interval is Fps2,
            config.haptic_feedback,
            config.photo_aspect_ratio is Native,
            !config.preview_fit_to_view,
            config.key_bindings@ == Map::<String, String>::empty(),
    {
        Config {
            app_theme: AppTheme::default(),
            overlay_effect: OverlayEffect::default_for(desktop.is_cosmic),
            controls_position: ControlsPosition::default(),
            default_mode: CameraMode::default(),
            save_folder_name: "Camera".to_owned(),
            last_camera_path: None,
            pending_camera_path: None,
            failed_camera_paths: Vec::new(),
            video_settings: HashMap::new(),
            photo_settings: HashMap::new(),
            last_video_encoder_index: None,
            bug_report_url:
                "https://github.com/cosmic-utils/cosmic-ext-camera/issues/new?template=bug_report_from_app.yml".to_owned(),
            mirror_preview: true,
            mirror_captures: false,
            bitrate_preset: BitratePreset::default(),
            virtual_camera_enabled: false,
            photo_output_format: PhotoOutputFormat::default(),
            save_burst_raw: false,
            burst_mode_setting: BurstModeSetting::default(),
            record_audio: true,
            audio_encoder: AudioEncoder::default(),
            composition_guide: CompositionGuide::default(),
            timelapse_interval: TimelapseInterval::default(),
            haptic_feedback: true,
            photo_aspect_ratio: PhotoAspectRatio::default(),
            preview_fit_to_view: false,
            key_bindings: HashMap::new(),
        }
    }
}

/// A fixed number of frames is at least two, and only a burst has one.
pub proof fn law_fixed_bursts(setting: BurstModeSetting)
    ensures
        setting.fixed_frames() matches Some(count) ==> count >= 2 && !(setting is Off),
        setting is Off ==> setting.fixed_frames() is None,
{
}

/// A desktop names COSMIC wherever in its name the word stands, in whatever case, and
/// not where it does not stand.
pub proof fn law_names_of_cosmic(before: Seq<char>, word: Seq<char>, after: Seq<char>)
    requires
        word.len() == 6,
    ensures
        ({
            let c = word[0] == 'C' || word[0] == 'c';
            let o = word[1] == 'O' || word[1] == 'o';
            let s = word[2] == 'S' || word[2] == 's';
            let m = word[3] == 'M' || word[3] == 'm';
            let i = word[4] == 'I' || word[4] == 'i';
            let last = word[5] == 'C' || word[5] == 'c';
            let spelled = c && o && s && m && i && last;
            &&& spelled ==> names_cosmic(before + word + after)
            &&& names_cosmic(word) <==> spelled
        }),
{
    reveal_strlit("COSMIC");
    let name = "COSMIC"@;
    let text = before + word + after;
    let at = before.len() as int;
    assert(text[at] == word[0] && text[at + 1] == word[1] && text[at + 2] == word[2] && text[at + 3]
        == word[3] && text[at + 4] == word[4] && text[at + 5] == word[5]);
    let here: int = 0;
    if stands_at(word, name, here) {
        assert(ascii_upper(word[here + 0]) == name[0]);
        assert(ascii_upper(word[here + 1]) == name[1]);
        assert(ascii_upper(word[here + 2]) == name[2]);
        assert(ascii_upper(word[here + 3]) == name[3]);
        assert(ascii_upper(word[here + 4]) == name[4]);
        assert(ascii_upper(word[here + 5]) == name[5]);
    }
    if ascii_upper(word[0]) == 'C' && ascii_upper(word[1]) == 'O' && ascii_upper(word[2]) == 'S'
        && ascii_upper(word[3]) == 'M' && ascii_upper(word[4]) == 'I' && ascii_upper(word[5])
        == 'C' {
        assert(stands_at(text, name, at));
        assert(stands_at(word, name, here));
    }
    if names_cosmic(word) {
        let start = choose|start: int| #[trigger] stands_at(word, name, start);
        assert(start == 0);
    }
}

/// Dark stays dark and light light on every desktop, and only COSMIC's own themes are
/// ever read from the desktop; what the system prefers is its to say on COSMIC alone.
pub proof fn law_themes_stay_dark_or_light(theme: AppTheme, is_cosmic: bool)
    ensures
        ({
            let choice = theme.choice(is_cosmic);
            let builtin = choice is BuiltinDark || choice is BuiltinLight;
            let dark = choice is DesktopDark || choice is BuiltinDark;
            let light = choice is DesktopLight || choice is BuiltinLight;
            &&& theme is Dark ==> dark
            &&& theme is Light ==> light
            &&& theme is System && is_cosmic ==> choice is DesktopPreference
            &&& theme is System && !is_cosmic ==> dark
            &&& builtin <==> !is_cosmic
        }),
{
}

/// What is chosen stays chosen wherever it can be had; only following the desktop
/// comes to something else where there is nothing to follow, and that is a tint.
pub proof fn law_choices_are_honoured(effect: OverlayEffect, is_cosmic: bool)
    ensures
        is_cosmic || !(effect is System) ==> effect.honoured(is_cosmic) == effect,
        effect is System && !is_cosmic ==> effect.honoured(is_cosmic) is Translucent,
        OverlayEffect::preset(true) is System,
        OverlayEffect::preset(false) is Translucent,
        OverlayEffect::offered(true).len() == 4,
        OverlayEffect::offered(true)[0] is System,
        OverlayEffect::offered(true)[1] is Frosted,
        OverlayEffect::offered(true)[2] is Translucent,
        OverlayEffect::offered(true)[3] is Off,
{
}

/// How long a timelapse waits between two frames: half a second, or as its name says.
pub proof fn law_intervals_are_as_named(interval: TimelapseInterval)
    ensures
        ({
            let millis = interval.duration();
            &&& interval is Fps2 ==> 2 * millis == 1000
            &&& interval is Sec1 ==> millis == 1 * 1000
            &&& interval is Sec2 ==> millis == 2 * 1000
            &&& interval is Sec5 ==> millis == 5 * 1000
            &&& interval is Sec10 ==> millis == 10 * 1000
            &&& interval is Sec30 ==> millis == 30 * 1000
            &&& interval is Min1 ==> millis == 60 * 1000
            &&& interval is Min5 ==> millis == 5 * 60 * 1000
        }),
{
}

/// A burst of a fixed number of frames has the number that it is named by; the others
/// leave it open.
pub proof fn law_bursts_are_as_named(setting: BurstModeSetting)
    ensures
        setting is Frames4 ==> setting.fixed_frames() == Some(4usize),
        setting is Frames6 ==> setting.fixed_frames() == Some(6usize),
        setting is Frames8 ==> setting.fixed_frames() == Some(8usize),
        setting is Frames50 ==> setting.fixed_frames() == Some(50usize),
        setting.fixed_frames() is None <==> setting is Off || setting is Auto,
{
}

} // verus!
