//! What the user has chosen.

use camera::config::{
    desktop_once, is_cosmic_desktop, AppTheme, AudioEncoder, BurstModeSetting, CompositionGuide,
    Config, ControlsPosition, Desktop, FormatSettings, OverlayEffect, PhotoAspectRatio,
    PhotoOutputFormat, ThemeChoice, TimelapseInterval,
};

const COSMIC: Desktop = Desktop { is_cosmic: true };
const OTHER: Desktop = Desktop { is_cosmic: false };

#[test]
fn test_config_default() {
    let config = Config::default_for(&COSMIC);
    assert!(config.mirror_preview, "Mirror preview should be enabled by default");
}

#[test]
fn test_config_bug_report_url() {
    let config = Config::default_for(&COSMIC);
    assert!(!config.bug_report_url.is_empty(), "Bug report URL should not be empty");
}

#[test]
fn controls_position_defaults_to_bottom() {
    assert_eq!(Config::default_for(&COSMIC).controls_position, ControlsPosition::Bottom);
    assert_eq!(ControlsPosition::ALL[0], ControlsPosition::Bottom);
}

#[test]
fn system_is_offered_only_on_cosmic() {
    assert!(OverlayEffect::available_for(true).contains(&OverlayEffect::System));
    assert!(!OverlayEffect::available_for(false).contains(&OverlayEffect::System));

    assert_eq!(OverlayEffect::available_for(true).len(), 4);
    assert_eq!(OverlayEffect::available_for(false).len(), 3);

    for effect in [OverlayEffect::Frosted, OverlayEffect::Translucent, OverlayEffect::Off] {
        for is_cosmic in [true, false] {
            assert!(
                OverlayEffect::available_for(is_cosmic).contains(&effect),
                "{effect:?} unreachable on is_cosmic={is_cosmic}"
            );
        }
    }
}

#[test]
fn dropdown_index_round_trips_in_both_environments() {
    for is_cosmic in [true, false] {
        let available = OverlayEffect::available_for(is_cosmic);

        for &effect in &available {
            let index = effect.dropdown_index_for(is_cosmic);
            assert_eq!(
                OverlayEffect::from_dropdown_index_for(index, is_cosmic),
                Some(effect),
                "{effect:?} did not round-trip at index {index} (is_cosmic={is_cosmic})"
            );
        }

        for index in 0..available.len() {
            let effect = OverlayEffect::from_dropdown_index_for(index, is_cosmic)
                .expect("in-range index must decode");
            assert_eq!(
                effect.dropdown_index_for(is_cosmic),
                index,
                "index {index} decoded to {effect:?}, which re-encodes elsewhere \
                 (is_cosmic={is_cosmic})"
            );
        }

        assert_eq!(OverlayEffect::from_dropdown_index_for(available.len(), is_cosmic), None);
    }
}

#[test]
fn dropdown_index_matches_the_options_it_labels() {
    assert_eq!(OverlayEffect::from_dropdown_index_for(0, true), Some(OverlayEffect::System));
    assert_eq!(OverlayEffect::from_dropdown_index_for(3, true), Some(OverlayEffect::Off));

    assert_eq!(OverlayEffect::from_dropdown_index_for(0, false), Some(OverlayEffect::Frosted));
    assert_eq!(OverlayEffect::from_dropdown_index_for(1, false), Some(OverlayEffect::Translucent));
    assert_eq!(OverlayEffect::from_dropdown_index_for(2, false), Some(OverlayEffect::Off));
    assert_eq!(OverlayEffect::from_dropdown_index_for(3, false), None);
}

#[test]
fn stored_system_selects_its_fallback_entry_off_cosmic() {
    let index = OverlayEffect::System.dropdown_index_for(false);
    assert_eq!(
        OverlayEffect::from_dropdown_index_for(index, false),
        Some(OverlayEffect::Translucent),
        "System off-COSMIC must display as Translucent"
    );
    assert!(index < OverlayEffect::available_for(false).len());
}

#[test]
fn off_cosmic_indices_are_shifted_relative_to_all() {
    let available = OverlayEffect::available_for(false);
    assert_eq!(available[0], OverlayEffect::Frosted);
    assert_eq!(available[1], OverlayEffect::Translucent);
    assert_eq!(available[2], OverlayEffect::Off);
    assert_eq!(OverlayEffect::ALL[0], OverlayEffect::System);
    assert_ne!(available[0], OverlayEffect::ALL[0]);
}

#[test]
fn stored_system_falls_back_off_cosmic() {
    assert_eq!(OverlayEffect::System.effective_for(false), OverlayEffect::Translucent);
    assert_eq!(OverlayEffect::System.effective_for(true), OverlayEffect::System);

    for is_cosmic in [true, false] {
        for effect in OverlayEffect::ALL {
            assert!(
                OverlayEffect::available_for(is_cosmic).contains(&effect.effective_for(is_cosmic)),
                "{effect:?}.effective_for({is_cosmic}) is not in the dropdown"
            );
        }
    }
}

#[test]
fn default_effect_is_system_on_cosmic_translucent_elsewhere() {
    assert_eq!(OverlayEffect::default_for(true), OverlayEffect::System);
    assert_eq!(OverlayEffect::default_for(false), OverlayEffect::Translucent);

    for desktop in [COSMIC, OTHER] {
        assert_eq!(
            Config::default_for(&desktop).overlay_effect,
            OverlayEffect::default_for(desktop.is_cosmic),
        );
    }

    for is_cosmic in [true, false] {
        assert!(
            OverlayEffect::available_for(is_cosmic)
                .contains(&OverlayEffect::default_for(is_cosmic)),
            "default is not offered on is_cosmic={is_cosmic}"
        );
    }
}

#[test]
fn the_desktop_decides_as_its_flag_does() {
    for desktop in [COSMIC, OTHER] {
        let flag = desktop.is_cosmic;
        assert_eq!(OverlayEffect::available(&desktop), OverlayEffect::available_for(flag));
        for effect in OverlayEffect::ALL {
            assert_eq!(effect.effective(&desktop), effect.effective_for(flag));
            assert_eq!(effect.dropdown_index(&desktop), effect.dropdown_index_for(flag));
        }
        for index in 0..6 {
            assert_eq!(
                OverlayEffect::from_dropdown_index(index, &desktop),
                OverlayEffect::from_dropdown_index_for(index, flag)
            );
        }
    }
    assert_eq!(OverlayEffect::Translucent.dropdown_index(&COSMIC), 2);
    assert_eq!(OverlayEffect::Translucent.dropdown_index(&OTHER), 1);
}

#[test]
fn cosmic_is_recognised_in_any_case_and_among_others() {
    assert!(is_cosmic_desktop(Some("COSMIC")));
    assert!(is_cosmic_desktop(Some("cosmic")));
    assert!(is_cosmic_desktop(Some("pop:CoSmIc:GNOME")));
    assert!(is_cosmic_desktop(Some("COSCOSMIC")));
    assert!(!is_cosmic_desktop(Some("GNOME")));
    assert!(!is_cosmic_desktop(Some("COSMI")));
    assert!(!is_cosmic_desktop(Some("")));
    assert!(!is_cosmic_desktop(None));
    assert!(Desktop::named(Some("Cosmic")).is_cosmic);
    assert!(!Desktop::named(Some("KDE")).is_cosmic);
}

#[test]
fn the_desktop_is_asked_once() {
    let mut kept = None;
    assert_eq!(desktop_once(&mut kept, Some("COSMIC")).is_cosmic, true);
    assert_eq!(desktop_once(&mut kept, Some("GNOME")).is_cosmic, true);
    assert_eq!(desktop_once(&mut kept, None).is_cosmic, true);
    let mut kept = None;
    assert_eq!(desktop_once(&mut kept, None).is_cosmic, false);
    assert_eq!(desktop_once(&mut kept, Some("COSMIC")).is_cosmic, false);
}

#[test]
fn every_default_is_as_documented() {
    let config = Config::default_for(&OTHER);
    assert_eq!(config.app_theme, AppTheme::System);
    assert_eq!(config.overlay_effect, OverlayEffect::Translucent);
    assert_eq!(config.save_folder_name, "Camera");
    assert_eq!(config.last_camera_path, None);
    assert_eq!(config.pending_camera_path, None);
    assert!(config.failed_camera_paths.is_empty());
    assert!(config.video_settings.is_empty());
    assert!(config.photo_settings.is_empty());
    assert!(!config.mirror_captures);
    assert!(!config.virtual_camera_enabled);
    assert_eq!(config.photo_output_format, PhotoOutputFormat::Jpeg);
    assert_eq!(config.burst_mode_setting, BurstModeSetting::Off);
    assert!(config.record_audio);
    assert_eq!(config.audio_encoder, AudioEncoder::Opus);
    assert_eq!(config.composition_guide, CompositionGuide::NoGuide);
    assert_eq!(config.timelapse_interval, TimelapseInterval::Fps2);
    assert!(config.haptic_feedback);
    assert_eq!(config.photo_aspect_ratio, PhotoAspectRatio::Native);
    assert!(!config.preview_fit_to_view);
    assert!(config.key_bindings.is_empty());
    assert_eq!(
        FormatSettings::default(),
        FormatSettings { width: 0, height: 0, framerate: None, pixel_format: String::new() }
    );
}

#[test]
fn themes_follow_the_desktop_only_on_cosmic() {
    assert_eq!(AppTheme::System.theme(true), ThemeChoice::DesktopPreference);
    assert_eq!(AppTheme::Dark.theme(true), ThemeChoice::DesktopDark);
    assert_eq!(AppTheme::Light.theme(true), ThemeChoice::DesktopLight);
    assert_eq!(AppTheme::System.theme(false), ThemeChoice::BuiltinDark);
    assert_eq!(AppTheme::Dark.theme(false), ThemeChoice::BuiltinDark);
    assert_eq!(AppTheme::Light.theme(false), ThemeChoice::BuiltinLight);
}

#[test]
fn names_extensions_and_numbers_are_exact() {
    let extensions: Vec<&str> = PhotoOutputFormat::ALL.iter().map(|f| f.extension()).collect();
    assert_eq!(extensions, ["jpg", "png", "dng"]);
    let names: Vec<&str> = PhotoOutputFormat::ALL.iter().map(|f| f.display_name()).collect();
    assert_eq!(names, ["JPEG", "PNG", "DNG (Raw)"]);
    let encoders: Vec<&str> = AudioEncoder::ALL.iter().map(|e| e.display_name()).collect();
    assert_eq!(encoders, ["Opus", "AAC"]);
    let millis: Vec<u64> = TimelapseInterval::ALL.iter().map(|i| i.millis()).collect();
    assert_eq!(millis, [500, 1_000, 2_000, 5_000, 10_000, 30_000, 60_000, 300_000]);
    let intervals: Vec<&str> = TimelapseInterval::ALL.iter().map(|i| i.display_name()).collect();
    assert_eq!(
        intervals,
        [
            "2 fps", "1 second", "2 seconds", "5 seconds", "10 seconds", "30 seconds", "1 minute",
            "5 minutes"
        ]
    );
    let frames: Vec<Option<usize>> =
        BurstModeSetting::ALL.iter().map(|b| b.frame_count()).collect();
    assert_eq!(frames, [None, None, Some(4), Some(6), Some(8), Some(50)]);
    assert!(!BurstModeSetting::Off.is_enabled());
    assert!(BurstModeSetting::Auto.is_enabled());
    assert_eq!(CompositionGuide::ALL.len(), 9);
}
