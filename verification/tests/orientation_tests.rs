//! Which way up the display is.

use camera::display_orientation::{
    emit_fallback_on_disconnect, poll_step, reconnect_slices, DispatchState, DisplayOrientation,
    OutputTransform, PollStep,
};
use wayland_client::protocol::wl_output::Transform;
use wayland_client::WEnum;

#[test]
fn from_transform_maps_rotations() {
    assert_eq!(
        DisplayOrientation::from_transform(OutputTransform::Normal),
        Some(DisplayOrientation::Rotate0)
    );
    assert_eq!(
        DisplayOrientation::from_transform(OutputTransform::Rotated90),
        Some(DisplayOrientation::Rotate90)
    );
    assert_eq!(
        DisplayOrientation::from_transform(OutputTransform::Rotated180),
        Some(DisplayOrientation::Rotate180)
    );
    assert_eq!(
        DisplayOrientation::from_transform(OutputTransform::Rotated270),
        Some(DisplayOrientation::Rotate270)
    );
}

#[test]
fn flipped_transforms_are_rejected_instead_of_collapsed_to_rotation() {
    assert_eq!(DisplayOrientation::from_transform(OutputTransform::Flipped90), None);
}

#[test]
fn every_transform_of_the_protocol_is_read_by_its_number() {
    let pairs = [
        (Transform::Normal, DisplayOrientation::Rotate0),
        (Transform::_90, DisplayOrientation::Rotate90),
        (Transform::_180, DisplayOrientation::Rotate180),
        (Transform::_270, DisplayOrientation::Rotate270),
        (Transform::Flipped, DisplayOrientation::Rotate0),
        (Transform::Flipped90, DisplayOrientation::Rotate0),
        (Transform::Flipped180, DisplayOrientation::Rotate0),
        (Transform::Flipped270, DisplayOrientation::Rotate0),
    ];
    for (transform, orientation) in pairs {
        let raw = u32::from(WEnum::Value(transform));
        assert_eq!(DisplayOrientation::from_number(raw), orientation, "{transform:?}");
    }
    assert_eq!(DisplayOrientation::from_number(3), DisplayOrientation::Rotate270);
    assert_eq!(DisplayOrientation::from_number(8), DisplayOrientation::Rotate0);
    assert_eq!(DisplayOrientation::from_number(u32::MAX), DisplayOrientation::Rotate0);
}

#[test]
fn degrees_of_every_orientation() {
    assert_eq!(DisplayOrientation::default(), DisplayOrientation::Rotate0);
    assert_eq!(DisplayOrientation::Rotate0.degrees(), 0);
    assert_eq!(DisplayOrientation::Rotate90.degrees(), 90);
    assert_eq!(DisplayOrientation::Rotate180.degrees(), 180);
    assert_eq!(DisplayOrientation::Rotate270.degrees(), 270);
    assert_eq!(DisplayOrientation::Flipped0.degrees(), 0);
    assert_eq!(DisplayOrientation::Flipped90.degrees(), 90);
    assert_eq!(DisplayOrientation::Flipped180.degrees(), 180);
    assert_eq!(DisplayOrientation::Flipped270.degrees(), 270);
}

#[test]
fn multiple_outputs_disable_automatic_orientation() {
    let mut state = DispatchState::new();
    assert_eq!(state.add_output(7), None);
    assert_eq!(state.finish_initial_enumeration(), None);
    assert_eq!(
        state.commit_transform(7, DisplayOrientation::Rotate90),
        Some(DisplayOrientation::Rotate90)
    );
    assert_eq!(state.add_output(9), Some(DisplayOrientation::Rotate0));
    assert_eq!(state.commit_transform(9, DisplayOrientation::Rotate270), None);
}

#[test]
fn returning_to_one_output_reenables_its_known_orientation() {
    let mut state = DispatchState::new();
    assert_eq!(state.add_output(7), None);
    assert_eq!(state.add_output(9), None);
    assert_eq!(state.finish_initial_enumeration(), Some(DisplayOrientation::Rotate0));
    assert_eq!(state.commit_transform(9, DisplayOrientation::Rotate270), None);
    assert_eq!(state.remove_output(7), Some(DisplayOrientation::Rotate270));
}

#[test]
fn initial_enumeration_never_emits_an_arbitrary_output() {
    let mut state = DispatchState::new();
    assert_eq!(state.add_output(7), None);
    assert_eq!(state.commit_transform(7, DisplayOrientation::Rotate90), None);
    assert_eq!(state.add_output(9), None);
    assert_eq!(state.commit_transform(9, DisplayOrientation::Rotate270), None);

    assert_eq!(state.finish_initial_enumeration(), Some(DisplayOrientation::Rotate0));
    assert_eq!(state.last_emitted, Some(DisplayOrientation::Rotate0));
}

#[test]
fn connection_loss_falls_back_to_rotate0_once() {
    let mut last_emitted = Some(DisplayOrientation::Rotate90);
    assert_eq!(emit_fallback_on_disconnect(&mut last_emitted), Some(DisplayOrientation::Rotate0));
    assert_eq!(emit_fallback_on_disconnect(&mut last_emitted), None);
}

#[test]
fn an_orientation_counts_once_its_output_is_done() {
    let mut state = DispatchState::new();
    state.add_output(7);
    state.finish_initial_enumeration();
    state.geometry(7, 1);
    assert_eq!(state.outputs[&7].pending, Some(DisplayOrientation::Rotate90));
    assert_eq!(state.done(7), Some(DisplayOrientation::Rotate90));
    assert_eq!(state.done(7), None);
    state.geometry(7, 1);
    assert_eq!(state.done(7), None, "the same orientation is not reported twice");
    state.geometry(7, 5);
    assert_eq!(state.done(7), Some(DisplayOrientation::Rotate0), "a reflection is upright");
    state.geometry(8, 2);
    assert_eq!(state.done(8), None, "an unknown output says nothing");
    assert_eq!(state.remove_output(8), None);
}

#[test]
fn only_outputs_that_report_a_transform_are_bound() {
    let mut state = DispatchState::new();
    assert_eq!(state.global(1, "wl_seat", 7), (None, None));
    assert_eq!(state.global(2, "wl_output", 1), (None, None));
    assert!(state.outputs.is_empty());
    assert_eq!(state.global(3, "wl_output", 2), (Some(2), None));
    assert_eq!(state.global(4, "wl_output", 9), (Some(4), None));
    assert_eq!(state.outputs.len(), 2);
    assert_eq!(state.finish_initial_enumeration(), Some(DisplayOrientation::Rotate0));
}

#[test]
fn waiting_and_reconnecting() {
    assert_eq!(reconnect_slices(), 5);
    assert_eq!(poll_step(-1), PollStep::Fail);
    assert_eq!(poll_step(0), PollStep::Wait);
    assert_eq!(poll_step(1), PollStep::Read);
}

#[test]
fn an_orientation_is_reported_once_in_a_row() {
    let mut state = DispatchState::new();
    let turned = DisplayOrientation::Rotate90;
    let upright = DisplayOrientation::Rotate0;
    assert_eq!(state.emit(turned), Some(turned));
    assert_eq!(state.emit(turned), None);
    assert_eq!(state.emit(upright), Some(upright));
    assert_eq!(state.emit(turned), Some(turned));
}
