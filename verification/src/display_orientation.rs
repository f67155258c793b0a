//! Which way up the display is.
//!
//! Outputs of a private connection cannot be told apart from the one that shows
//! the window, so the orientation is followed only while exactly one output
//! exists. With several it falls back to upright rather than pick one. A
//! reflected output cannot be shown by a rotation and falls back to upright too.

use std::collections::HashMap;
use vstd::prelude::*;
use vstd::std_specs::hash::*;
use crate::text::same_text;
use wayland_client::protocol::wl_output::Transform;
use wayland_client::WEnum;

verus! {

broadcast use vstd::std_specs::hash::group_hash_axioms;

/// Pause between two looks at the connection.
pub const POLL_INTERVAL_MS: u64 = 100;

/// Pause before a lost connection is tried again.
pub const RECONNECT_DELAY_MS: u64 = 500;

/// Oldest version of an output that reports a transform as one change.
pub const LEAST_OUTPUT_VERSION: u32 = 2;

/// Newest version of an output that is understood.
pub const LATEST_OUTPUT_VERSION: u32 = 4;

/// Which way up the display is.
#[derive(Clone, Copy, Debug, PartialEq, Eq, Structural)]
pub enum DisplayOrientation {
    Rotate0,
    Rotate90,
    Rotate180,
    Rotate270,
    /// The reflected ones are laid out, but never reported.
    Flipped0,
    Flipped90,
    Flipped180,
    Flipped270,
}

/// How a compositor transforms what an output shows.
#[derive(Clone, Copy, Debug, PartialEq, Eq, Structural)]
pub enum OutputTransform {
    Normal,
    Rotated90,
    Rotated180,
    Rotated270,
    Flipped,
    Flipped90,
    Flipped180,
    Flipped270,
}

/// The transform that the protocol numbers `raw`.
pub open spec fn numbered_transform(raw: u32) -> Option<OutputTransform> {
    if raw == 0 {
        Some(OutputTransform::Normal)
    } else if raw == 1 {
        Some(OutputTransform::Rotated90)
    } else if raw == 2 {
        Some(OutputTransform::Rotated180)
    } else if raw == 3 {
        Some(OutputTransform::Rotated270)
    } else if raw == 4 {
        Some(OutputTransform::Flipped)
    } else if raw == 5 {
        Some(OutputTransform::Flipped90)
    } else if raw == 6 {
        Some(OutputTransform::Flipped180)
    } else if raw == 7 {
        Some(OutputTransform::Flipped270)
    } else {
        None
    }
}

/// Calls `WEnum::<wl_output::Transform>::from` on a number of the protocol, and
/// `into_result` on what comes out.
///
/// The protocol numbers the transforms from zero: the four rotations, then the
/// four reflections. Any other number is unknown and gives an error.
#[verifier::external_body]
fn decode_transform(raw: u32) -> (transform: Option<OutputTransform>)
    ensures
        transform == numbered_transform(raw),
{
    match WEnum::<Transform>::from(raw).into_result() {
        Ok(Transform::Normal) => Some(OutputTransform::Normal),
        Ok(Transform::_90) => Some(OutputTransform::Rotated90),
        Ok(Transform::_180) => Some(OutputTransform::Rotated180),
        Ok(Transform::_270) => Some(OutputTransform::Rotated270),
        Ok(Transform::Flipped) => Some(OutputTransform::Flipped),
        Ok(Transform::Flipped90) => Some(OutputTransform::Flipped90),
        Ok(Transform::Flipped180) => Some(OutputTransform::Flipped180),
        Ok(Transform::Flipped270) => Some(OutputTransform::Flipped270),
        Ok(_) | Err(_) => None,
    }
}

impl Default for DisplayOrientation {
    fn default() -> (orientation: Self)
        ensures
            orientation is Rotate0,
    {
        DisplayOrientation::Rotate0
    }
}

impl DisplayOrientation {
    /// Turns clockwise, in quarters.
    pub open spec fn quarters(self) -> int {
        match self {
            DisplayOrientation::Rotate0 | DisplayOrientation::Flipped0 => 0,
            DisplayOrientation::Rotate90 | DisplayOrientation::Flipped90 => 1,
            DisplayOrientation::Rotate180 | DisplayOrientation::Flipped180 => 2,
            DisplayOrientation::Rotate270 | DisplayOrientation::Flipped270 => 3,
        }
    }

    /// Shown through a mirror.
    pub open spec fn reflected(self) -> bool {
        self is Flipped0 || self is Flipped90 || self is Flipped180 || self is Flipped270
    }

    /// Turn in degrees.
    pub fn degrees(self) -> (degrees: u32)
        ensures
            degrees == 90 * self.quarters(),
    {
        match self {
            DisplayOrientation::Rotate0 | DisplayOrientation::Flipped0 => 0,
            DisplayOrientation::Rotate90 | DisplayOrientation::Flipped90 => 90,
            DisplayOrientation::Rotate180 | DisplayOrientation::Flipped180 => 180,
            DisplayOrientation::Rotate270 | DisplayOrientation::Flipped270 => 270,
        }
    }

    /// The orientation that a transform comes to; none for a reflection.
    pub open spec fn of_transform(transform: OutputTransform) -> Option<DisplayOrientation> {
        match transform {
            OutputTransform::Normal => Some(DisplayOrientation::Rotate0),
            OutputTransform::Rotated90 => Some(DisplayOrientation::Rotate90),
            OutputTransform::Rotated180 => Some(DisplayOrientation::Rotate180),
            OutputTransform::Rotated270 => Some(DisplayOrientation::Rotate270),
            _ => None,
        }
    }

    /// The orientation that a transform comes to; none for a reflection.
    pub fn from_transform(transform: OutputTransform) -> (orientation: Option<DisplayOrientation>)
        ensures
            orientation == DisplayOrientation::of_transform(transform),
    {
        match transform {
            OutputTransform::Normal => Some(DisplayOrientation::Rotate0),
            OutputTransform::Rotated90 => Some(DisplayOrientation::Rotate90),
            OutputTransform::Rotated180 => Some(DisplayOrientation::Rotate180),
            OutputTransform::Rotated270 => Some(DisplayOrientation::Rotate270),
            OutputTransform::Flipped
            | OutputTransform::Flipped90
            | OutputTransform::Flipped180
            | OutputTransform::Flipped270 => None,
        }
    }

    /// The orientation that the transform numbered `raw` comes to: upright where
    /// it is a reflection or unknown.
    pub open spec fn of_number(raw: u32) -> DisplayOrientation {
        match numbered_transform(raw) {
            Some(transform) => match DisplayOrientation::of_transform(transform) {
                Some(orientation) => orientation,
                None => DisplayOrientation::Rotate0,
            },
            None => DisplayOrientation::Rotate0,
        }
    }

    /// The orientation that the transform numbered `raw` comes to.
    pub fn from_number(raw: u32) -> (orientation: DisplayOrientation)
        ensures
            orientation == DisplayOrientation::of_number(raw),
    {
        match decode_transform(raw) {
            Some(transform) => match DisplayOrientation::from_transform(transform) {
                Some(orientation) => orientation,
                None => DisplayOrientation::Rotate0,
            },
            None => DisplayOrientation::Rotate0,
        }
    }
}

/// What is known of one output.
#[derive(Clone, Copy, Debug, PartialEq, Eq, Structural)]
pub struct OutputData {
    /// Announced, and not in force yet.
    pub pending: Option<DisplayOrientation>,
    /// In force.
    pub current: Option<DisplayOrientation>,
}

/// What the listener knows.
#[verifier::ext_equal]
pub ghost struct Outlook {
    pub outputs: Map<u32, OutputData>,
    /// What was last reported.
    pub last: Option<DisplayOrientation>,
    /// Every output that existed at first has been announced.
    pub complete: bool,
}

impl Outlook {
    /// Nothing yet.
    pub open spec fn initial() -> Outlook {
        Outlook { outputs: Map::empty(), last: None, complete: false }
    }

    /// What ought to be reported, if anything: the orientation of the only
    /// output, or upright where there are several.
    pub open spec fn wanted(self) -> Option<DisplayOrientation> {
        if !self.complete || self.outputs.len() == 0 {
            None
        } else if self.outputs.len() == 1 {
            self.outputs[self.outputs.dom().choose()].current
        } else {
            Some(DisplayOrientation::Rotate0)
        }
    }

    /// What ought to be reported has been.
    pub open spec fn settled(self) -> bool {
        self.wanted() is Some ==> self.last == self.wanted()
    }

    /// With what ought to be reported, reported.
    pub open spec fn settle(self) -> Outlook {
        if self.wanted() is Some {
            Outlook { last: self.wanted(), ..self }
        } else {
            self
        }
    }

    /// The outputs are finitely many, and what ought to be reported has been.
    pub open spec fn sound(self) -> bool {
        &&& self.outputs.dom().finite()
        &&& self.settled()
    }

    /// After an orientation was reported.
    pub open spec fn after_emit(self, orientation: DisplayOrientation) -> Outlook {
        Outlook { last: Some(orientation), ..self }
    }

    /// After an output appeared.
    pub open spec fn after_add(self, name: u32) -> Outlook {
        Outlook {
            outputs: self.outputs.insert(name, OutputData { pending: None, current: None }),
            ..self
        }.settle()
    }

    /// After an output went away.
    pub open spec fn after_remove(self, name: u32) -> Outlook {
        Outlook { outputs: self.outputs.remove(name), ..self }.settle()
    }

    /// After an output changed its orientation.
    pub open spec fn after_commit(self, name: u32, orientation: DisplayOrientation) -> Outlook {
        if self.outputs.contains_key(name) {
            Outlook {
                outputs: self.outputs.insert(
                    name,
                    OutputData { current: Some(orientation), ..self.outputs[name] },
                ),
                ..self
            }.settle()
        } else {
            self
        }
    }

    /// After every first output has been announced.
    pub open spec fn after_enumeration(self) -> Outlook {
        Outlook { complete: true, ..self }.settle()
    }

    /// After an output announced a transform.
    pub open spec fn after_geometry(self, name: u32, raw: u32) -> Outlook {
        if self.outputs.contains_key(name) {
            Outlook {
                outputs: self.outputs.insert(
                    name,
                    OutputData {
                        pending: Some(DisplayOrientation::of_number(raw)),
                        ..self.outputs[name]
                    },
                ),
                ..self
            }
        } else {
            self
        }
    }

    /// After an output put in force what it announced.
    pub open spec fn after_done(self, name: u32) -> Outlook {
        if self.outputs.contains_key(name) && self.outputs[name].pending is Some {
            let taken = Outlook {
                outputs: self.outputs.insert(
                    name,
                    OutputData { pending: None, ..self.outputs[name] },
                ),
                ..self
            };
            taken.after_commit(name, self.outputs[name].pending->0)
        } else {
            self
        }
    }

    /// What is reported when `self` turns into `after`: the new report, if it is
    /// another than the last.
    pub open spec fn report(self, after: Outlook) -> Option<DisplayOrientation> {
        if after.last != self.last {
            after.last
        } else {
            None
        }
    }
}

/// The listener's books.
#[derive(Debug)]
pub struct DispatchState {
    pub outputs: HashMap<u32, OutputData>,
    pub last_emitted: Option<DisplayOrientation>,
    pub initial_enumeration_complete: bool,
}

impl View for DispatchState {
    type V = Outlook;

    open spec fn view(&self) -> Outlook {
        Outlook {
            outputs: self.outputs@,
            last: self.last_emitted,
            complete: self.initial_enumeration_complete,
        }
    }
}

impl DispatchState {
    /// What ought to be reported has been.
    pub open spec fn wf(self) -> bool {
        self@.sound()
    }

    /// Nothing yet.
    pub fn new() -> (state: DispatchState)
        ensures
            state.wf(),
            state@ == Outlook::initial(),
    {
        let state = DispatchState {
            outputs: HashMap::new(),
            last_emitted: None,
            initial_enumeration_complete: false,
        };
        assert(state@ =~= Outlook::initial());
        state
    }

    /// Reports an orientation, unless it was reported last. Of the outputs nothing
    /// changes. What ought to be reported stays so where it is this.
    pub fn emit(&mut self, orientation: DisplayOrientation) -> (report: Option<DisplayOrientation>)
        ensures
            final(self)@ == old(self)@.after_emit(orientation),
            report == old(self)@.report(final(self)@),
            report == (if old(self)@.last == Some(orientation) {
                None
            } else {
                Some(orientation)
            }),
            old(self)@.outputs.dom().finite() && (old(self)@.wanted() is None
                || old(self)@.wanted() == Some(orientation)) ==> final(self).wf(),
    {
        let again = match self.last_emitted {
            Some(last) => last == orientation,
            None => false,
        };
        if again {
            assert(self@ =~= old(self)@.after_emit(orientation));
            None
        } else {
            self.last_emitted = Some(orientation);
            assert(self@ =~= old(self)@.after_emit(orientation));
            Some(orientation)
        }
    }

    /// The orientation of the only output.
    fn sole_orientation(&self) -> (orientation: Option<DisplayOrientation>)
        requires
            self@.outputs.dom().finite(),
            self@.outputs.len() == 1,
        ensures
            orientation == self@.outputs[self@.outputs.dom().choose()].current,
    {
        for output in outputs: self.outputs.values()
            invariant
                outputs.index() == 0,
                outputs.seq().len() == 1,
                outputs.seq().unref().to_set() == self.outputs@.values(),
                self@.outputs.dom().finite(),
                self@.outputs.len() == 1,
        {
            proof {
                let found = *output;
                assert(outputs.seq()[0] == output);
                assert(outputs.seq().unref()[0] == found);
                assert(outputs.seq().unref().to_set().contains(found));
                assert(self.outputs@.values().contains(found));
                let name = choose|name: u32|
                    self.outputs@.dom().contains(name) && #[trigger] self.outputs@[name] == found;
                let chosen = self.outputs@.dom().choose();
                if name != chosen {
                    let rest = self.outputs@.dom().remove(name);
                    assert(rest.len() == 0);
                    assert(rest.contains(chosen));
                    assert(rest =~= Set::empty());
                }
            }
            return output.current;
        }
        None
    }

    /// Takes note of a new output.
    pub fn add_output(&mut self, name: u32) -> (report: Option<DisplayOrientation>)
        requires
            old(self).wf(),
        ensures
            final(self).wf(),
            final(self)@ == old(self)@.after_add(name),
            report == old(self)@.report(final(self)@),
    {
        self.outputs.insert(name, OutputData { pending: None, current: None });
        proof {
            lemma_adding(old(self)@, name);
        }
        if self.initial_enumeration_complete && self.outputs.len() == 2 {
            self.emit(DisplayOrientation::Rotate0)
        } else {
            assert(self@ =~= old(self)@.after_add(name));
            None
        }
    }

    /// Takes note that an output is gone.
    pub fn remove_output(&mut self, name: u32) -> (report: Option<DisplayOrientation>)
        requires
            old(self).wf(),
        ensures
            final(self).wf(),
            final(self)@ == old(self)@.after_remove(name),
            report == old(self)@.report(final(self)@),
    {
        let known = self.outputs.remove(&name);
        proof {
            lemma_removing(old(self)@, name);
        }
        if known.is_none() {
            assert(self@ =~= old(self)@.after_remove(name));
            return None;
        }
        if self.initial_enumeration_complete && self.outputs.len() == 1 {
            if let Some(orientation) = self.sole_orientation() {
                return self.emit(orientation);
            }
        }
        assert(self@ =~= old(self)@.after_remove(name));
        None
    }

    /// Takes note of an output's orientation.
    pub fn commit_transform(&mut self, name: u32, orientation: DisplayOrientation) -> (report:
        Option<DisplayOrientation>)
        requires
            old(self).wf(),
        ensures
            final(self).wf(),
            final(self)@ == old(self)@.after_commit(name, orientation),
            report == old(self)@.report(final(self)@),
    {
        let known: Option<OutputData> = match self.outputs.get(&name) {
            Some(output) => Some(*output),
            None => None,
        };
        let Some(output) = known else {
            return None;
        };
        self.outputs.insert(
            name,
            OutputData { pending: output.pending, current: Some(orientation) },
        );
        proof {
            lemma_committing(old(self)@, name, orientation);
        }
        if self.initial_enumeration_complete && self.outputs.len() == 1 {
            self.emit(orientation)
        } else {
            assert(self@ =~= old(self)@.after_commit(name, orientation));
            None
        }
    }

    /// Takes note that every first output has been announced.
    pub fn finish_initial_enumeration(&mut self) -> (report: Option<DisplayOrientation>)
        requires
            old(self).wf(),
        ensures
            final(self).wf(),
            final(self)@ == old(self)@.after_enumeration(),
            report == old(self)@.report(final(self)@),
    {
        self.initial_enumeration_complete = true;
        let count: usize = self.outputs.len();
        if count == 1 {
            if let Some(orientation) = self.sole_orientation() {
                return self.emit(orientation);
            }
        } else if count >= 2 {
            return self.emit(DisplayOrientation::Rotate0);
        }
        assert(self@ =~= old(self)@.after_enumeration());
        None
    }

    /// Takes note of the transform that an output announced.
    pub fn geometry(&mut self, name: u32, raw: u32)
        requires
            old(self).wf(),
        ensures
            final(self).wf(),
            final(self)@ == old(self)@.after_geometry(name, raw),
    {
        let known: Option<OutputData> = match self.outputs.get(&name) {
            Some(output) => Some(*output),
            None => None,
        };
        if let Some(output) = known {
            self.outputs.insert(
                name,
                OutputData {
                    pending: Some(DisplayOrientation::from_number(raw)),
                    current: output.current,
                },
            );
        }
        proof {
            lemma_announcing(old(self)@, name, Some(DisplayOrientation::of_number(raw)));
        }
        assert(self@ =~= old(self)@.after_geometry(name, raw));
    }

    /// Takes note that an output put in force what it announced.
    pub fn done(&mut self, name: u32) -> (report: Option<DisplayOrientation>)
        requires
            old(self).wf(),
        ensures
            final(self).wf(),
            final(self)@ == old(self)@.after_done(name),
            report == old(self)@.report(final(self)@),
    {
        let known: Option<OutputData> = match self.outputs.get(&name) {
            Some(output) => Some(*output),
            None => None,
        };
        let Some(output) = known else {
            return None;
        };
        let Some(orientation) = output.pending else {
            return None;
        };
        self.outputs.insert(name, OutputData { pending: None, current: output.current });
        proof {
            lemma_announcing(old(self)@, name, None);
            assert(self@ =~= Outlook {
                outputs: old(self)@.outputs.insert(
                    name,
                    OutputData { pending: None, ..old(self)@.outputs[name] },
                ),
                ..old(self)@
            });
        }
        self.commit_transform(name, orientation)
    }

    /// Takes note of a global that the compositor offers: the version to bind it
    /// at, where it is an output that reports its transform, and what to report.
    pub fn global(&mut self, name: u32, interface: &str, version: u32) -> (answer: (
        Option<u32>,
        Option<DisplayOrientation>,
    ))
        requires
            old(self).wf(),
        ensures
            final(self).wf(),
            if interface@ == "wl_output"@ && version >= LEAST_OUTPUT_VERSION {
                &&& answer.0 == Some(
                    if version < LATEST_OUTPUT_VERSION {
                        version
                    } else {
                        LATEST_OUTPUT_VERSION
                    },
                )
                &&& final(self)@ == old(self)@.after_add(name)
                &&& answer.1 == old(self)@.report(final(self)@)
            } else {
                answer == (None::<u32>, None::<DisplayOrientation>) && final(self)@ == old(self)@
            },
    {
        if !same_text(interface, "wl_output") || version < LEAST_OUTPUT_VERSION {
            return (None, None);
        }
        let bound: u32 = if version < LATEST_OUTPUT_VERSION {
            version
        } else {
            LATEST_OUTPUT_VERSION
        };
        (Some(bound), self.add_output(name))
    }
}

/// Reports upright when a connection is lost, unless that was reported last.
pub fn emit_fallback_on_disconnect(last_emitted: &mut Option<DisplayOrientation>) -> (report:
    Option<DisplayOrientation>)
    ensures
        *final(last_emitted) == Some(DisplayOrientation::Rotate0),
        report == (if *old(last_emitted) == Some(DisplayOrientation::Rotate0) {
            None
        } else {
            Some(DisplayOrientation::Rotate0)
        }),
{
    if let Some(DisplayOrientation::Rotate0) = *last_emitted {
        return None;
    }
    *last_emitted = Some(DisplayOrientation::Rotate0);
    Some(DisplayOrientation::Rotate0)
}

/// How often to look for a cancellation before a lost connection is tried again.
pub fn reconnect_slices() -> (slices: u64)
    ensures
        slices * POLL_INTERVAL_MS == RECONNECT_DELAY_MS,
{
    RECONNECT_DELAY_MS / POLL_INTERVAL_MS
}

/// What to do once the wait for the connection is over.
#[derive(Clone, Copy, Debug, PartialEq, Eq, Structural)]
pub enum PollStep {
    /// The wait failed: give the connection up.
    Fail,
    /// Something came: read it.
    Read,
    /// Nothing came: look for a cancellation and wait again.
    Wait,
}

/// What to do once the wait for the connection returned `ready`.
pub fn poll_step(ready: i32) -> (step: PollStep)
    ensures
        step is Fail <==> ready < 0,
        step is Read <==> ready > 0,
        step is Wait <==> ready == 0,
{
    if ready < 0 {
        PollStep::Fail
    } else if ready > 0 {
        PollStep::Read
    } else {
        PollStep::Wait
    }
}

/// The only element of a set of one.
proof fn lemma_only(set: Set<u32>, name: u32)
    requires
        set.finite(),
        set.len() == 1,
        set.contains(name),
    ensures
        set.choose() == name,
{
    if set.choose() != name {
        let rest = set.remove(name);
        assert(rest.len() == 0);
        assert(rest.contains(set.choose()));
        assert(rest =~= Set::empty());
    }
}

proof fn lemma_adding(state: Outlook, name: u32)
    requires
        state.sound(),
    ensures
        state.after_add(name).sound(),
        ({
            let outputs = state.outputs.insert(name, OutputData { pending: None, current: None });
            &&& outputs.len() == 1 ==> outputs[outputs.dom().choose()].current is None
            &&& outputs.len() >= 1
            &&& outputs.len() >= 3 ==> state.outputs.len() >= 2
        }),
{
    let outputs = state.outputs.insert(name, OutputData { pending: None, current: None });
    assert(outputs.dom() =~= state.outputs.dom().insert(name));
    if outputs.len() == 1 {
        lemma_only(outputs.dom(), name);
    }
}

proof fn lemma_removing(state: Outlook, name: u32)
    requires
        state.sound(),
    ensures
        state.after_remove(name).sound(),
        !state.outputs.contains_key(name) ==> state.after_remove(name) == state,
        state.outputs.remove(name).len() <= state.outputs.len(),
        state.outputs.remove(name).dom().finite(),
{
    assert(state.outputs.remove(name).dom() =~= state.outputs.dom().remove(name));
    if !state.outputs.contains_key(name) {
        assert(state.outputs.remove(name) =~= state.outputs);
        assert(state.after_remove(name) =~= state);
    }
}

proof fn lemma_committing(state: Outlook, name: u32, orientation: DisplayOrientation)
    requires
        state.sound(),
        state.outputs.contains_key(name),
    ensures
        state.after_commit(name, orientation).sound(),
        ({
            let outputs = state.outputs.insert(
                name,
                OutputData { current: Some(orientation), ..state.outputs[name] },
            );
            &&& outputs.len() == state.outputs.len()
            &&& outputs.len() >= 1
            &&& outputs.len() == 1 ==> outputs.dom().choose() == name
        }),
{
    let outputs = state.outputs.insert(
        name,
        OutputData { current: Some(orientation), ..state.outputs[name] },
    );
    assert(outputs.dom() =~= state.outputs.dom());
    if outputs.len() == 0 {
        assert(outputs.dom() =~= Set::empty());
        assert(outputs.dom().contains(name));
    }
    if outputs.len() == 1 {
        lemma_only(outputs.dom(), name);
    }
}

proof fn lemma_announcing(state: Outlook, name: u32, pending: Option<DisplayOrientation>)
    requires
        state.sound(),
    ensures
        state.outputs.contains_key(name) ==> (Outlook {
            outputs: state.outputs.insert(
                name,
                OutputData { pending, ..state.outputs[name] },
            ),
            ..state
        }).sound(),
{
    if state.outputs.contains_key(name) {
        let outputs = state.outputs.insert(name, OutputData { pending, ..state.outputs[name] });
        assert(outputs.dom() =~= state.outputs.dom());
    }
}

/// Something that happens to the listener.
pub ghost enum Happening {
    Added(u32),
    Removed(u32),
    Announced(u32, u32),
    Done(u32),
    EnumerationFinished,
}

/// What the listener knows after something happened.
pub open spec fn after_happening(state: Outlook, happening: Happening) -> Outlook {
    match happening {
        Happening::Added(name) => state.after_add(name),
        Happening::Removed(name) => state.after_remove(name),
        Happening::Announced(name, raw) => state.after_geometry(name, raw),
        Happening::Done(name) => state.after_done(name),
        Happening::EnumerationFinished => state.after_enumeration(),
    }
}

/// What the listener knows after a whole history.
pub open spec fn after_history(history: Seq<Happening>) -> Outlook
    decreases history.len(),
{
    if history.len() == 0 {
        Outlook::initial()
    } else {
        after_happening(after_history(history.drop_last()), history.last())
    }
}

/// No output in any state is reflected.
pub open spec fn nothing_reflected(state: Outlook) -> bool {
    &&& forall|name: u32| #[trigger]
        state.outputs.contains_key(name) ==> {
            &&& state.outputs[name].pending matches Some(orientation) ==> !orientation.reflected()
            &&& state.outputs[name].current matches Some(orientation) ==> !orientation.reflected()
        }
    &&& state.last matches Some(orientation) ==> !orientation.reflected()
}

proof fn lemma_one_happening(state: Outlook, happening: Happening)
    requires
        state.sound(),
        nothing_reflected(state),
        !state.complete ==> state.last is None,
    ensures
        after_happening(state, happening).sound(),
        nothing_reflected(after_happening(state, happening)),
        !after_happening(state, happening).complete ==> after_happening(
            state,
            happening,
        ).last is None,
{
    match happening {
        Happening::Added(name) => {
            lemma_adding(state, name);
        },
        Happening::Removed(name) => {
            lemma_removing(state, name);
        },
        Happening::Announced(name, raw) => {
            lemma_announcing(state, name, Some(DisplayOrientation::of_number(raw)));
        },
        Happening::Done(name) => {
            if state.outputs.contains_key(name) && state.outputs[name].pending is Some {
                let taken = Outlook {
                    outputs: state.outputs.insert(
                        name,
                        OutputData { pending: None, ..state.outputs[name] },
                    ),
                    ..state
                };
                lemma_announcing(state, name, None);
                lemma_committing(taken, name, state.outputs[name].pending->0);
            }
        },
        Happening::EnumerationFinished => {},
    }
    let after = after_happening(state, happening);
    if after.outputs.dom().len() == 1 {
        assert(after.outputs.dom().contains(after.outputs.dom().choose())) by {
            if after.outputs.dom() =~= Set::empty() {
                assert(after.outputs.dom().len() == 0);
            }
        }
    }
}

/// Whatever happens, in whatever order: nothing is reported before every first
/// output has been announced; several outputs stand reported as upright, and a
/// single one with its own orientation; and no reflection is ever reported.
pub proof fn law_reports_fail_safe(history: Seq<Happening>)
    ensures
        ({
            let state = after_history(history);
            &&& state.outputs.dom().finite()
            &&& !state.complete ==> state.last is None
            &&& state.complete && state.outputs.len() >= 2 ==> state.last == Some(
                DisplayOrientation::Rotate0,
            )
            &&& forall|name: u32|
                state.complete && state.outputs.len() == 1 && #[trigger]
                state.outputs.contains_key(name) && state.outputs[name].current is Some
                    ==> state.last == state.outputs[name].current
            &&& state.last matches Some(orientation) ==> !orientation.reflected()
        }),
{
    lemma_history(history);
    let state = after_history(history);
    assert forall|name: u32|
        state.complete && state.outputs.len() == 1 && #[trigger] state.outputs.contains_key(name)
            && state.outputs[name].current is Some implies state.last
        == state.outputs[name].current by {
        lemma_only(state.outputs.dom(), name);
    }
}

proof fn lemma_history(history: Seq<Happening>)
    ensures
        after_history(history).sound(),
        nothing_reflected(after_history(history)),
        !after_history(history).complete ==> after_history(history).last is None,
    decreases history.len(),
{
    if history.len() > 0 {
        lemma_history(history.drop_last());
        lemma_one_happening(after_history(history.drop_last()), history.last());
    }
}

/// A report is never the one before it again.
pub proof fn law_no_report_twice_in_a_row(state: Outlook, happening: Happening)
    ensures
        state.report(after_happening(state, happening)) matches Some(orientation) ==> state.last
            != Some(orientation),
{
}

/// Something that is done with the listener's books: what happens is taken note of,
/// or an orientation is reported outright.
pub ghost enum Deed {
    Noted(Happening),
    Emitted(DisplayOrientation),
}

/// What the listener knows after a deed.
pub open spec fn after_deed(state: Outlook, deed: Deed) -> Outlook {
    match deed {
        Deed::Noted(happening) => after_happening(state, happening),
        Deed::Emitted(orientation) => state.after_emit(orientation),
    }
}

/// What the listener knows after a whole life.
pub open spec fn after_life(deeds: Seq<Deed>) -> Outlook
    decreases deeds.len(),
{
    if deeds.len() == 0 {
        Outlook::initial()
    } else {
        after_deed(after_life(deeds.drop_last()), deeds.last())
    }
}

/// Everything reported over a whole life, in order.
pub open spec fn reports(deeds: Seq<Deed>) -> Seq<DisplayOrientation>
    decreases deeds.len(),
{
    if deeds.len() == 0 {
        seq![]
    } else {
        let before = after_life(deeds.drop_last());
        match before.report(after_deed(before, deeds.last())) {
            Some(orientation) => reports(deeds.drop_last()).push(orientation),
            None => reports(deeds.drop_last()),
        }
    }
}

/// What is reported outright is reported exactly if it was not reported last, and
/// only once however often it is reported in a row; of the outputs nothing changes.
pub proof fn law_emitting_reports_changes(state: Outlook, orientation: DisplayOrientation)
    ensures
        state.report(state.after_emit(orientation)) == (if state.last == Some(orientation) {
            None
        } else {
            Some(orientation)
        }),
        state.after_emit(orientation).report(
            state.after_emit(orientation).after_emit(orientation),
        ) is None,
        state.after_emit(orientation).outputs == state.outputs,
        state.after_emit(orientation).complete == state.complete,
{
}

/// Over the whole life of a listener's books, whatever is done with them, no two
/// reports in a row are equal, and the last report is the one on the books.
pub proof fn law_no_equal_neighbours(deeds: Seq<Deed>, k: int)
    ensures
        1 <= k < reports(deeds).len() ==> reports(deeds)[k - 1] != reports(deeds)[k],
        after_life(deeds).last == (if reports(deeds).len() == 0 {
            None
        } else {
            Some(reports(deeds).last())
        }),
    decreases deeds.len(),
{
    if deeds.len() > 0 {
        law_no_equal_neighbours(deeds.drop_last(), k);
    }
}

/// An output that comes and goes again leaves what was there before: the only
/// output that remains is reported once more.
pub proof fn law_coming_and_going(state: Outlook, name: u32)
    requires
        state.sound(),
        !state.outputs.contains_key(name),
    ensures
        state.after_add(name).after_remove(name).outputs == state.outputs,
        state.wanted() is Some ==> state.after_add(name).after_remove(name) == state,
{
    lemma_adding(state, name);
    assert(state.outputs.insert(name, OutputData { pending: None, current: None }).remove(name)
        =~= state.outputs);
    assert(state.after_add(name).after_remove(name).outputs =~= state.outputs);
    if state.wanted() is Some {
        assert(state.after_add(name).after_remove(name) =~= state);
    }
}

/// The first four numbers are quarter turns, in order; every other number, whether a
/// reflection or unknown, counts as upright.
pub proof fn law_numbers_are_quarter_turns(raw: u32)
    ensures
        !DisplayOrientation::of_number(raw).reflected(),
        raw < 4 ==> DisplayOrientation::of_number(raw).quarters() == raw,
        raw >= 4 ==> DisplayOrientation::of_number(raw).quarters() == 0,
        raw == 1 <==> DisplayOrientation::of_number(raw) is Rotate90,
        raw == 2 <==> DisplayOrientation::of_number(raw) is Rotate180,
        raw == 3 <==> DisplayOrientation::of_number(raw) is Rotate270,
{
}

/// A reflection turns as far as the rotation that it goes with, and two orientations
/// that turn as far and are both reflected or both not are the same.
pub proof fn law_orientations_are_turn_and_reflection(
    one: DisplayOrientation,
    other: DisplayOrientation,
)
    ensures
        0 <= one.quarters() < 4,
        one.quarters() == other.quarters() && one.reflected() == other.reflected() ==> one == other,
        one is Flipped0 || one is Rotate0 ==> one.quarters() == 0,
        one is Flipped90 || one is Rotate90 ==> one.quarters() == 1,
        one is Flipped180 || one is Rotate180 ==> one.quarters() == 2,
        one is Flipped270 || one is Rotate270 ==> one.quarters() == 3,
        one is Flipped0 || one is Flipped90 || one is Flipped180 || one is Flipped270
            <==> one.reflected(),
{
}

/// An output exists: it was added, and not removed since.
pub open spec fn exists_after(history: Seq<Happening>, name: u32) -> bool
    decreases history.len(),
{
    if history.len() == 0 {
        false
    } else {
        match history.last() {
            Happening::Added(other) if other == name => true,
            Happening::Removed(other) if other == name => false,
            _ => exists_after(history.drop_last(), name),
        }
    }
}

/// The number that an output announced last, since it was added and since it last put
/// one in force.
pub open spec fn announced_after(history: Seq<Happening>, name: u32) -> Option<u32>
    decreases history.len(),
{
    if history.len() == 0 {
        None
    } else {
        match history.last() {
            Happening::Added(other) if other == name => None,
            Happening::Removed(other) if other == name => None,
            Happening::Done(other) if other == name => None,
            Happening::Announced(other, raw) if other == name => if exists_after(
                history.drop_last(),
                name,
            ) {
                Some(raw)
            } else {
                None
            },
            _ => announced_after(history.drop_last(), name),
        }
    }
}

/// The number that an output last put in force since it was added.
pub open spec fn in_force_after(history: Seq<Happening>, name: u32) -> Option<u32>
    decreases history.len(),
{
    if history.len() == 0 {
        None
    } else {
        let before = history.drop_last();
        match history.last() {
            Happening::Added(other) if other == name => None,
            Happening::Removed(other) if other == name => None,
            Happening::Done(other) if other == name && announced_after(before, name)
                is Some => announced_after(before, name),
            _ => in_force_after(before, name),
        }
    }
}

/// `orientation` is the turn that goes by this number, or upright where none does.
pub open spec fn turned_by(orientation: Option<DisplayOrientation>, number: Option<u32>) -> bool {
    match number {
        None => orientation is None,
        Some(raw) => {
            &&& orientation is Some
            &&& !orientation->0.reflected()
            &&& orientation->0.quarters() == (if raw < 4 {
                raw as int
            } else {
                0
            })
        },
    }
}

/// Whatever happens to the other outputs, and in whatever order: an output is known
/// from when it is added to when it is removed, and its orientation is the one that
/// it last put in force, as announced before. What it announced meanwhile waits.
pub proof fn law_outputs_are_as_they_announced(history: Seq<Happening>, name: u32)
    ensures
        ({
            let outputs = after_history(history).outputs;
            &&& outputs.contains_key(name) <==> exists_after(history, name)
            &&& outputs.contains_key(name) ==> {
                &&& turned_by(outputs[name].current, in_force_after(history, name))
                &&& turned_by(outputs[name].pending, announced_after(history, name))
            }
        }),
    decreases history.len(),
{
    if history.len() > 0 {
        law_outputs_are_as_they_announced(history.drop_last(), name);
        if let Happening::Announced(_, raw) = history.last() {
            law_numbers_are_quarter_turns(raw);
        }
    }
}

/// An output that announces a transform and puts it in force has it from then on,
/// and nothing changes of any other output.
pub proof fn law_announcing_takes_hold(state: Outlook, name: u32, raw: u32, other: u32)
    requires
        state.outputs.contains_key(name),
        other != name,
    ensures
        ({
            let after = state.after_geometry(name, raw).after_done(name);
            &&& after.outputs.contains_key(name)
            &&& turned_by(after.outputs[name].current, Some(raw))
            &&& after.outputs[name].pending is None
            &&& after.outputs.contains_key(other) == state.outputs.contains_key(other)
            &&& after.outputs[other] == state.outputs[other]
            &&& state.after_geometry(name, raw).outputs[name].current
                == state.outputs[name].current
            &&& state.after_geometry(name, raw).last == state.last
        }),
{
    law_numbers_are_quarter_turns(raw);
}

/// The first outputs have all been announced once that was said, and from then on.
pub proof fn law_enumeration_is_finished_once(history: Seq<Happening>)
    ensures
        after_history(history).complete <==> exists|k: int|
            0 <= k < history.len() && #[trigger] history[k] is EnumerationFinished,
    decreases history.len(),
{
    if history.len() > 0 {
        let before = history.drop_last();
        law_enumeration_is_finished_once(before);
        assert(history.last() == history[history.len() - 1]);
        if after_history(before).complete {
            let k = choose|k: int|
                0 <= k < before.len() && #[trigger] before[k] is EnumerationFinished;
            assert(history[k] is EnumerationFinished);
        }
        if exists|k: int| 0 <= k < history.len() && #[trigger] history[k] is EnumerationFinished {
            let k = choose|k: int|
                0 <= k < history.len() && #[trigger] history[k] is EnumerationFinished;
            if k < before.len() {
                assert(before[k] is EnumerationFinished);
            }
        }
    }
}

/// What is reported is what the only output put in force, and upright while there
/// are several: stated of what happened, not of what is remembered.
pub proof fn law_the_only_output_is_followed(history: Seq<Happening>, name: u32, other: u32)
    requires
        exists|k: int| 0 <= k < history.len() && #[trigger] history[k] is EnumerationFinished,
        exists_after(history, name),
    ensures
        in_force_after(history, name) is Some && (forall|any: u32|
            any != name ==> !#[trigger] exists_after(history, any)) ==> turned_by(
            after_history(history).last,
            in_force_after(history, name),
        ),
        other != name && exists_after(history, other) ==> after_history(history).last == Some(
            DisplayOrientation::Rotate0,
        ),
{
    law_enumeration_is_finished_once(history);
    law_reports_fail_safe(history);
    law_outputs_are_as_they_announced(history, name);
    law_outputs_are_as_they_announced(history, other);
    let outputs = after_history(history).outputs;
    if forall|any: u32| any != name ==> !#[trigger] exists_after(history, any) {
        assert forall|any: u32| #[trigger] outputs.contains_key(any) implies any == name by {
            law_outputs_are_as_they_announced(history, any);
        }
        assert(outputs.dom() =~= set![name]);
        assert(outputs.len() == 1);
    }
    if other != name && exists_after(history, other) {
        let rest = outputs.dom().remove(name);
        assert(rest.contains(other));
        assert(rest.len() > 0) by {
            if rest.len() == 0 {
                assert(rest =~= Set::empty());
            }
        }
    }
}

/// Where nothing ought to be reported nothing is: before the first outputs have all
/// been announced, without any output, and while the only one has put nothing in
/// force. What was reported before stands.
pub proof fn law_silence_keeps_the_last_report(state: Outlook, happening: Happening, name: u32)
    requires
        state.sound(),
    ensures
        ({
            let after = after_happening(state, happening);
            &&& !after.complete ==> after.last == state.last
            &&& after.outputs.len() == 0 ==> after.last == state.last
            &&& after.outputs.len() == 1 && after.outputs.contains_key(name)
                && after.outputs[name].current is None ==> after.last == state.last
            &&& state.report(after) == (if after.last == state.last {
                None
            } else {
                after.last
            })
        }),
{
    let after = after_happening(state, happening);
    match happening {
        Happening::Added(new) => {
            lemma_adding(state, new);
        },
        Happening::Removed(gone) => {
            lemma_removing(state, gone);
        },
        Happening::Announced(there, raw) => {
            lemma_announcing(state, there, Some(DisplayOrientation::of_number(raw)));
        },
        Happening::Done(there) => {
            if state.outputs.contains_key(there) && state.outputs[there].pending is Some {
                lemma_announcing(state, there, None);
                let taken = Outlook {
                    outputs: state.outputs.insert(
                        there,
                        OutputData { pending: None, ..state.outputs[there] },
                    ),
                    ..state
                };
                lemma_committing(taken, there, state.outputs[there].pending->0);
            }
        },
        Happening::EnumerationFinished => {},
    }
    assert(after.outputs.dom().finite());
    if after.outputs.len() == 1 && after.outputs.contains_key(name) {
        lemma_only(after.outputs.dom(), name);
    }
}

} // verus!
