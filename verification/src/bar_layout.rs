//! Which edge of the window each bar stands on.

use vstd::prelude::*;
use crate::config::ControlsPosition;
use crate::display_orientation::DisplayOrientation;
use crate::insets::BarInsets;

verus! {

/// An edge of the window.
#[derive(Clone, Copy, Debug, PartialEq, Eq, Structural)]
pub enum Edge {
    Top,
    Right,
    Bottom,
    Left,
}

/// How far the bars are turned from their upright place.
#[derive(Clone, Copy, Debug, PartialEq, Eq, Structural)]
pub enum Quarter {
    Upright,
    Cw90,
    Ccw90,
}

/// Where the bars stand. The window itself never turns, so on a display held
/// sideways the bars move to its sides.
#[derive(Clone, Copy, Debug, PartialEq, Eq, Structural)]
pub struct BarLayout {
    pub top_bar: Edge,
    pub bottom_bar: Edge,
    pub quarter: Quarter,
}

/// The bars at top and bottom.
pub open spec fn upright_layout() -> BarLayout {
    BarLayout { top_bar: Edge::Top, bottom_bar: Edge::Bottom, quarter: Quarter::Upright }
}

/// The bottom bar at the left.
pub open spec fn left_layout() -> BarLayout {
    BarLayout { top_bar: Edge::Right, bottom_bar: Edge::Left, quarter: Quarter::Cw90 }
}

/// The bottom bar at the right.
pub open spec fn right_layout() -> BarLayout {
    BarLayout { top_bar: Edge::Left, bottom_bar: Edge::Right, quarter: Quarter::Ccw90 }
}

/// Where the bars stand on a display of this orientation: the bottom bar by the
/// edge that is the device's own bottom. Upside down counts as upright.
pub open spec fn oriented_layout(orientation: DisplayOrientation) -> BarLayout {
    if orientation.quarters() == 1 {
        left_layout()
    } else if orientation.quarters() == 3 {
        right_layout()
    } else {
        upright_layout()
    }
}

/// Where the bars stand: a chosen side overrides the display's orientation.
pub open spec fn placed_layout(
    position: ControlsPosition,
    orientation: DisplayOrientation,
) -> BarLayout {
    match position {
        ControlsPosition::Bottom => oriented_layout(orientation),
        ControlsPosition::Left => left_layout(),
        ControlsPosition::Right => right_layout(),
    }
}

/// Where the bars stand on a display of this orientation.
pub fn bar_layout(orientation: DisplayOrientation) -> (layout: BarLayout)
    ensures
        layout == oriented_layout(orientation),
{
    match orientation {
        DisplayOrientation::Rotate90 | DisplayOrientation::Flipped90 => BarLayout {
            top_bar: Edge::Right,
            bottom_bar: Edge::Left,
            quarter: Quarter::Cw90,
        },
        DisplayOrientation::Rotate270 | DisplayOrientation::Flipped270 => BarLayout {
            top_bar: Edge::Left,
            bottom_bar: Edge::Right,
            quarter: Quarter::Ccw90,
        },
        _ => BarLayout {
            top_bar: Edge::Top,
            bottom_bar: Edge::Bottom,
            quarter: Quarter::Upright,
        },
    }
}

/// Where the bars stand, with the user's choice.
pub fn controls_bar_layout(
    position: ControlsPosition,
    orientation: DisplayOrientation,
) -> (layout: BarLayout)
    ensures
        layout == placed_layout(position, orientation),
{
    match position {
        ControlsPosition::Bottom => bar_layout(orientation),
        ControlsPosition::Left => bar_layout(DisplayOrientation::Rotate90),
        ControlsPosition::Right => bar_layout(DisplayOrientation::Rotate270),
    }
}

impl BarLayout {
    /// The bars stand at the sides.
    pub open spec fn sideways(self) -> bool {
        !(self.quarter is Upright)
    }

    /// Whether the bars stand at the sides.
    pub fn is_sideways(&self) -> (answer: bool)
        ensures
            answer == self.sideways(),
    {
        !matches!(self.quarter, Quarter::Upright)
    }
}

/// Whether a column of controls at the side runs from what was its trailing end,
/// to mirror the one at the other side.
pub fn sideways_column_reverses(quarter: Quarter) -> (answer: bool)
    ensures
        answer == (quarter is Ccw90),
{
    matches!(quarter, Quarter::Ccw90)
}

/// Whether the capture area is as high as its lane: a stack of controls at the
/// side is higher, and sizes to what it holds.
pub fn capture_area_height_is_fixed(sideways: bool, recording_layout: bool) -> (answer: bool)
    ensures
        answer == !(sideways && recording_layout),
{
    !(sideways && recording_layout)
}

/// How long a bar is along an axis.
#[derive(Clone, Copy, Debug, PartialEq, Eq, Structural)]
pub enum BarLength {
    /// As long as the window.
    Fill,
    /// The bar's own thickness.
    Thickness,
}

/// Width and height of a bar: along the window's edge it fills, across it has
/// its own thickness.
pub fn bar_cross_lengths(sideways: bool) -> (lengths: (BarLength, BarLength))
    ensures
        lengths == (if sideways {
            (BarLength::Thickness, BarLength::Fill)
        } else {
            (BarLength::Fill, BarLength::Thickness)
        }),
{
    if sideways {
        (BarLength::Thickness, BarLength::Fill)
    } else {
        (BarLength::Fill, BarLength::Thickness)
    }
}

/// What the bars take from each side: a bar is as thick on every edge, and only
/// its edge differs.
pub open spec fn edge_insets<T>(layout: BarLayout, top: T, bottom: T, nothing: T) -> BarInsets<T> {
    if layout.top_bar is Left && layout.bottom_bar is Right {
        BarInsets { top: nothing, right: bottom, bottom: nothing, left: top }
    } else if layout.top_bar is Right && layout.bottom_bar is Left {
        BarInsets { top: nothing, right: top, bottom: nothing, left: bottom }
    } else {
        BarInsets { top, right: nothing, bottom, left: nothing }
    }
}

/// What the bars take from each side, for bars so thick.
pub fn map_bar_insets<T: Copy>(layout: BarLayout, top: T, bottom: T, nothing: T) -> (insets:
    BarInsets<T>)
    ensures
        insets == edge_insets(layout, top, bottom, nothing),
{
    match (layout.top_bar, layout.bottom_bar) {
        (Edge::Left, Edge::Right) => BarInsets {
            top: nothing,
            right: bottom,
            bottom: nothing,
            left: top,
        },
        (Edge::Right, Edge::Left) => BarInsets {
            top: nothing,
            right: top,
            bottom: nothing,
            left: bottom,
        },
        _ => BarInsets { top, right: nothing, bottom, left: nothing },
    }
}

/// How a layer that is pinned to an edge is aligned.
#[derive(Clone, Copy, Debug, PartialEq, Eq, Structural)]
pub enum Align {
    Start,
    Center,
    End,
}

/// Horizontal and vertical alignment of a bar at an edge: against it, and in the
/// middle along it.
pub open spec fn edge_alignment(edge: Edge) -> (Align, Align) {
    match edge {
        Edge::Top => (Align::Center, Align::Start),
        Edge::Bottom => (Align::Center, Align::End),
        Edge::Left => (Align::Start, Align::Center),
        Edge::Right => (Align::End, Align::Center),
    }
}

/// Horizontal and vertical alignment of a bar at an edge.
pub fn pin_to_edge(edge: Edge) -> (alignment: (Align, Align))
    ensures
        alignment == edge_alignment(edge),
{
    match edge {
        Edge::Top => (Align::Center, Align::Start),
        Edge::Bottom => (Align::Center, Align::End),
        Edge::Left => (Align::Start, Align::Center),
        Edge::Right => (Align::End, Align::Center),
    }
}

/// The opposite edge.
pub open spec fn opposite(edge: Edge) -> Edge {
    match edge {
        Edge::Top => Edge::Bottom,
        Edge::Bottom => Edge::Top,
        Edge::Left => Edge::Right,
        Edge::Right => Edge::Left,
    }
}

/// Wherever the bars stand, they stand at opposite edges, and at the sides if
/// and only if they are turned.
pub proof fn law_bars_face_each_other(
    position: ControlsPosition,
    orientation: DisplayOrientation,
)
    ensures
        ({
            let layout = placed_layout(position, orientation);
            &&& layout.bottom_bar == opposite(layout.top_bar)
            &&& layout.sideways() <==> (layout.bottom_bar is Left || layout.bottom_bar is Right)
        }),
{
}

/// Turning the display one way or the other mirrors the bars left to right.
pub proof fn law_turns_mirror_each_other<T>(top: T, bottom: T, nothing: T)
    ensures
        ({
            let one = edge_insets(
                oriented_layout(DisplayOrientation::Rotate90),
                top,
                bottom,
                nothing,
            );
            let other = edge_insets(
                oriented_layout(DisplayOrientation::Rotate270),
                top,
                bottom,
                nothing,
            );
            &&& one.left == other.right
            &&& one.right == other.left
            &&& one.top == nothing && one.bottom == nothing
            &&& other.top == nothing && other.bottom == nothing
        }),
        edge_insets(oriented_layout(DisplayOrientation::Rotate180), top, bottom, nothing)
            == edge_insets(oriented_layout(DisplayOrientation::Rotate0), top, bottom, nothing),
{
}

/// A side that the user chose stays, whichever way up the display is.
pub proof fn law_chosen_side_stays(
    position: ControlsPosition,
    one: DisplayOrientation,
    other: DisplayOrientation,
)
    requires
        !(position is Bottom),
    ensures
        placed_layout(position, one) == placed_layout(position, other),
        placed_layout(position, one).bottom_bar is Left <==> position is Left,
{
}

/// Where each choice and each orientation puts the controls: to the side that the
/// user chose, or else to the edge that is the bottom of the device as it is held.
/// The title bar stands opposite.
pub proof fn law_where_the_bars_stand(position: ControlsPosition, orientation: DisplayOrientation)
    ensures
        ({
            let layout = placed_layout(position, orientation);
            let follows = position is Bottom;
            let at_left = position is Left || (follows && (orientation is Rotate90
                || orientation is Flipped90));
            let at_right = position is Right || (follows && (orientation is Rotate270
                || orientation is Flipped270));
            &&& layout.bottom_bar is Left <==> at_left
            &&& layout.bottom_bar is Right <==> at_right
            &&& layout.bottom_bar is Bottom <==> !at_left && !at_right
            &&& layout.top_bar is Right <==> at_left
            &&& layout.top_bar is Left <==> at_right
            &&& layout.top_bar is Top <==> !at_left && !at_right
            &&& layout.quarter is Cw90 <==> at_left
            &&& layout.quarter is Ccw90 <==> at_right
            &&& layout.sideways() <==> at_left || at_right
        }),
{
}

/// What is taken from one side.
pub open spec fn inset_at<T>(insets: BarInsets<T>, edge: Edge) -> T {
    match edge {
        Edge::Top => insets.top,
        Edge::Right => insets.right,
        Edge::Bottom => insets.bottom,
        Edge::Left => insets.left,
    }
}

/// Each bar takes its thickness from the edge that it stands on, and from no other.
pub proof fn law_bars_take_from_their_edge<T>(
    position: ControlsPosition,
    orientation: DisplayOrientation,
    top: T,
    bottom: T,
    nothing: T,
    edge: Edge,
)
    ensures
        ({
            let layout = placed_layout(position, orientation);
            let insets = edge_insets(layout, top, bottom, nothing);
            &&& inset_at(insets, layout.top_bar) == top
            &&& inset_at(insets, layout.bottom_bar) == bottom
            &&& edge != layout.top_bar && edge != layout.bottom_bar ==> inset_at(insets, edge)
                == nothing
        }),
{
}

/// A bar is pinned against its edge and centred along it, and opposite edges pin
/// opposite ways.
pub proof fn law_bars_are_pinned(edge: Edge)
    ensures
        ({
            let (across, down) = edge_alignment(edge);
            &&& edge is Left <==> across is Start
            &&& edge is Right <==> across is End
            &&& edge is Top <==> down is Start
            &&& edge is Bottom <==> down is End
            &&& across is Center <==> edge is Top || edge is Bottom
            &&& down is Center <==> edge is Left || edge is Right
        }),
{
}

} // verus!
