//! The decision core of a camera application.
use vstd::prelude::*;

pub mod bar_layout;
pub mod bits;
pub mod blur;
pub mod config;
pub mod display_orientation;
pub mod draw;
pub mod frame;
pub mod insets;
pub mod launch;
pub mod model;
pub mod order;
pub mod pipeline;
pub mod primitive;
pub mod screen;
pub mod setup;
pub mod startup;
pub mod text;
pub mod tools;
pub mod top_bar;
pub mod uniform;
pub mod words;
pub mod zoom;

verus! {

} // verus!
