//! Settings logic of the Pop!_OS desktop widget: how the values stored in
//! GSettings map onto the switches, radio buttons and combo boxes of the
//! desktop settings pages, and how user input is written back.
use vstd::prelude::*;

pub mod text;
pub mod button_layout;
pub mod favorites;
pub mod radio;
pub mod dock;
pub mod widgets;
pub mod pages;
pub mod video;

verus! {

} // verus!
