//! The box-model layout core of a toy browser engine: geometry algebra,
//! layout-box tree construction with anonymous-box insertion, and the
//! CSS 2.1 block-flow width, position and height algorithm.

pub mod cli;
pub mod dimensions;
pub mod dom;
pub mod dump;
pub mod flow;
pub mod inline;
pub mod laws;
pub mod layout;
pub mod layout_box;
pub mod length;
pub mod rect;
pub mod style;
