//! Verified core of the muscle-body editor: the axes that transforms act
//! along, the scan-row arithmetic of edge interpolation, and the decisions
//! made on the text typed into the editor's inputs.

pub mod axis;
pub mod input;
pub mod rows;

pub use axis::Axis;
pub use input::{parse_or_show_err, step_position};
pub use rows::row_delta;
