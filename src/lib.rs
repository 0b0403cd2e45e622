//! Interaction state of a small set of widgets: push and toggle buttons,
//! dials and labels. Drawing and the host's event loop live outside this
//! library; the widgets here decide how input changes their state.

pub mod button;
pub mod dial;
pub mod input;
pub mod label;

pub use button::Button;
pub use label::Label;
