//! An annotation engine for screenshots: drawable actions, an undo/redo
//! history, the pointer-driven interaction state machine, and the display
//! list that a renderer paints, all with machine-checked contracts.

pub mod action;
pub mod color;
pub mod display;
pub mod geometry;
pub mod history;
pub mod menu;
pub mod painter;
pub mod raster;
pub mod state;
pub mod transform;

pub use action::{Action, Selection};
pub use color::Color;
pub use display::DrawCommand;
pub use geometry::{Point, Size};
pub use history::History;
pub use menu::{Command, Transformation};
pub use painter::{CursorKind, DrawingWidget, Event, Gesture, Key, Mode, Reaction};
pub use state::{AppState, Args};
pub use transform::Transform;
