//! The state machine behind the graphical interface: which images are
//! listed, loading and loaded, what the background workers are doing, and
//! what the status line says. The window, textures, dialogs, threads and the
//! floating-point adjustment sliders live outside the verified library; they
//! hand this state the events that come back and perform the actions it
//! returns.

pub mod paths;
pub mod status;
pub mod model;
pub mod laws;
pub mod state;

pub use paths::{is_supported_extension, is_supported_image_path, is_wildcard_pattern, PathCandidate};
pub use status::GuiStatus;
pub use model::{GuiAction, GuiEvent, GuiModel, GuiState};
