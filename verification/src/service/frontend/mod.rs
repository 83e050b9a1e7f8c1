//! Input pipelines for reports from locally attached keyboards and mice.
pub mod kbd_pipeline;
pub mod mouse_pipeline;
