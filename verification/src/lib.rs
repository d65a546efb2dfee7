//! Renders a task list as a fixed-width, box-drawn, color-annotated text
//! panel: tasks are word-wrapped with hyphenation-aware breaking, classified
//! by due-date urgency, and padded so that every row of the box aligns.

pub mod errors;
pub mod render;
pub mod task;
pub mod toml_options;
pub mod urgency;
pub mod wrap;
