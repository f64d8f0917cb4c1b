//! A minimal immediate-mode 2D drawing library.
//!
//! Callers issue point, line and triangle commands against a fixed-size
//! canvas. The library converts pixel coordinates to normalized device
//! coordinates, carries each request as a [`DrawEvent`] from the producer
//! to the render loop, and batches the resulting vertices into contiguous
//! per-primitive runs ([`Commands`]) ready for submission to a graphics
//! pipeline. The windowing and GPU plumbing live outside this crate; what
//! stands here is the drawing logic itself, with its contracts.

mod color;
mod command;
mod context;
mod error;
mod vertex;

pub use color::Color;
pub use context::CanvasContext;
pub use context::convert_x;
pub use context::convert_y;
pub use context::lemma_convert_edges;
pub use context::lemma_convert_in_range;
pub use context::spec_convert_x;
pub use context::spec_convert_y;
pub use command::Command;
pub use command::Commands;
pub use command::DrawCall;
pub use command::DrawPrimitive;
pub use command::batch_step;
pub use command::commands_tile;
pub use command::event_primitive;
pub use command::event_vertices;
pub use command::events_vertex_total;
pub use command::lemma_append_only;
pub use command::lemma_batch_step_merges;
pub use command::lemma_command_extent;
pub use command::lemma_render_deterministic;
pub use command::lemma_runs_maximal;
pub use command::run_events;
pub use command::spec_draw_calls;
pub use error::FrameAction;
pub use error::SurfaceIssue;
pub use error::TinyPaintError;
pub use error::classify_surface_error;
pub use error::spec_classify_surface_error;
pub use vertex::DrawEvent;
pub use vertex::Ndc;
pub use vertex::Point;
pub use vertex::Vertex;
