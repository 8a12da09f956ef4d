//! Windows source files into overlapping fragments, follows their scoring,
//! and decides what an interactive terminal view of the results shows.
//!
//! The library computes and decides; it neither reads files nor draws nor
//! waits. A program around it reads the files, asks a model for a score of
//! each fragment, and draws the frames that the library describes.

pub mod ai_query;
pub mod effect;
pub mod fragment;
pub mod fragment_evaluation;
pub mod fx_filter;
pub mod geometry;
pub mod highlight;
pub mod input;
pub mod pipeline;
pub mod score;
pub mod text;
pub mod theme;
pub mod tui;
