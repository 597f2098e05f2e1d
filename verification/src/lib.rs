//! A library for finding images by resolution.
//!
//! The library discovers image files under a set of root directories,
//! filters them by minimum pixel dimensions and an optional aspect-ratio
//! preference (wide/tall/none), and plans the copies of the surviving
//! files into a destination directory.  Everything that decides — path
//! classification, traversal aggregation, dimension filtering, destination
//! planning — lives here with a proved contract; the surrounding binary
//! performs the actual file reads, image decodes and copies.

pub mod image_preference;
pub mod filter;
pub mod text;
pub mod format;
pub mod classify;
pub mod copying;
pub mod walk;
pub mod config;
pub mod pipeline;
