//! Renders a markdown document to a precisely-sized raster image through a
//! headless browser, and delivers the result to a file, the terminal, or a
//! browser preview.
//!
//! `markup` builds the self-contained page around the converted content;
//! `capture` is the controller of the browser protocol session, a step
//! function from phase and outcome to the next commanded action; `measure`
//! reads the rendered content extent out of the measured value; `geometry`
//! resolves viewport and display widths and the preview location; `terminal`
//! prepares captured bytes for inline display; `error` holds the failure
//! kinds.

pub mod capture;
pub mod error;
pub mod geometry;
pub mod markup;
pub mod measure;
pub mod terminal;
pub mod theme;

pub use error::MdvewError;
pub use theme::Theme;
