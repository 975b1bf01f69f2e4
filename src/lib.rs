//! Invoice and quote documents: the business data of one document, the
//! text transforms used while filling a LaTeX template, the build of a PDF
//! from the filled template, and the coordinator that decides when builds run
//! and which results are kept.

pub mod model;
pub mod text;
pub mod latex;
pub mod coordinator;
pub mod config;
