//! Regular-expression find and replace over text, with the command-line
//! request model and the per-file session that drives a batch of files.
pub mod cli;
pub mod pattern;
pub mod session;
