//! Reconciles coverage annotations written in source comments with the
//! line hits measured by a coverage run.

pub mod annotation;
pub mod args;
pub mod builder;
pub mod check;
pub mod coverage;
pub mod diagnostic;
pub mod laws;
pub mod mark;
pub mod number;
pub mod paths;
pub mod pattern;
pub mod region;
pub mod scan;
pub mod sources;
pub mod text;
