//! Filtering of sequencing reads by fixed-string and regular-expression
//! criteria, with the match decision and the per-worker output buffering
//! stated and proved.

pub mod args;
pub mod batch;
pub mod fixed;
pub mod laws;
pub mod predicate;
pub mod processor;
pub mod record;
pub mod regexp;
