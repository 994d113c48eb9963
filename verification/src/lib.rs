//! A conformance-test harness library: a test source file declares the
//! outcome it expects on its first line, an ordered pipeline of external
//! stages is run over the file, and the observed outcome is compared with
//! the declared one.  This crate holds the verified core: the directive
//! parser, the pipeline bookkeeping, the outcome evaluator and the result
//! aggregation.  Process spawning, file discovery and terminal output live
//! in the surrounding application.

pub mod directive;
pub mod evaluate;
pub mod pipeline;
pub mod summary;
pub mod text;
