//! A transactional pipeline that applies one mutation to a staged copy of a
//! disk image and writes the results back.
//!
//! - `paths`: paths as byte strings: final component, directory, extension.
//! - `compression`: the codecs, told apart by a file name's extension.
//! - `workspace`: a fresh, uniquely named staging directory per run.
//! - `pipeline`: the plan of a run and the state machine that a driver
//!   follows, one action at a time.
//! - `lifecycle`: what holds of every run: it ends, removes its workspace on
//!   every exit after creating it, writes outputs only after a successful
//!   mutation, and writes the source's path only when the output replaces it.
//!
//! The outputs are delivered by independent, overwriting steps: a block map
//! already delivered stays when a later step fails.
pub mod paths;
pub mod compression;
pub mod workspace;
pub mod pipeline;
pub mod lifecycle;
