//! A small process-orchestration bridge: it decides where a logical
//! resource is found (preferring a development-tree copy over a packaged
//! one), classifies the outcome of running that artifact (exit status,
//! captured stdout and stderr) into a payload or a diagnostic, and
//! classifies the report of a termination-signal delivery. The spawning,
//! filesystem checks and signalling themselves are the host's work; every
//! decision made on their results is verified here.

pub mod decode;
pub mod errors;
pub mod locator;
pub mod outcome;
pub mod signal;
pub mod text;
