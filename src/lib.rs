//! Upload coordination for a debuginfo archive: a metadata store keyed by
//! (Build ID, kind) and the decision procedure that tells agents whether to
//! upload, accepts uploads and marks them finished.

pub mod types;
pub mod metadata;
pub mod coordinator;
mod clock;
pub mod laws;
