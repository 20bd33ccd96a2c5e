//! Builds invocations of the ffmpeg transcoding tool that cut a single still
//! frame or a trimmed clip out of a video, follows the supervised run of such
//! an invocation as a state machine, and folds the events the tool reports
//! into one verdict.

pub mod availability;
pub mod command;
pub mod error;
pub mod geometry;
pub mod invocation;
pub mod outcome;
pub mod supervisor;
pub mod text;
