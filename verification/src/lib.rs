//! Library for a small media-trimming command-line tool.
//!
//! The tool cuts a 30-second clip out of a video or audio file by driving an
//! external encoder, and, for video inputs, extracts the clip's audio track
//! and removes the intermediate video clip.  Everything the tool decides —
//! argument validation, extension routing, output-file naming with collision
//! avoidance, the command lines to run, the exact status lines to print — is
//! computed and verified here.  The surrounding binary only performs the
//! filesystem probes, process launches and deletions that the session state
//! machine in [`session`] asks for, and feeds the outcomes back in.

pub mod command;
pub mod laws;
pub mod names;
pub mod numbers;
pub mod session;
pub mod text;
