//! A bridge that runs a companion executable with two arguments and turns
//! what the finished process reported into a success or failure text.
//!
//! The library holds the decisions: the command line to launch, which exit
//! statuses count as success, which captured stream becomes the payload and
//! how a launch error is described. Spawning the process and waiting for it
//! is left to the host, which hands the captured values back.
pub mod bridge;
pub mod laws;
pub mod text;
