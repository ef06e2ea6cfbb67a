//! The decisions of a worker that runs commands in short-lived sandboxes:
//! which request gets a processor, what a sandbox looks like, in which order
//! its first process and its parent set it up, which mounts become
//! read-only, how the worker waits for it, and what it answers. The calls
//! into the operating system are left to the program around this library,
//! which does what the library decides and reports back what happened.
pub mod child;
pub mod command;
pub mod config;
pub mod local_runner;
pub mod mmaps;
pub mod mounts;
pub mod paths;
pub mod resource;
pub mod service;
pub mod status;
pub mod text;
