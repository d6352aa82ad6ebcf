//! Orchestration core of a terminal playlist front-end: actions, the mode
//! machine, key resolution, the screen components and the framing of
//! external-process output. Terminal, network and process I/O live outside.

pub mod action;
pub mod mode;
pub mod text;
pub mod keys;
pub mod process;
pub mod download;
pub mod spotify;
pub mod manager;
pub mod home;
pub mod app;
