//! Acquisition-to-playback orchestration for a command-line audio player.
//!
//! The crate decides; its caller acts. Every external effect (running the
//! downloader, listing the target directory, starting and stopping the player
//! and the visualizer) is described here as a plain value that the caller
//! carries out, and every outcome comes back as a plain value. What happens in
//! between is ordinary verified code:
//!
//! * [`error`]: the ways in which a run can fail, and their messages;
//! * [`process`]: command lines and exit statuses as plain data;
//! * [`acquisition`]: the downloader's command line and the reading of its exit;
//! * [`media`] and [`discovery`]: which files of a directory listing are played,
//!   and in which order;
//! * [`session`]: the state machine that plays one file;
//! * [`orchestrator`]: the sequence of sessions over the discovered files;
//! * [`preflight`] and [`settings`]: the checks and expansions made before
//!   anything is downloaded;
//! * [`pipeline`]: the whole run, from the first tool probe to the last file.

pub mod error;
pub mod process;
pub mod acquisition;
pub mod media;
pub mod session;
pub mod discovery;
pub mod preflight;
pub mod settings;
pub mod orchestrator;
pub mod pipeline;
