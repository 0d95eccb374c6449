//! The file watcher "IDE": what it decides.
//!
//! A user browses the file system for a file to edit ([`browser`]). The file is
//! opened in a client that runs in a web browser, and a task of its own
//! ([`task`]) watches the file, saves what the client sends ([`message`]) and
//! serves the files that the client asks for ([`serving`]).
//!
//! Nothing here reads, writes, sends or waits. Each function takes what has
//! happened and tells what is to be done.

pub mod browser;
pub mod browser_laws;
pub mod encoding;
pub mod encoding_laws;
pub mod listing_laws;
pub mod message;
pub mod names;
pub mod path_laws;
pub mod paths;
pub mod serving;
pub mod serving_laws;
pub mod step_laws;
pub mod task;
pub mod task_laws;
pub mod task_model;
pub mod text;
pub mod view_laws;
