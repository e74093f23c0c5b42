//! Checks that tell whether an installed Wine and the compiled host binary
//! work together, and whether a plugin host started from the desktop session
//! will find `yabridge-host.exe` on its search path.
//!
//! The checks themselves read no file and start no process. Each one is a
//! function from a state and an observation to the next state and a request,
//! so that the caller performs the request and reports back what it saw.

pub mod config;
pub mod files;
pub mod host_output;
pub mod messages;
pub mod path_setup;
pub mod process;
pub mod shell;
pub mod terminal;
pub mod text;
pub mod wine_setup;
