//! A scripting facade: the pure core behind echoing an action before it runs
//! and behind launching external programs.
//!
//! Everything here works on plain values. Printing, process creation and the
//! console calls themselves belong to the embedding program, which follows the
//! decisions made here.

pub mod console;
pub mod launch;
pub mod paths;
pub mod render;
pub mod text;
pub mod trace;

pub use crate::console::{ConsoleCall, ConsoleInit, ConsoleReply};
pub use crate::launch::{first_step, next_step, ExecMode, LaunchError, LaunchStep};
pub use crate::paths::path;
pub use crate::render::render;
pub use crate::trace::{echo, highlight, trace, trace_line};
