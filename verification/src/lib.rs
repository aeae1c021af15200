//! Command interpretation for a wallpaper-setting command-line tool.
//!
//! The library turns one command invocation (an optional image path, an
//! override flag, a random-image flag, an optional explicit URL, an optional
//! display-mode string) into the list of wallpaper actions to perform, or a
//! validation error. Performing the actions (OS calls, network) is left to
//! the binary around the library.

pub mod mode;
pub mod path;
pub mod plan;
pub mod text;

pub use mode::ModeOption;
pub use path::{PathError, extension_of, validate_path};
pub use plan::{Action, InterpretError, Request, interpret, random_url};
pub use text::str_eq;
