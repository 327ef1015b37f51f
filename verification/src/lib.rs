//! A small command-line argument helper.
//!
//! An [`App`] holds the argument list of an invocation and the commands and
//! options that the program declares. It resolves the command, finds the
//! values that follow a named argument, and lays out the version, help and
//! error text of the program.
//!
//! ```
//! use ace::App;
//!
//! let args = vec!["app".to_string(), "start".to_string(), "--config".to_string(), "a.toml".to_string()];
//! let app = App::new(args)
//!     .config("app", "1.0.0")
//!     .cmd("start", "Start now")
//!     .opt("--config", "Use configuration file");
//!
//! assert_eq!(app.command().map(|c| c.as_str()), Some("start"));
//! assert_eq!(app.value("--config").unwrap(), vec!["a.toml"]);
//! assert_eq!(app.version_text(), "app version 1.0.0\n");
//! ```
//!
//! The modules:
//! - [`model`]: the state of a parser as sequences of characters, what the
//!   queries answer on it, and the laws of the answers;
//! - [`layout`]: what the texts are, and the functions that write them;
//! - [`text`]: equality of strings, and padding;
//! - [`desc`]: what may describe a command or an option;
//! - [`parser`]: the parser itself.

pub mod desc;
pub mod layout;
pub mod model;
pub mod parser;
pub mod text;

pub use parser::App;
pub use desc::AppDesc;
