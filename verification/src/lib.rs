//! A launcher of bookmarks. A configuration names bookmarks and aliases; a
//! token from the command line or a line from the picker is resolved to a
//! bookmark, and what comes out is the launch to hand to the opener of the
//! system: a URL and a browser. The library decides and computes; it opens
//! nothing and reads no file.

pub mod bookmark_manager;
pub mod cli;
pub mod completion;
pub mod config;
pub mod error;
pub mod label;
pub mod launch;
pub mod laws;
pub mod name_map;
pub mod picker;
pub mod text;
pub mod url_config;

pub use bookmark_manager::BookmarkManager;
pub use cli::{Action, Args, Command};
pub use completion::{generate_fish_completion, simplify_url, Completion, Shell};
pub use config::Config;
pub use error::Error;
pub use launch::Launch;
pub use name_map::NameMap;
pub use picker::{PickerOutput, PickerRequest};
pub use url_config::UrlConfig;
