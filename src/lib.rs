//! Line-oriented text search: select the lines that contain a literal query,
//! or that a regular expression matches, keeping their input order.
use vstd::prelude::*;

pub mod config;
pub mod pattern;
pub mod search;
pub mod text;

pub use config::Config;
pub use search::{keep_decoded, search, SearchError};
