//! A verified core for a `cat`-style line printer: a configuration record
//! with its mutual-exclusion invariant, and the line-numbering policies
//! that turn the lines of each input source into output lines.

pub mod config;
pub mod number;
pub mod render;

pub use config::Config;
pub use number::render_number;
pub use number::render_numbered_line;
pub use render::render_all;
pub use render::render_source;
