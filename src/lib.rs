//! A small blog server's content pipeline: Markdown-with-math rendering,
//! front matter reading, template substitution, the content snapshot and the
//! decisions of the hot-reload watcher.
pub mod content;
pub mod front_matter;
pub mod markdown;
pub mod models;
pub mod template;
pub mod text;
pub mod watcher;
