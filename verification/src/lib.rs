//! Longwatch: a queue that submits one task to Codex, watches its turns and
//! retries at a low frequency until the task succeeds.

pub mod app_server;
pub mod backoff;
pub mod classifier;
pub mod clock;
pub mod config;
pub mod diagnostics;
pub mod digest;
pub mod folders;
pub mod gui_fallback;
pub mod json;
pub mod jsonl;
pub mod paths;
pub mod phases;
pub mod platform;
pub mod protocol;
pub mod queue;
pub mod reports;
pub mod runtime;
pub mod sessions;
pub mod text;
pub mod texts;
pub mod transport;
pub mod ui;
pub mod verdicts;
pub mod window;
