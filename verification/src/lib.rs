//! Verified core of a tray applet that watches local Codex usage: it reads the
//! `token_count` events of session logs (their text, parsed line by line as
//! JSON), adds up token usage in all, by day, by month and by model, prices it
//! at public API rates, keeps the latest rate limits, caches per-file results,
//! decides when to announce rate-limit resets and fast use, reads and writes
//! the settings text, and lays out the menu, the summary and the details page.

pub mod text;
pub mod usage;
pub mod tally;
pub mod json;
pub mod pricing;
pub mod calendar;
pub mod clock;
pub mod stats;
pub mod cache;
pub mod config;
pub mod notify;
pub mod report;
pub mod layout;
pub mod page;
