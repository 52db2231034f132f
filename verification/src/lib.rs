//! Line diagnostics: turning the text that `ping` and `traceroute` print into
//! structured reports, and the reports of a run into alert statuses.

pub mod config;
pub mod decimal;
pub mod diagnostics;
pub mod notify;
pub mod pattern;
pub mod report;
pub mod runner;
pub mod text;
