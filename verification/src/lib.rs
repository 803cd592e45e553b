//! A personal diary tool: timestamped entries in per-day log files, and the
//! state machine of a terminal pager that browses them.

pub mod command;
pub mod config;
pub mod events;
pub mod journal;
pub mod log_item;
pub mod pager;
pub mod paging_all_pager;
pub mod range;
pub mod render;
pub mod round_trip;
pub mod screen;
pub mod search;
pub mod single_date_pager;
pub mod style;
pub mod text;
pub mod time;
pub mod utils;
pub mod viewer;
