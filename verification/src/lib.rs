//! Core of a live device-log viewer: parsing of raw log lines, a bounded
//! in-memory store with a derived filtered view, the keyboard-driven
//! controller, the view model handed to the renderer, and the bookkeeping of
//! size-bounded log files.

pub mod clock;
pub mod controller;
pub mod error;
pub mod level;
pub mod pane;
pub mod parser;
pub mod processor;
pub mod state;
pub mod storage;
pub mod style;
pub mod text;
pub mod timing;
pub mod view;
pub mod warmup;
