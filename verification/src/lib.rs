//! Verified core of a small X11 screen recorder that turns captured
//! frames into an animated GIF.
//!
//! The library holds the decisions and data transformations; capturing,
//! windowing, threads and file output live in the application around it.
#![allow(non_camel_case_types)]
#![allow(non_snake_case)]

pub mod processor;
pub mod record;
pub mod recorder;
pub mod selection;
pub mod utils;
