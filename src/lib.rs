//! Merges several physical input devices into one synthetic device.
//!
//! The library holds the logic: the declared configuration, the capability
//! snapshot of each device, the resolution of the declarations into an
//! immutable lookup table, the output event model, and the decisions of the
//! dispatch loop. Device access, configuration parsing and the event loop
//! itself live outside it and hand it plain values.
pub mod types;
pub mod config;
pub mod error;
pub mod table;
pub mod output_event;
pub mod device;
pub mod mapping;
pub mod dispatch;
pub mod uinput;
pub mod util;
pub mod args;
