//! The program's modes and options, as plain values.
use vstd::prelude::*;

verus! {

/// What the program does.
#[derive(Clone, Copy, Debug, PartialEq, Eq, Structural)]
pub enum Mode {
    /// List the input devices.
    Devices,
    /// Show the keys and axes of one device.
    Properties,
    /// Merge the configured devices into the synthetic device.
    Run,
}

/// Combine multiple input devices into a single virtual device.
#[derive(Debug)]
pub struct Args {
    /// Program mode to start in.
    pub mode: Mode,
    /// Device (required in properties mode).
    pub device: Option<String>,
    /// Config file to run with.
    pub config: String,
}

} // verus!
