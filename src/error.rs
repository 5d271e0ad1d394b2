//! The two kinds of failure: fatal ones end the affected phase, non-fatal
//! ones drop one event and are only reported.
use crate::config::{ControllerId, ControllerInputEvent};
use crate::types::{AbsoluteAxisType, InputEvent, KeyCode};
use vstd::prelude::*;

verus! {

/// An I/O failure, as std reports it. Carried through, never inspected.
#[verifier::external_type_specification]
#[verifier::external_body]
pub struct ExIoError(std::io::Error);

/// A failure to parse the configuration, as serde_yaml reports it. Carried
/// through, never inspected.
#[verifier::external_type_specification]
#[verifier::external_body]
pub struct ExYamlError(serde_yaml::Error);

/// A failure that aborts startup or ends the run.
#[derive(Debug)]
pub enum FatalError {
    /// Reading a device or the configuration failed.
    Io(std::io::Error),
    /// The configuration could not be parsed.
    SerdeYaml(serde_yaml::Error),
    /// No device carries this name.
    NoDeviceWithName(String),
    /// More than one device carries this name.
    TooManyDevicesWithName(String),
    /// The configuration names a device that was not opened.
    DeviceNotOpened(ControllerId),
    /// The configuration maps an axis that the device does not have.
    AxisNotPresent(ControllerId, AbsoluteAxisType),
    /// The configuration maps a key that the device does not have.
    KeyNotPresent(ControllerId, KeyCode),
}

/// A failure that drops one event; the loop goes on.
#[derive(Debug)]
pub enum NonFatalError {
    /// Writing to the synthetic device failed.
    Io(std::io::Error),
    /// The event is of a class that is not mapped (neither axis, key nor
    /// synchronization).
    UnsupportedEvent(InputEvent),
    /// The table holds no output for this input of this device.
    NoMapping(ControllerInputEvent),
}

} // verus!
