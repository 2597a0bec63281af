//! The errors that the daemon's own logic reports.
use vstd::prelude::*;

verus! {

/// What the daemon's logic refuses. Failures of I/O, of the TOML parser, of the MQTT
/// client and of the NUT client happen where that work is done, around this library.
#[derive(Clone, Copy, Debug, PartialEq, Eq, Structural)]
pub enum Error {
    /// Publisher mode was asked for without a `[nut]` section.
    NutConfigMissing,
    /// The shutdown command of a command executor is empty.
    EmptyCommand,
}

} // verus!
