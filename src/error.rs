//! What can end a run with a failure.

use vstd::prelude::*;

verus! {

#[derive(PartialEq, Eq, Structural, Clone, Copy, Debug)]
pub enum ErrorKind {
    /// The interface could not be created (name taken, channel unreachable).
    DeviceCreateError,
    /// The interface created could not be found by its name.
    DeviceLookupError,
    /// The interface could not be brought up.
    DeviceActivateError,
    /// The tunnel subsystem refused the private key or listen port.
    DeviceConfigureError,
    /// A peer could not be registered with the tunnel or the engine.
    PeerRegisterError,
    /// A required key file is missing or malformed.
    KeyLoadError,
    /// The host platform has no tunnel support.
    UnsupportedPlatformError,
    /// The interface could not be deleted.
    CleanupError,
    /// The interrupt handler could not be installed.
    SignalHandlerError,
    /// The exchange engine failed to start or stopped with an error.
    EngineError,
    /// The run was interrupted from outside.
    Interrupted,
}

} // verus!
