use vstd::prelude::*;

verus! {

/// Why a configuration, lifecycle, or channel operation failed.
///
/// Every operation of the library reports its failure to the immediate caller
/// through one of these variants; nothing is retried and no failure is fatal
/// to the process. `IoControlFailed` additionally carries the control code of
/// the failed transfer and the operating system's last-error code, captured
/// immediately after the failing call.
#[derive(Clone, Copy, Debug, PartialEq, Eq, Structural)]
pub enum DriverError {
    /// The service name was left empty when building a configuration.
    MissingIdentifier,
    /// Neither a driver image path nor raw image bytes were supplied.
    MissingImage,
    /// Writing the raw image bytes to the staging file failed.
    StagingError,
    /// Connecting to the service-control facility failed.
    ServiceManagerUnavailable,
    /// Registering the driver as a service failed (for example, a duplicate name).
    ServiceCreateFailed,
    /// Starting the freshly registered service failed; the registration remains.
    ServiceStartFailed,
    /// No service of the configured name exists.
    ServiceNotFound,
    /// Querying the run state of the service failed.
    ServiceQueryFailed,
    /// Stopping a running service failed.
    ServiceStopFailed,
    /// Deleting the service record failed.
    ServiceDeleteFailed,
    /// `open` was called while the connection already holds a device handle.
    AlreadyOpen,
    /// The operating system returned an invalid device handle.
    OpenFailed,
    /// `close` or `io` was called while the connection holds no handle.
    NotOpen,
    /// A control transfer failed; `code` is the control code sent and
    /// `last_error` the operating system's error code for the call.
    IoControlFailed { code: u32, last_error: u32 },
}

} // verus!
