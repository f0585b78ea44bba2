use vstd::prelude::*;

use crate::config::DriverConfig;
use crate::error::DriverError;
use vstd::bytes::spec_u32_to_le_bytes;
use vstd::bytes::spec_u64_from_le_bytes;
use vstd::bytes::u32_to_le_bytes;
use vstd::bytes::u64_from_le_bytes;
use vstd::string::StringExecFns;

verus! {

/// One control transfer, ready for the host to hand to the operating
/// system's device-I/O facility.
///
/// The wire format is fixed by this protocol, not negotiated: the request
/// buffer is exactly the 4 bytes of the 32-bit input value in little-endian
/// order, and the response buffer is exactly [`RESPONSE_LEN`] bytes, decoded
/// as a little-endian 64-bit integer by [`WinKernelDriver::io_complete`].
#[derive(Debug, Clone)]
pub struct IoRequest {
    /// The open device handle to send the transfer to.
    pub handle: u64,
    /// The bit-packed control code of the operation.
    pub code: u32,
    /// The 4-byte request buffer: the input value in little-endian order.
    pub input: Vec<u8>,
    /// The required length of the response buffer, always [`RESPONSE_LEN`].
    pub response_len: usize,
}

/// Every control transfer answers in exactly this many bytes.
pub const RESPONSE_LEN: usize = 8;

/// A connection to the device object of a running driver.
///
/// The connection is either Closed (no handle) or Open (one handle); it may
/// be opened and closed repeatedly, but never opened twice without a close in
/// between. The handle is not internally synchronized: at most one logical
/// owner may issue calls against a connection at a time, and callers wanting
/// concurrent use must supply their own mutual exclusion.
///
/// The operating-system calls themselves are the host's: `open_request`
/// names the device to open, `open_complete` records what the host got,
/// `close` hands the handle back for release, and `io_request` /
/// `io_complete` frame and decode one control transfer.
#[derive(Debug)]
pub struct WinKernelDriver {
    /// The immutable configuration the connection was created from.
    pub config: DriverConfig,
    /// The device handle, or `None` while the connection is Closed. Written
    /// only through `open_complete` and `close`.
    pub device: Option<u64>,
}

impl WinKernelDriver {
    /// The device handle, or `None` while the connection is Closed.
    pub open spec fn handle(&self) -> Option<u64> {
        self.device
    }

    /// True iff the connection is Open.
    pub open spec fn is_open(&self) -> bool {
        self.handle() is Some
    }

    /// A Closed connection for the configured driver.
    pub fn new(config: DriverConfig) -> (r: WinKernelDriver)
        ensures
            r.config == config,
            !r.is_open(),
    {
        WinKernelDriver { config, device: None }
    }

    /// True iff the connection is Open.
    pub fn opened(&self) -> (r: bool)
        ensures
            r == self.is_open(),
    {
        match self.device {
            Some(_) => true,
            None => false,
        }
    }

    /// Begins an `open`: fails with `AlreadyOpen` while a handle is held —
    /// the held handle is untouched — and otherwise gives the device's
    /// symbolic path `\\.\<service_name>` for the host to open with
    /// read-write access, no sharing, and open-existing-only semantics.
    pub fn open_request(&self) -> (r: Result<String, DriverError>)
        ensures
            self.is_open() ==> r == Err::<String, DriverError>(DriverError::AlreadyOpen),
            !self.is_open() ==> (r matches Ok(p) && p@ == "\\\\.\\"@
                + self.config.service_name@),
    {
        if self.opened() {
            return Err(DriverError::AlreadyOpen);
        }
        let mut path = String::from_str("\\\\.\\");
        path.append(self.config.service_name.as_str());
        Ok(path)
    }

    /// Completes an `open` with what the host's call returned: `None` stands
    /// for an invalid handle and fails with `OpenFailed`, leaving the
    /// connection Closed; a handle is stored, making the connection Open.
    pub fn open_complete(&mut self, os_handle: Option<u64>) -> (r: Result<(), DriverError>)
        requires
            !old(self).is_open(),
        ensures
            final(self).config == old(self).config,
            os_handle matches Some(h) ==> r == Ok::<(), DriverError>(())
                && final(self).handle() == Some(h),
            os_handle is None ==> r == Err::<(), DriverError>(DriverError::OpenFailed)
                && !final(self).is_open(),
    {
        match os_handle {
            Some(h) => {
                self.device = Some(h);
                Ok(())
            },
            None => Err(DriverError::OpenFailed),
        }
    }

    /// Closes the connection: fails with `NotOpen` while no handle is held,
    /// leaving the connection unchanged; otherwise the connection becomes
    /// Closed and the held handle is returned for the host to release. The
    /// release itself is treated as always succeeding.
    pub fn close(&mut self) -> (r: Result<u64, DriverError>)
        ensures
            final(self).config == old(self).config,
            !old(self).is_open() ==> r == Err::<u64, DriverError>(DriverError::NotOpen)
                && final(self).handle() == old(self).handle(),
            old(self).is_open() ==> (r matches Ok(h) && old(self).handle() == Some(h)
                && !final(self).is_open()),
    {
        match self.device {
            None => Err(DriverError::NotOpen),
            Some(h) => {
                self.device = None;
                Ok(h)
            },
        }
    }

    /// Frames one control transfer: fails with `NotOpen` while no handle is
    /// held; otherwise the request carries the held handle, the control code,
    /// the input value as its 4 little-endian bytes, and the fixed 8-byte
    /// response length.
    pub fn io_request(&self, ioctl_code: u32, in_buffer: u32) -> (r: Result<
        IoRequest,
        DriverError,
    >)
        ensures
            !self.is_open() ==> r == Err::<IoRequest, DriverError>(DriverError::NotOpen),
            self.is_open() ==> (r matches Ok(q) && {
                &&& Some(q.handle) == self.handle()
                &&& q.code == ioctl_code
                &&& q.input@ == spec_u32_to_le_bytes(in_buffer)
                &&& q.response_len == RESPONSE_LEN
            }),
    {
        match self.device {
            None => Err(DriverError::NotOpen),
            Some(handle) => Ok(
                IoRequest {
                    handle,
                    code: ioctl_code,
                    input: u32_to_le_bytes(in_buffer),
                    response_len: RESPONSE_LEN,
                },
            ),
        }
    }

    /// Decodes what the host's transfer call produced: a filled response
    /// buffer decodes as a little-endian 64-bit integer; a failure, reported
    /// with the operating system's last-error code captured immediately after
    /// the call, becomes `IoControlFailed` carrying the control code sent and
    /// that error code.
    pub fn io_complete(ioctl_code: u32, outcome: Result<Vec<u8>, u32>) -> (r: Result<
        u64,
        DriverError,
    >)
        requires
            outcome matches Ok(b) ==> b@.len() == RESPONSE_LEN,
        ensures
            outcome matches Ok(b) ==> r == Ok::<u64, DriverError>(spec_u64_from_le_bytes(b@)),
            outcome matches Err(e) ==> r == Err::<u64, DriverError>(
                DriverError::IoControlFailed { code: ioctl_code, last_error: e },
            ),
    {
        match outcome {
            Ok(response) => Ok(u64_from_le_bytes(response.as_slice())),
            Err(last_error) => Err(
                DriverError::IoControlFailed { code: ioctl_code, last_error },
            ),
        }
    }
}

} // verus!
