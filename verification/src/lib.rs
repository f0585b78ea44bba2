//! User-mode control library for a Windows kernel-mode driver.
//!
//! The library covers the driver lifecycle and the I/O transport layer:
//! assembling a validated driver configuration, registering and removing the
//! driver as an on-demand kernel service, managing the device handle of a
//! connection, and encoding the bit-packed control codes and fixed-size
//! buffers of the device-I/O control protocol.
//!
//! All decisions and encodings are verified here; the host process performs
//! the actual operating-system calls (service control, `CreateFileA`,
//! `DeviceIoControl`) and feeds their outcomes back into the verified state
//! machines.

pub mod channel;
pub mod codec;
pub mod config;
pub mod error;
pub mod lifecycle;

pub use channel::IoRequest;
pub use channel::WinKernelDriver;
pub use codec::Access;
pub use codec::Method;
pub use codec::io_control_code;
pub use config::DriverBuilder;
pub use config::DriverConfig;
pub use error::DriverError;
