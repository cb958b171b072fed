//! Client-side logic of the WinRing0 kernel driver, which gives user-mode code
//! access to model-specific registers and I/O ports.
//!
//! Nothing here touches the operating system. The caller holds the driver
//! service and makes the calls on it; the client decides what is asked of the
//! driver and what the caller is told:
//!
//! - `WinRing0::new` takes the driver binary, refuses one that is not built
//!   for the host, and assembles what is registered when the service is
//!   installed;
//! - `WinRing0::open` takes the outcome of opening the service, and
//!   `WinRing0::close` says whether a handle is to be released. In between the
//!   client holds its one handle;
//! - `readMsr`, `io`, `read_io_port_byte` and `write_io_port_byte` issue the
//!   request to send, with its control code and its input, while the handle is
//!   held;
//! - `IoRequest::complete` turns the driver's reply into the result of the
//!   operation.

pub mod client;
pub mod driver;
pub mod ioctl;
pub mod request;

pub use client::WinRing0;
pub use driver::{DriverImage, InstallerDescriptor};
pub use ioctl::IOCTL;
pub use request::{IoInput, IoRequest, OlsWriteIoPortInput, Operation};
