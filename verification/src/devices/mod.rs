//! Devices seen by the USB portal: their descriptions, the handles of
//! acquired devices, and what is decided on the portal's replies.

pub mod description;
pub mod error;
pub mod events;
pub mod opened_device;
pub mod session;

pub use self::description::{DeviceDescription, UsbDeviceInfo};
pub use self::error::{DeviceError, DeviceResult, PortalFailure, UsbError};
pub use self::opened_device::{Fd, OwnedUsbDevice};
pub use self::session::Devices;
