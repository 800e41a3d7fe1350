//! Verified core of a bridge between spice-gtk's USB redirection and the
//! XDG Desktop USB portal.

pub mod capi_support;
pub mod device_id;
pub mod devices;
pub mod error;
pub mod usbredir;

pub use device_id::DeviceID;
pub use error::{Error, GlibError};
pub use usbredir::{Usbredir, UsbredirError, UsbredirResult};
