//! Errors of the device side: the portal, USB access, and initialisation.

use vstd::prelude::*;

use vstd::string::StringExecFns;

use crate::error::{in_portal_domain, portal_domain_error, Error, GlibError, GlibErrorView};

verus! {

/// A failed portal request, held as the text that the portal client gives
/// it.
#[derive(Debug)]
pub struct PortalFailure {
    pub message: String,
}

impl PortalFailure {
    /// A failed request with the given text.
    pub fn new(message: String) -> (f: PortalFailure)
        ensures
            f.message@ == message@,
    {
        PortalFailure { message }
    }
}

/// A USB error reported by the portal for one device, with the portal's
/// optional explanation.
#[derive(Debug)]
pub struct UsbError {
    pub message: Option<String>,
}

impl View for UsbError {
    type V = Option<Seq<char>>;

    open spec fn view(&self) -> Option<Seq<char>> {
        match self.message {
            Some(m) => Some(m@),
            None => None,
        }
    }
}

/// The text of a USB error: its explanation, or the empty string.
pub open spec fn usb_error_text(e: Option<Seq<char>>) -> Seq<char> {
    match e {
        Some(m) => m,
        None => Seq::empty(),
    }
}

impl UsbError {
    /// A USB error with the given explanation.
    pub fn new(message: Option<String>) -> (e: UsbError)
        ensures
            e.message == message,
    {
        UsbError { message }
    }

    /// The error's text: its explanation, or the empty string when it has
    /// none.
    pub fn message_text(&self) -> (s: String)
        ensures
            s@ == usb_error_text(self@),
    {
        match &self.message {
            Some(m) => m.clone(),
            None => String::new(),
        }
    }

    /// The same error.
    pub fn duplicate(&self) -> (e: UsbError)
        ensures
            e@ == self@,
    {
        match &self.message {
            Some(m) => UsbError { message: Some(m.clone()) },
            None => UsbError { message: None },
        }
    }
}

pub type DeviceResult<T> = Result<T, DeviceError>;

/// Why an operation on the portal's devices failed.
#[derive(Debug)]
#[non_exhaustive]
pub enum DeviceError {
    /// The portal request failed.
    Portal(PortalFailure),
    /// The portal could not give access to the device.
    Usb(UsbError),
    /// The portal session could not be set up.
    Init(GlibError),
}

/// The model of a [`DeviceError`]; the portal's own error stays as it is.
pub enum DeviceErrorView {
    Portal(Seq<char>),
    Usb(Option<Seq<char>>),
    Init(GlibErrorView),
}

impl View for DeviceError {
    type V = DeviceErrorView;

    open spec fn view(&self) -> DeviceErrorView {
        match self {
            DeviceError::Portal(e) => DeviceErrorView::Portal(e.message@),
            DeviceError::Usb(e) => DeviceErrorView::Usb(e@),
            DeviceError::Init(g) => DeviceErrorView::Init(g@),
        }
    }
}

/// The text that introduces an initialisation error.
pub open spec fn init_error_prefix() -> Seq<char> {
    "Initialization error: "@
}

/// The `GError` that stands for a device error.
pub open spec fn device_glib_error(e: DeviceErrorView) -> GlibErrorView {
    match e {
        DeviceErrorView::Portal(m) => portal_domain_error(Error::Portal, m),
        DeviceErrorView::Usb(u) => portal_domain_error(Error::Usb, usb_error_text(u)),
        DeviceErrorView::Init(g) => in_portal_domain(g, Error::Portal),
    }
}

impl DeviceError {
    /// The error's text, as `Display` shows it. A USB error shows its
    /// explanation (or nothing); an initialisation error shows
    /// `Initialization error: ` and the `GError`'s message; a portal error
    /// shows its own text.
    pub fn message(&self) -> (s: String)
        ensures
            self matches DeviceError::Portal(p) ==> s@ == p.message@,
            self matches DeviceError::Usb(u) ==> s@ == usb_error_text(u@),
            self matches DeviceError::Init(g) ==> s@ == init_error_prefix() + g.message@,
    {
        match self {
            DeviceError::Usb(e) => e.message_text(),
            DeviceError::Portal(e) => e.message.clone(),
            DeviceError::Init(g) => {
                let prefix = "Initialization error: ".to_owned();
                let mut s = prefix;
                s.append(g.message.as_str());
                s
            },
        }
    }

    /// The `GError` that stands for this error: a portal error and a USB
    /// error become errors of the `SpiceUsbPortalError` domain with the codes
    /// `Portal` and `Usb` and the error's text as message; an initialisation
    /// error is its own `GError` when that is of the `SpiceUsbPortalError`
    /// domain, else the code `Portal` with the `GError`'s message.
    pub fn to_glib_error(&self) -> (g: GlibError)
        ensures
            g@ == device_glib_error(self@),
    {
        match self {
            DeviceError::Portal(_) => {
                let text = self.message();
                GlibError::new(Error::Portal, text.as_str())
            },
            DeviceError::Usb(_) => {
                let text = self.message();
                GlibError::new(Error::Usb, text.as_str())
            },
            DeviceError::Init(g) => g.in_portal_domain(Error::Portal),
        }
    }
}

impl From<PortalFailure> for DeviceError {
    fn from(e: PortalFailure) -> (d: DeviceError) {
        DeviceError::Portal(e)
    }
}

impl vstd::std_specs::convert::FromSpecImpl<PortalFailure> for DeviceError {
    open spec fn obeys_from_spec() -> bool {
        true
    }

    open spec fn from_spec(v: PortalFailure) -> DeviceError {
        DeviceError::Portal(v)
    }
}

impl From<UsbError> for DeviceError {
    fn from(e: UsbError) -> (d: DeviceError) {
        DeviceError::Usb(e)
    }
}

impl vstd::std_specs::convert::FromSpecImpl<UsbError> for DeviceError {
    open spec fn obeys_from_spec() -> bool {
        true
    }

    open spec fn from_spec(v: UsbError) -> DeviceError {
        DeviceError::Usb(v)
    }
}

/// Every device error reaches C callers as an error of the
/// `SpiceUsbPortalError` domain, carrying the error's own message.
pub proof fn lemma_device_errors_in_portal_domain(e: DeviceErrorView)
    ensures
        device_glib_error(e).domain == crate::error::error_domain_name(),
        e matches DeviceErrorView::Portal(m) ==> device_glib_error(e).message == m,
        e matches DeviceErrorView::Usb(u) ==> device_glib_error(e).message == usb_error_text(u),
        e matches DeviceErrorView::Init(g) ==> device_glib_error(e).message == g.message,
{
}

/// The `GError` that a failed portal setup is reported with: the code
/// `Portal` of the `SpiceUsbPortalError` domain, with the failure's text as
/// message.
pub fn portal_init_error(e: &PortalFailure) -> (g: GlibError)
    ensures
        g@ == portal_domain_error(Error::Portal, e.message@),
{
    GlibError::new(Error::Portal, e.message.as_str())
}

} // verus!
