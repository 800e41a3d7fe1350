//! Errors of USB redirection into a SPICE session.

use vstd::prelude::*;

use crate::error::{error_domain_name, in_portal_domain, portal_domain_error, Error, GlibError, GlibErrorView};

verus! {

pub type UsbredirResult<T> = Result<T, UsbredirError>;

/// Why a USB redirection operation failed.
#[derive(Debug)]
#[non_exhaustive]
pub enum UsbredirError {
    /// spice-gtk reported an error.
    Glib(GlibError),
    /// The SPICE session is not connected.
    NotConnected,
    /// The device could not be attached to the SPICE session.
    DeviceAttachFailed,
}

/// The model of a [`UsbredirError`].
pub enum UsbredirErrorView {
    Glib(GlibErrorView),
    NotConnected,
    DeviceAttachFailed,
}

impl View for UsbredirError {
    type V = UsbredirErrorView;

    open spec fn view(&self) -> UsbredirErrorView {
        match self {
            UsbredirError::Glib(g) => UsbredirErrorView::Glib(g@),
            UsbredirError::NotConnected => UsbredirErrorView::NotConnected,
            UsbredirError::DeviceAttachFailed => UsbredirErrorView::DeviceAttachFailed,
        }
    }
}

/// The text of an error that is not spice-gtk's own.
pub open spec fn not_connected_text() -> Seq<char> {
    "the SPICE session is not connected"@
}

/// The text of a refused attachment.
pub open spec fn attach_failed_text() -> Seq<char> {
    "the device could not be attached to the SPICE session"@
}

/// The text that `Display` shows for an error.
pub open spec fn usbredir_error_text(e: UsbredirErrorView) -> Seq<char> {
    match e {
        UsbredirErrorView::Glib(g) => g.message,
        UsbredirErrorView::NotConnected => not_connected_text(),
        UsbredirErrorView::DeviceAttachFailed => attach_failed_text(),
    }
}

/// The `GError` that stands for an error, with `spice_code` the code that
/// spice-gtk's own errors are reported with: every error is one of the
/// `SpiceUsbPortalError` domain; spice-gtk's error keeps its message.
pub open spec fn glib_error_with(e: UsbredirErrorView, spice_code: Error) -> GlibErrorView {
    match e {
        UsbredirErrorView::Glib(g) => in_portal_domain(g, spice_code),
        UsbredirErrorView::NotConnected => portal_domain_error(
            Error::NotConnected,
            not_connected_text(),
        ),
        UsbredirErrorView::DeviceAttachFailed => portal_domain_error(
            Error::AttachFailed,
            attach_failed_text(),
        ),
    }
}

/// The `GError` that an error of attaching a device is reported with:
/// spice-gtk's failures to make, accept or connect the device are
/// `AttachFailed`.
pub open spec fn usbredir_glib_error(e: UsbredirErrorView) -> GlibErrorView {
    glib_error_with(e, Error::AttachFailed)
}

/// The `GError` that an error of setting up redirection is reported with:
/// spice-gtk's failure to give its USB device manager is `Failed`.
pub open spec fn usbredir_setup_glib_error(e: UsbredirErrorView) -> GlibErrorView {
    glib_error_with(e, Error::Failed)
}

impl UsbredirError {
    /// The error's text, as `Display` shows it.
    pub fn message(&self) -> (s: String)
        ensures
            s@ == usbredir_error_text(self@),
    {
        match self {
            UsbredirError::Glib(g) => g.message.clone(),
            UsbredirError::NotConnected => "the SPICE session is not connected".to_owned(),
            UsbredirError::DeviceAttachFailed => {
                "the device could not be attached to the SPICE session".to_owned()
            },
        }
    }

    /// The `GError` that stands for this error, with `spice_code` the code
    /// for spice-gtk's own errors.
    fn glib_error_with(&self, spice_code: Error) -> (g: GlibError)
        ensures
            g@ == glib_error_with(self@, spice_code),
    {
        match self {
            UsbredirError::Glib(g) => g.in_portal_domain(spice_code),
            UsbredirError::NotConnected => {
                let text = self.message();
                GlibError::new(Error::NotConnected, text.as_str())
            },
            UsbredirError::DeviceAttachFailed => {
                let text = self.message();
                GlibError::new(Error::AttachFailed, text.as_str())
            },
        }
    }

    /// The `GError` that an attachment error is reported with, in the
    /// `SpiceUsbPortalError` domain: `NotConnected` and `DeviceAttachFailed`
    /// become the codes `NotConnected` and `AttachFailed` with the error's
    /// text; spice-gtk's own error becomes `AttachFailed` with its message
    /// (an error already of this domain stays as it is).
    pub fn to_glib_error(&self) -> (g: GlibError)
        ensures
            g@ == usbredir_glib_error(self@),
    {
        self.glib_error_with(Error::AttachFailed)
    }

    /// The `GError` that an error of setting up redirection is reported with,
    /// in the `SpiceUsbPortalError` domain: spice-gtk's own error becomes
    /// `Failed` with its message (an error already of this domain stays as it
    /// is); the other errors as in [`UsbredirError::to_glib_error`].
    pub fn to_setup_glib_error(&self) -> (g: GlibError)
        ensures
            g@ == usbredir_setup_glib_error(self@),
    {
        self.glib_error_with(Error::Failed)
    }
}

/// Every redirection error reaches C callers as an error of the
/// `SpiceUsbPortalError` domain, carrying the error's text; spice-gtk's
/// refusals of a device are `AttachFailed`, its failure to set up is
/// `Failed`, unless spice-gtk's error already is one of this domain.
pub proof fn lemma_errors_in_portal_domain(e: UsbredirErrorView)
    ensures
        usbredir_glib_error(e).domain == error_domain_name(),
        usbredir_setup_glib_error(e).domain == error_domain_name(),
        usbredir_glib_error(e).message == usbredir_error_text(e),
        usbredir_setup_glib_error(e).message == usbredir_error_text(e),
        e matches UsbredirErrorView::Glib(g) ==> (g.domain != error_domain_name() ==> (
        usbredir_glib_error(e).code == Error::AttachFailed.spec_code()
            && usbredir_setup_glib_error(e).code == Error::Failed.spec_code())),
{
}

impl From<GlibError> for UsbredirError {
    fn from(e: GlibError) -> (u: UsbredirError) {
        UsbredirError::Glib(e)
    }
}

impl vstd::std_specs::convert::FromSpecImpl<GlibError> for UsbredirError {
    open spec fn obeys_from_spec() -> bool {
        true
    }

    open spec fn from_spec(v: GlibError) -> UsbredirError {
        UsbredirError::Glib(v)
    }
}

} // verus!
