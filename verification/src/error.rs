//! The `SpiceUsbPortalError` error domain and a plain model of a `GError`.

use vstd::prelude::*;

verus! {

/// Error codes of the `SpiceUsbPortalError` domain.
///
/// The numeric code of each variant is fixed (see [`Error::code`]); C callers
/// see the same numbers.
#[derive(Debug, Clone, Copy, PartialEq, Eq, Structural)]
pub enum Error {
    /// Error reported by the XDG USB portal.
    Portal,
    /// USB-level error from the portal.
    Usb,
    /// The SPICE session is not connected.
    NotConnected,
    /// spice-gtk refused to attach the device.
    AttachFailed,
    /// Generic failure not covered by the other codes.
    Failed,
}

/// The name under which the error domain is registered.
pub open spec fn error_domain_name() -> Seq<char> {
    "SpiceUsbPortalError"@
}

impl Error {
    /// The numeric code of a variant.
    pub open spec fn spec_code(self) -> i32 {
        match self {
            Error::Portal => 0,
            Error::Usb => 1,
            Error::NotConnected => 2,
            Error::AttachFailed => 3,
            Error::Failed => 4,
        }
    }

    /// The variant that has a numeric code, if any.
    pub open spec fn spec_from_code(code: i32) -> Option<Error> {
        if code == 0 {
            Some(Error::Portal)
        } else if code == 1 {
            Some(Error::Usb)
        } else if code == 2 {
            Some(Error::NotConnected)
        } else if code == 3 {
            Some(Error::AttachFailed)
        } else if code == 4 {
            Some(Error::Failed)
        } else {
            None
        }
    }

    /// The numeric code of this error in the `SpiceUsbPortalError` domain.
    pub fn code(&self) -> (code: i32)
        ensures
            code == self.spec_code(),
    {
        match self {
            Error::Portal => 0,
            Error::Usb => 1,
            Error::NotConnected => 2,
            Error::AttachFailed => 3,
            Error::Failed => 4,
        }
    }

    /// The error for a numeric code of the domain; `None` for a code that
    /// the domain does not define.
    pub fn from_code(code: i32) -> (e: Option<Error>)
        ensures
            e == Error::spec_from_code(code),
    {
        if code == 0 {
            Some(Error::Portal)
        } else if code == 1 {
            Some(Error::Usb)
        } else if code == 2 {
            Some(Error::NotConnected)
        } else if code == 3 {
            Some(Error::AttachFailed)
        } else if code == 4 {
            Some(Error::Failed)
        } else {
            None
        }
    }

    /// The name of the error domain: `SpiceUsbPortalError`.
    pub fn domain() -> (name: String)
        ensures
            name@ == error_domain_name(),
    {
        "SpiceUsbPortalError".to_owned()
    }
}

/// The codes of the domain, as C callers see them: `Portal` 0, `Usb` 1,
/// `NotConnected` 2, `AttachFailed` 3, `Failed` 4.
pub proof fn lemma_codes_fixed()
    ensures
        Error::Portal.spec_code() == 0,
        Error::Usb.spec_code() == 1,
        Error::NotConnected.spec_code() == 2,
        Error::AttachFailed.spec_code() == 3,
        Error::Failed.spec_code() == 4,
{
}

/// The domain is named `SpiceUsbPortalError`.
pub proof fn lemma_domain_name()
    ensures
        error_domain_name() == seq!['S', 'p', 'i', 'c', 'e', 'U', 's', 'b', 'P', 'o', 'r', 't', 'a', 'l', 'E', 'r', 'r', 'o', 'r'],
{
    reveal_strlit("SpiceUsbPortalError");
    assert(error_domain_name() =~= seq!['S', 'p', 'i', 'c', 'e', 'U', 's', 'b', 'P', 'o', 'r', 't', 'a', 'l', 'E', 'r', 'r', 'o', 'r']);
}

/// Every error survives the trip through its numeric code.
pub proof fn lemma_code_round_trip(e: Error)
    ensures
        Error::spec_from_code(e.spec_code()) == Some(e),
{
}

/// A code that names an error is that error's code; the codes of the
/// domain are exactly `0..=4`.
pub proof fn lemma_from_code_is_inverse(code: i32)
    ensures
        Error::spec_from_code(code) matches Some(e) ==> e.spec_code() == code,
        Error::spec_from_code(code) is Some <==> 0 <= code <= 4,
{
}

/// Two errors with the same code are the same error.
pub proof fn lemma_codes_distinct(a: Error, b: Error)
    ensures
        a.spec_code() == b.spec_code() ==> a == b,
{
    lemma_code_round_trip(a);
    lemma_code_round_trip(b);
}

/// A `GError` held as plain values: its domain's name, its code and its
/// message.
#[derive(Debug)]
pub struct GlibError {
    pub domain: String,
    pub code: i32,
    pub message: String,
}

/// The mathematical model of a [`GlibError`].
pub struct GlibErrorView {
    pub domain: Seq<char>,
    pub code: i32,
    pub message: Seq<char>,
}

impl View for GlibError {
    type V = GlibErrorView;

    open spec fn view(&self) -> GlibErrorView {
        GlibErrorView { domain: self.domain@, code: self.code, message: self.message@ }
    }
}

/// The model of an error of the `SpiceUsbPortalError` domain.
pub open spec fn portal_domain_error(code: Error, message: Seq<char>) -> GlibErrorView {
    GlibErrorView { domain: error_domain_name(), code: code.spec_code(), message }
}

impl GlibError {
    /// An error of the `SpiceUsbPortalError` domain with the given code and
    /// message.
    pub fn new(code: Error, message: &str) -> (e: GlibError)
        ensures
            e@ == portal_domain_error(code, message@),
    {
        GlibError { domain: Error::domain(), code: code.code(), message: message.to_owned() }
    }

    /// The error of this domain whose code it carries, if it is one of this
    /// domain's errors.
    pub fn kind(&self) -> (k: Option<Error>)
        ensures
            k == (if self.domain@ == error_domain_name() {
                Error::spec_from_code(self.code)
            } else {
                None
            }),
    {
        let domain = Error::domain();
        if self.domain == domain {
            Error::from_code(self.code)
        } else {
            None
        }
    }

    /// The same error, field for field.
    pub fn duplicate(&self) -> (e: GlibError)
        ensures
            e@ == self@,
    {
        GlibError {
            domain: self.domain.clone(),
            code: self.code,
            message: self.message.clone(),
        }
    }
}

/// How an error is reported in the `SpiceUsbPortalError` domain: an error of
/// that domain as it is, any other (spice-gtk's, gio's) as the code
/// `fallback` with the other error's message.
pub open spec fn in_portal_domain(e: GlibErrorView, fallback: Error) -> GlibErrorView {
    if e.domain == error_domain_name() {
        e
    } else {
        portal_domain_error(fallback, e.message)
    }
}

impl GlibError {
    /// This error as an error of the `SpiceUsbPortalError` domain: itself when
    /// it already is one, else the code `fallback` with this error's message.
    pub fn in_portal_domain(&self, fallback: Error) -> (e: GlibError)
        ensures
            e@ == in_portal_domain(self@, fallback),
    {
        let domain = Error::domain();
        if self.domain == domain {
            self.duplicate()
        } else {
            GlibError::new(fallback, self.message.as_str())
        }
    }
}

/// Every error reported through [`in_portal_domain`] is an error of the
/// `SpiceUsbPortalError` domain and keeps its message.
pub proof fn lemma_in_portal_domain(e: GlibErrorView, fallback: Error)
    ensures
        in_portal_domain(e, fallback).domain == error_domain_name(),
        in_portal_domain(e, fallback).message == e.message,
{
}

/// An error made by [`GlibError::new`] is recognised by [`GlibError::kind`]
/// as its own code.
pub proof fn lemma_new_error_kind(code: Error, message: Seq<char>)
    ensures
        ({
            let e = portal_domain_error(code, message);
            e.domain == error_domain_name() && Error::spec_from_code(e.code) == Some(code)
        }),
{
    lemma_code_round_trip(code);
}

} // verus!
