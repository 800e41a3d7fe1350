//! The rules of the C entry points: how their arguments are checked and how
//! truth values cross the boundary.

use vstd::prelude::*;
use vstd::utf8::{decode_utf8, valid_utf8};

use crate::device_id::DeviceID;
use crate::error::{portal_domain_error, Error, GlibError, GlibErrorView};

verus! {

/// `std::str::from_utf8` on `bytes`, `None` where it fails. The contract
/// claims what std documents: it succeeds exactly on valid UTF-8, and the
/// text is what the bytes encode.
#[verifier::external_body]
fn utf8_text(bytes: &[u8]) -> (r: Option<&str>)
    ensures
        r is Some <==> valid_utf8(bytes@),
        r matches Some(s) ==> s@ == decode_utf8(bytes@),
{
    std::str::from_utf8(bytes).ok()
}

/// A C string argument, given as its bytes (without the terminating NUL),
/// or `None` for a NULL pointer: its text when the bytes are valid UTF-8,
/// else `None`.
pub fn text_argument(bytes: Option<&[u8]>) -> (r: Option<String>)
    ensures
        r is Some <==> (bytes matches Some(b) && valid_utf8(b@)),
        r matches Some(s) ==> (bytes matches Some(b) && s@ == decode_utf8(b@)),
{
    match bytes {
        None => None,
        Some(b) => match utf8_text(b) {
            Some(s) => Some(s.to_owned()),
            None => None,
        },
    }
}

/// The error for a device identifier that is NULL or not UTF-8.
pub open spec fn bad_device_id_error() -> GlibErrorView {
    portal_domain_error(Error::Failed, "device_id must be a non-NULL UTF-8 string"@)
}

/// The error for a missing SPICE session.
pub open spec fn missing_session_error() -> GlibErrorView {
    portal_domain_error(Error::Failed, "session must not be NULL"@)
}

/// The device identifier argument of `acquire_device`: the identifier when
/// it is a non-NULL UTF-8 string, else the `Failed` error of the
/// `SpiceUsbPortalError` domain.
pub fn device_id_argument(bytes: Option<&[u8]>) -> (r: Result<DeviceID, GlibError>)
    ensures
        r is Ok <==> (bytes matches Some(b) && valid_utf8(b@)),
        r matches Ok(id) ==> (bytes matches Some(b) && id@ == decode_utf8(b@)),
        r matches Err(e) ==> e@ == bad_device_id_error(),
{
    match text_argument(bytes) {
        Some(s) => Ok(DeviceID::new(s)),
        None => Err(GlibError::new(Error::Failed, "device_id must be a non-NULL UTF-8 string")),
    }
}

/// The session argument of `usbredir_new`: an error of the
/// `SpiceUsbPortalError` domain with the code `Failed` when it is NULL.
pub fn session_argument(present: bool) -> (r: Result<(), GlibError>)
    ensures
        r is Ok <==> present,
        r matches Err(e) ==> e@ == missing_session_error(),
{
    if present {
        Ok(())
    } else {
        Err(GlibError::new(Error::Failed, "session must not be NULL"))
    }
}

/// A `gboolean` read as a truth value: everything but `FALSE` (0) is true.
pub fn gboolean_to_bool(v: i32) -> (b: bool)
    ensures
        b == (v != 0),
{
    v != 0
}

/// A truth value as a `gboolean`: `TRUE` (1) or `FALSE` (0).
pub fn bool_to_gboolean(b: bool) -> (v: i32)
    ensures
        v == (if b {
            1i32
        } else {
            0i32
        }),
{
    if b {
        1
    } else {
        0
    }
}

/// A truth value survives the trip to a `gboolean` and back.
pub proof fn lemma_gboolean_round_trip(b: bool)
    ensures
        ((if b {
            1i32
        } else {
            0i32
        }) != 0) == b,
{
}

} // verus!
