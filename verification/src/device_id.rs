//! Identifiers that the USB portal gives its devices.

use vstd::prelude::*;

verus! {

/// A device identifier, as the USB portal hands it out.
#[derive(Debug)]
pub struct DeviceID {
    id: String,
}

impl View for DeviceID {
    type V = Seq<char>;

    open spec fn view(&self) -> Seq<char> {
        self.spec_text()
    }
}

impl DeviceID {
    /// The identifier's text.
    pub closed spec fn spec_text(&self) -> Seq<char> {
        self.id@
    }

    /// An identifier with the given text.
    pub fn new(id: String) -> (d: DeviceID)
        ensures
            d@ == id@,
    {
        DeviceID { id }
    }

    /// The identifier's text.
    pub fn as_str(&self) -> (s: &str)
        ensures
            s@ == self@,
    {
        self.id.as_str()
    }

    /// Whether two identifiers have the same text.
    pub fn same_as(&self, other: &DeviceID) -> (b: bool)
        ensures
            b == (self@ == other@),
    {
        self.id == other.id
    }

    /// The same identifier.
    pub fn duplicate(&self) -> (d: DeviceID)
        ensures
            d@ == self@,
    {
        DeviceID { id: self.id.clone() }
    }
}

} // verus!
