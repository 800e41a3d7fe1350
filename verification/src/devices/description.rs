//! Immutable metadata for one USB device seen by the portal.

use vstd::prelude::*;

use crate::device_id::DeviceID;

verus! {

/// The properties that the portal reports for a device.
#[derive(Debug)]
pub struct UsbDeviceInfo {
    /// The identifier of the parent device, `None` for a root device.
    pub parent: Option<DeviceID>,
    /// Whether the device can be opened for reading.
    pub readable: bool,
    /// Whether the device can be opened for writing.
    pub writable: bool,
    /// The vendor string, for display.
    pub vendor: Option<String>,
    /// The model string, for display.
    pub model: Option<String>,
}

/// The model of [`UsbDeviceInfo`]: every property as a mathematical value.
pub struct UsbDeviceInfoView {
    pub parent: Option<Seq<char>>,
    pub readable: bool,
    pub writable: bool,
    pub vendor: Option<Seq<char>>,
    pub model: Option<Seq<char>>,
}

/// The model of a [`DeviceDescription`]: the identifier and the properties.
pub struct DeviceDescriptionView {
    pub id: Seq<char>,
    pub info: UsbDeviceInfoView,
}

/// The model of an optional string.
pub open spec fn opt_text(s: Option<String>) -> Option<Seq<char>> {
    match s {
        Some(t) => Some(t@),
        None => None,
    }
}

/// The model of an optional device identifier.
pub open spec fn opt_id(d: Option<DeviceID>) -> Option<Seq<char>> {
    match d {
        Some(i) => Some(i@),
        None => None,
    }
}

impl View for UsbDeviceInfo {
    type V = UsbDeviceInfoView;

    open spec fn view(&self) -> UsbDeviceInfoView {
        UsbDeviceInfoView {
            parent: opt_id(self.parent),
            readable: self.readable,
            writable: self.writable,
            vendor: opt_text(self.vendor),
            model: opt_text(self.model),
        }
    }
}

/// The model of a device's properties holds every property as it is.
pub proof fn lemma_info_view(i: UsbDeviceInfo)
    ensures
        i@.readable == i.readable,
        i@.writable == i.writable,
        i.vendor matches Some(v) ==> i@.vendor == Some(v@),
        i.vendor is None ==> i@.vendor is None,
        i.model matches Some(m) ==> i@.model == Some(m@),
        i.model is None ==> i@.model is None,
        i.parent matches Some(p) ==> i@.parent == Some(p@),
        i.parent is None ==> i@.parent is None,
{
}

/// A copy of an optional string.
pub fn duplicate_text(s: &Option<String>) -> (r: Option<String>)
    ensures
        opt_text(r) == opt_text(*s),
{
    match s {
        Some(t) => Some(t.clone()),
        None => None,
    }
}

impl UsbDeviceInfo {
    /// The same properties.
    pub fn duplicate(&self) -> (r: UsbDeviceInfo)
        ensures
            r@ == self@,
    {
        let parent = match &self.parent {
            Some(p) => Some(p.duplicate()),
            None => None,
        };
        UsbDeviceInfo {
            parent,
            readable: self.readable,
            writable: self.writable,
            vendor: duplicate_text(&self.vendor),
            model: duplicate_text(&self.model),
        }
    }
}

/// Immutable metadata for one device: its identifier and its properties.
#[derive(Debug)]
pub struct DeviceDescription {
    id: DeviceID,
    info: UsbDeviceInfo,
}

impl View for DeviceDescription {
    type V = DeviceDescriptionView;

    closed spec fn view(&self) -> DeviceDescriptionView {
        DeviceDescriptionView { id: self.id@, info: self.info@ }
    }
}

/// The pattern against which a model string is matched, case-insensitively,
/// to tell hubs and billboard devices apart.
pub open spec fn usb_hub_pattern() -> Seq<char> {
    r"^(usb)?\s*(\d.?\d?)?\s*(root)?\s*(\d.?\d?)?\s*(hub|billboard)\s*(device)?$"@
}

/// The hub heuristic's pattern, character by character: an optional `usb`,
/// an optional version such as `2.0`, an optional `root`, an optional second
/// version, then `hub` or `billboard` and an optional `device`, with any
/// whitespace between the parts and nothing around them.
pub proof fn lemma_hub_pattern_text()
    ensures
        usb_hub_pattern() == seq!['^', '(', 'u', 's', 'b', ')', '?', '\\', 's', '*', '(', '\\', 'd', '.', '?', '\\', 'd', '?', ')', '?', '\\', 's', '*', '(', 'r', 'o', 'o', 't', ')', '?', '\\', 's', '*', '(', '\\', 'd', '.', '?', '\\', 'd', '?', ')', '?', '\\', 's', '*', '(', 'h', 'u', 'b', '|', 'b', 'i', 'l', 'l', 'b', 'o', 'a', 'r', 'd', ')', '\\', 's', '*', '(', 'd', 'e', 'v', 'i', 'c', 'e', ')', '?', '$'],
{
    reveal_strlit(r"^(usb)?\s*(\d.?\d?)?\s*(root)?\s*(\d.?\d?)?\s*(hub|billboard)\s*(device)?$");
    assert(usb_hub_pattern() =~= seq!['^', '(', 'u', 's', 'b', ')', '?', '\\', 's', '*', '(', '\\', 'd', '.', '?', '\\', 'd', '?', ')', '?', '\\', 's', '*', '(', 'r', 'o', 'o', 't', ')', '?', '\\', 's', '*', '(', '\\', 'd', '.', '?', '\\', 'd', '?', ')', '?', '\\', 's', '*', '(', 'h', 'u', 'b', '|', 'b', 'i', 'l', 'l', 'b', 'o', 'a', 'r', 'd', ')', '\\', 's', '*', '(', 'd', 'e', 'v', 'i', 'c', 'e', ')', '?', '$']);
}

/// What the regex crate answers when `pattern` is built with
/// `RegexBuilder::case_insensitive(true)` and matched against `text` with
/// `Regex::is_match`: `None` when the pattern does not build.
pub uninterp spec fn case_insensitive_match(pattern: Seq<char>, text: Seq<char>) -> Option<bool>;

/// Builds `pattern` with `regex::RegexBuilder` (case-insensitive) and runs
/// `regex::Regex::is_match` on `text`. The contract claims only that the
/// answer is a function of the pattern and the text, named
/// [`case_insensitive_match`]; what regular expressions mean is not stated.
#[verifier::external_body]
fn regex_is_match_case_insensitive(pattern: &str, text: &str) -> (r: Option<bool>)
    ensures
        r == case_insensitive_match(pattern@, text@),
{
    match regex::RegexBuilder::new(pattern).case_insensitive(true).build() {
        Ok(re) => Some(re.is_match(text)),
        Err(_) => None,
    }
}

/// The hub heuristic's verdict on the regex crate's answer: a match is a
/// hub; no match, or a pattern that does not build, is not.
pub fn hub_verdict(match_result: Option<bool>) -> (b: bool)
    ensures
        b == (match_result == Some(true)),
{
    match match_result {
        Some(matched) => matched,
        None => false,
    }
}

/// The text that the hub heuristic looks at: the model string, or the empty
/// string when the device has none.
pub open spec fn model_text(d: DeviceDescriptionView) -> Seq<char> {
    match d.info.model {
        Some(m) => m,
        None => Seq::empty(),
    }
}

impl DeviceDescription {
    /// A description of the device `id` with the properties `info`.
    pub fn new(id: DeviceID, info: UsbDeviceInfo) -> (d: DeviceDescription)
        ensures
            d@ == (DeviceDescriptionView { id: id@, info: info@ }),
    {
        DeviceDescription { id, info }
    }

    /// The portal's identifier of the device.
    pub fn id(&self) -> (id: &DeviceID)
        ensures
            id@ == self@.id,
    {
        &self.id
    }

    /// The model string, if the portal reports one.
    pub fn model(&self) -> (m: Option<String>)
        ensures
            opt_text(m) == self@.info.model,
    {
        duplicate_text(&self.info.model)
    }

    /// The vendor string, if the portal reports one.
    pub fn vendor(&self) -> (v: Option<String>)
        ensures
            opt_text(v) == self@.info.vendor,
    {
        duplicate_text(&self.info.vendor)
    }

    /// Whether the device can be opened for reading.
    pub fn readable(&self) -> (b: bool)
        ensures
            b == self@.info.readable,
    {
        self.info.readable
    }

    /// Whether the device can be opened for writing.
    pub fn writable(&self) -> (b: bool)
        ensures
            b == self@.info.writable,
    {
        self.info.writable
    }

    /// The identifier of the parent device, `None` for a root device.
    pub fn parent_id(&self) -> (p: Option<&DeviceID>)
        ensures
            match p {
                Some(i) => self@.info.parent == Some(i@),
                None => self@.info.parent is None,
            },
    {
        match &self.info.parent {
            Some(p) => Some(p),
            None => None,
        }
    }

    /// Check heuristically if this device is likely to be an USB hub,
    /// billboard or similiar: the model string (the empty string when there is
    /// none) matches [`usb_hub_pattern`] case-insensitively.
    pub fn is_likely_usb_hub(&self) -> (b: bool)
        ensures
            b == (case_insensitive_match(usb_hub_pattern(), model_text(self@)) == Some(true)),
    {
        let model = match &self.info.model {
            Some(m) => m.clone(),
            None => String::new(),
        };
        let pattern = r"^(usb)?\s*(\d.?\d?)?\s*(root)?\s*(\d.?\d?)?\s*(hub|billboard)\s*(device)?$";
        let answer = regex_is_match_case_insensitive(pattern, model.as_str());
        hub_verdict(answer)
    }

    /// The same description.
    pub fn duplicate(&self) -> (d: DeviceDescription)
        ensures
            d@ == self@,
    {
        DeviceDescription { id: self.id.duplicate(), info: self.info.duplicate() }
    }
}

} // verus!
