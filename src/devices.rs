//! Input devices: which ones receive the transform, and what became of each.

use vstd::prelude::*;
use crate::error::XcbError;
use crate::text::{has_prefix, same_chars, starts_with_chars};

verus! {

/// One input device as the input extension lists it.
#[derive(Debug)]
pub struct XcbInputDevice {
    pub deviceid: u16,
    pub _type: u16,
    pub attachment: u16,
    pub enabled: bool,
    pub name: String,
}

/// All input devices of the server, in the order it listed them.
#[derive(Debug)]
pub struct XcbInputDevices {
    pub devices: Vec<XcbInputDevice>,
}

/// A device is a tablet target when its name begins with `Wacom`.
pub open spec fn is_wacom_name(name: Seq<char>) -> bool {
    has_prefix(name, "Wacom"@)
}

/// The property that holds a device's coordinate transformation.
pub open spec fn is_transform_property_name(name: Seq<char>) -> bool {
    name == "Coordinate Transformation Matrix"@
}

/// Whether a device with this name receives the transform.
pub fn is_wacom_device(name: &str) -> (r: bool)
    ensures
        r == is_wacom_name(name@),
{
    starts_with_chars(name, "Wacom")
}

/// Ids of the devices that receive the transform, in listing order.
pub open spec fn wacom_ids(s: Seq<XcbInputDevice>) -> Seq<u16>
    decreases s.len(),
{
    if s.len() == 0 {
        Seq::empty()
    } else if is_wacom_name(s.last().name@) {
        wacom_ids(s.drop_last()).push(s.last().deviceid)
    } else {
        wacom_ids(s.drop_last())
    }
}

/// Picks the devices that receive the transform.
pub fn wacom_device_ids(devices: &XcbInputDevices) -> (r: Vec<u16>)
    ensures
        r@ == wacom_ids(devices.devices@),
{
    let list = &devices.devices;
    let mut out: Vec<u16> = Vec::new();
    let mut i: usize = 0;
    while i < list.len()
        invariant
            i <= list@.len(),
            out@ == wacom_ids(list@.take(i as int)),
        decreases list@.len() - i,
    {
        proof {
            assert(list@.take(i as int + 1).drop_last() =~= list@.take(i as int));
        }
        if is_wacom_device(list[i].name.as_str()) {
            out.push(list[i].deviceid);
        }
        i = i + 1;
    }
    assert(list@.take(list@.len() as int) =~= list@);
    out
}

/// Whether a device's property list holds the transformation property.
/// Devices without it, such as a tablet's pad, are left alone.
pub fn has_transform_property(properties: &Vec<String>) -> (r: bool)
    ensures
        r == exists|i: int|
            0 <= i < properties@.len() && is_transform_property_name(
                (#[trigger] properties@[i])@,
            ),
{
    let mut i: usize = 0;
    while i < properties.len()
        invariant
            i <= properties@.len(),
            forall|j: int|
                0 <= j < i ==> !is_transform_property_name((#[trigger] properties@[j])@),
        decreases properties@.len() - i,
    {
        if same_chars(properties[i].as_str(), "Coordinate Transformation Matrix") {
            return true;
        }
        i = i + 1;
    }
    false
}

/// The input extension's version is at least 2.3, the first with the
/// hierarchy events and device properties used here.
pub fn input_version_supported(major: u16, minor: u16) -> (r: bool)
    ensures
        r == (major > 2 || (major == 2 && minor >= 3)),
{
    major > 2 || (major == 2 && minor >= 3)
}

/// What happened to one device when the transform was applied.
#[derive(Debug)]
pub enum DeviceOutcome {
    /// The transform was written.
    Updated,
    /// The device has no transformation property and was skipped.
    NoTransformProperty,
    /// Listing its properties or writing the transform failed.
    Failed(XcbError),
}

/// The outcome of applying the transform, device by device, so that one
/// failing device does not stop the others.
#[derive(Debug)]
pub struct ApplyReport {
    pub updated: Vec<u16>,
    pub skipped: Vec<u16>,
    pub failed: Vec<(u16, XcbError)>,
}

impl ApplyReport {
    /// A report on no device yet.
    pub fn new() -> (r: ApplyReport)
        ensures
            r.updated@.len() == 0,
            r.skipped@.len() == 0,
            r.failed@.len() == 0,
    {
        ApplyReport { updated: Vec::new(), skipped: Vec::new(), failed: Vec::new() }
    }

    /// Adds the outcome for one device to the list it belongs to.
    pub fn record(&mut self, device_id: u16, outcome: DeviceOutcome)
        ensures
            outcome matches DeviceOutcome::Updated ==> final(self).updated@ == old(
                self,
            ).updated@.push(device_id) && final(self).skipped@ == old(self).skipped@
                && final(self).failed@ == old(self).failed@,
            outcome matches DeviceOutcome::NoTransformProperty ==> final(self).skipped@ == old(
                self,
            ).skipped@.push(device_id) && final(self).updated@ == old(self).updated@
                && final(self).failed@ == old(self).failed@,
            outcome matches DeviceOutcome::Failed(e) ==> final(self).failed@ == old(
                self,
            ).failed@.push((device_id, e)) && final(self).updated@ == old(self).updated@
                && final(self).skipped@ == old(self).skipped@,
    {
        match outcome {
            DeviceOutcome::Updated => self.updated.push(device_id),
            DeviceOutcome::NoTransformProperty => self.skipped.push(device_id),
            DeviceOutcome::Failed(e) => self.failed.push((device_id, e)),
        }
    }

    /// Whether no device failed.
    pub fn all_succeeded(&self) -> (r: bool)
        ensures
            r == (self.failed@.len() == 0),
    {
        self.failed.len() == 0
    }
}

} // verus!
