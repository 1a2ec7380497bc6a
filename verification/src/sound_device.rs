//! Capture devices as the analyser sees them, and the chunks they deliver.

use vstd::prelude::*;

verus! {

/// A capture device: its system identifier, its display name and the rate at
/// which it samples.
#[derive(Debug, Clone)]
pub struct Device {
    pub id: String,
    pub name: String,
    pub samplerate: usize,
}

/// The capture devices on offer and the index of the one in use.
pub struct DeviceList {
    pub devices: Vec<Device>,
    pub index: usize,
}

/// A run of mono samples and the rate at which they were captured.
#[derive(Debug, Clone, PartialEq)]
pub struct Sound<T> {
    pub samples: Vec<T>,
    pub samplerate: usize,
}

/// `i` is the first position in `devices` whose identifier is `id`.
pub open spec fn is_first_with_id(devices: Seq<Device>, id: Seq<char>, i: int) -> bool {
    &&& 0 <= i < devices.len()
    &&& devices[i].id@ == id
    &&& forall|j: int| 0 <= j < i ==> devices[j].id@ != id
}

/// Some device in `devices` has the identifier `id`.
pub open spec fn has_id(devices: Seq<Device>, id: Seq<char>) -> bool {
    exists|i: int| 0 <= i < devices.len() && #[trigger] devices[i].id@ == id
}

impl DeviceList {
    /// The index points at a device.
    pub open spec fn well_formed(&self) -> bool {
        self.index < self.devices.len()
    }

    /// The position of the first device whose identifier is `id`, if there is
    /// one.
    pub fn position_of(devices: &Vec<Device>, id: &String) -> (found: Option<usize>)
        ensures
            match found {
                Some(i) => is_first_with_id(devices@, id@, i as int),
                None => !has_id(devices@, id@),
            },
    {
        let mut i: usize = 0;
        while i < devices.len()
            invariant
                i <= devices.len(),
                forall|j: int| 0 <= j < i ==> devices[j].id@ != id@,
            decreases devices.len() - i,
        {
            if devices[i].id == *id {
                return Some(i);
            }
            i += 1;
        }
        None
    }

    /// Lists `devices` with the default device selected: the first one whose
    /// identifier is `default_device_id`.
    pub fn new(devices: Vec<Device>, default_device_id: &String) -> (list: Self)
        requires
            has_id(devices@, default_device_id@),
        ensures
            list.devices == devices,
            is_first_with_id(devices@, default_device_id@, list.index as int),
            list.well_formed(),
    {
        let index = Self::position_of(&devices, default_device_id).unwrap();
        DeviceList { devices, index }
    }

    /// The device in use.
    pub fn device(&self) -> (device: &Device)
        requires
            self.well_formed(),
        ensures
            *device == self.devices[self.index as int],
    {
        &self.devices[self.index]
    }
}

} // verus!
