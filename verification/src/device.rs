//! The table from a device's numeric identifier to its display name.

use vstd::prelude::*;

verus! {

/// A recording device that the table knows, or `Unknown`.
#[derive(Clone, Copy, Debug, PartialEq, Eq)]
pub enum Device {
    FR110,
    FR10,
    FR235,
    Edge530,
    FR745,
    Edge840,
    FR965,
    Unknown,
}

impl Device {
    /// The table itself: the device that carries the identifier `id`.
    pub open spec fn of_id(id: u16) -> Device {
        if id == 1124 {
            Device::FR110
        } else if id == 1482 {
            Device::FR10
        } else if id == 2431 {
            Device::FR235
        } else if id == 3121 {
            Device::Edge530
        } else if id == 3589 {
            Device::FR745
        } else if id == 4062 {
            Device::Edge840
        } else if id == 4315 {
            Device::FR965
        } else {
            Device::Unknown
        }
    }

    /// The display name of the device.
    pub open spec fn name(self) -> Seq<char> {
        match self {
            Device::FR110 => "FR 110"@,
            Device::FR10 => "FR 10"@,
            Device::FR235 => "FR 235"@,
            Device::Edge530 => "Edge 530"@,
            Device::FR745 => "FR 745"@,
            Device::Edge840 => "Edge 840"@,
            Device::FR965 => "FR 965"@,
            Device::Unknown => "Unknown"@,
        }
    }

    /// Looks `id` up in the table; an identifier that it does not hold
    /// gives `Unknown`.
    pub fn from_id(id: u16) -> (device: Device)
        ensures
            device == Device::of_id(id),
    {
        match id {
            1124 => Device::FR110,
            1482 => Device::FR10,
            2431 => Device::FR235,
            3121 => Device::Edge530,
            3589 => Device::FR745,
            4062 => Device::Edge840,
            4315 => Device::FR965,
            _ => Device::Unknown,
        }
    }

    /// The display name of the device.
    pub fn as_str(&self) -> (name: &'static str)
        ensures
            name@ == self.name(),
    {
        match self {
            Device::FR110 => "FR 110",
            Device::FR10 => "FR 10",
            Device::FR235 => "FR 235",
            Device::Edge530 => "Edge 530",
            Device::FR745 => "FR 745",
            Device::Edge840 => "Edge 840",
            Device::FR965 => "FR 965",
            Device::Unknown => "Unknown",
        }
    }
}

/// No device has the empty name, so a name that was set can be told from
/// one that was not.
pub proof fn lemma_device_name_not_empty(device: Device)
    ensures
        device.name().len() > 0,
{
    reveal_strlit("FR 110");
    reveal_strlit("FR 10");
    reveal_strlit("FR 235");
    reveal_strlit("Edge 530");
    reveal_strlit("FR 745");
    reveal_strlit("Edge 840");
    reveal_strlit("FR 965");
    reveal_strlit("Unknown");
}

} // verus!
