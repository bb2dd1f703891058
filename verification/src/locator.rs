//! Which of the attached devices is the one to control.

use vstd::prelude::*;
use crate::outcome::UsbError;

verus! {

/// The vendor and product identifiers of the kind of device to control.
#[derive(Clone, Copy, Debug, PartialEq, Eq, Structural)]
pub struct DeviceIdentity {
    pub vendor_id: u16,
    pub product_id: u16,
}

/// What one attached device answers when it is examined: its descriptor, or
/// the error of reading it, and whether it can be opened.
#[derive(Clone, Copy, Debug, PartialEq, Eq)]
pub struct Probe {
    pub descriptor: Result<DeviceIdentity, UsbError>,
    pub open: Result<(), UsbError>,
}

impl Probe {
    /// The descriptor can be read and shows the wanted identity.
    pub open spec fn matches(self, identity: DeviceIdentity) -> bool {
        self.descriptor == Ok::<DeviceIdentity, UsbError>(identity)
    }

    /// The device has the wanted identity and can be opened.
    pub open spec fn yields(self, identity: DeviceIdentity) -> bool {
        self.matches(identity) && self.open is Ok
    }
}

/// No device before `end` has the wanted identity and opens.
pub open spec fn none_yields(probes: Seq<Probe>, identity: DeviceIdentity, end: int) -> bool {
    forall|j: int| 0 <= j < end && j < probes.len() ==> !(#[trigger] probes[j]).yields(identity)
}

/// `device` is the first device, in enumeration order, that has the wanted
/// identity and opens.
pub open spec fn is_first_yield(probes: Seq<Probe>, identity: DeviceIdentity, device: int) -> bool {
    &&& 0 <= device < probes.len()
    &&& probes[device].yields(identity)
    &&& none_yields(probes, identity, device)
}

/// Some device has the wanted identity and opens.
pub open spec fn some_yields(probes: Seq<Probe>, identity: DeviceIdentity) -> bool {
    exists|j: int| 0 <= j < probes.len() && (#[trigger] probes[j]).yields(identity)
}

/// The device that a scan of `probes` hands out: the first one, in
/// enumeration order, whose descriptor can be read, shows `identity`, and
/// which opens. A device that cannot be read or opened is passed over.
pub fn find_device(probes: &Vec<Probe>, identity: DeviceIdentity) -> (found: Option<usize>)
    ensures
        match found {
            Some(device) => is_first_yield(probes@, identity, device as int),
            None => none_yields(probes@, identity, probes.len() as int),
        },
        found is Some <==> some_yields(probes@, identity),
{
    let mut device: usize = 0;
    while device < probes.len()
        invariant
            device <= probes.len(),
            none_yields(probes@, identity, device as int),
        decreases probes.len() - device,
    {
        let probe = probes[device];
        let matches = match probe.descriptor {
            Ok(seen) => seen == identity,
            Err(_) => false,
        };
        if matches && probe.open.is_ok() {
            return Some(device);
        }
        device += 1;
    }
    None
}

} // verus!
