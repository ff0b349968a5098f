use vstd::prelude::*;
use crate::error::PatliteError;

verus! {

/// The identifiers that a device descriptor carries.
#[derive(Clone, Copy, Debug, PartialEq, Eq, Structural)]
pub struct DeviceIds {
    pub vendor_id: u16,
    pub product_id: u16,
}

/// Whether an attached device is a candidate: its descriptor could be read
/// and carries both identifiers.
pub open spec fn is_candidate(device: Option<DeviceIds>, vid: u16, pid: u16) -> bool {
    device == Some(DeviceIds { vendor_id: vid, product_id: pid })
}

/// Whether `index` is the first candidate among the devices from `from` on.
pub open spec fn is_next_candidate(
    devices: Seq<Option<DeviceIds>>,
    vid: u16,
    pid: u16,
    from: int,
    index: int,
) -> bool {
    &&& from <= index < devices.len()
    &&& is_candidate(devices[index], vid, pid)
    &&& forall|j: int| from <= j < index ==> !is_candidate(#[trigger] devices[j], vid, pid)
}

/// Finds the device to open next. `devices` holds, in the order in which the
/// host lists them, the identifiers of each attached device, and nothing for
/// a device whose descriptor could not be read; it is empty where the host
/// cannot list its devices. The result is the position of the first candidate
/// at or after `from`. A caller that could not open it asks again from the
/// position behind it; once there is no candidate left, no device was found.
pub fn open_device(devices: &Vec<Option<DeviceIds>>, vid: u16, pid: u16, from: usize) -> (next:
    Result<usize, PatliteError>)
    ensures
        match next {
            Ok(index) => is_next_candidate(devices@, vid, pid, from as int, index as int),
            Err(error) => error == PatliteError::DeviceNotFound && forall|j: int|
                from <= j < devices@.len() ==> !is_candidate(#[trigger] devices@[j], vid, pid),
        },
{
    let mut k: usize = from;
    while k < devices.len()
        invariant
            from <= k,
            forall|j: int| from <= j < k ==> !is_candidate(#[trigger] devices@[j], vid, pid),
        decreases devices.len() - k,
    {
        match devices[k] {
            Some(ids) => {
                if ids.vendor_id == vid && ids.product_id == pid {
                    return Ok(k);
                }
            },
            None => {},
        }
        k += 1;
    }
    Err(PatliteError::DeviceNotFound)
}

/// At most one device is the next candidate, so the device to open is decided
/// by what is attached.
pub proof fn lemma_next_candidate_unique(
    devices: Seq<Option<DeviceIds>>,
    vid: u16,
    pid: u16,
    from: int,
    a: int,
    b: int,
)
    requires
        is_next_candidate(devices, vid, pid, from, a),
        is_next_candidate(devices, vid, pid, from, b),
    ensures
        a == b,
{
    if a < b {
        assert(!is_candidate(devices[a], vid, pid));
    } else if b < a {
        assert(!is_candidate(devices[b], vid, pid));
    }
}

} // verus!
