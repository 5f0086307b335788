//! Which device to talk to, and where on it.

use crate::error::Error;
use vstd::prelude::*;

verus! {

/// The USB vendor id of the target device.
pub const VENDOR_ID: u16 = 0x22ea;

/// The USB product id of the target device.
pub const PRODUCT_ID: u16 = 0x003a;

/// The interrupt endpoint that takes every report.
pub const ENDPOINT: u8 = 0x04;

/// How long one write may take, in milliseconds.
pub const TIMEOUT_MS: u64 = 5000;

/// The ids read from an attached device's descriptor: vendor, then product.
/// `None` stands for a device whose descriptor could not be read.
pub type DeviceIds = Option<(u16, u16)>;

/// The ids are known and are those of the target device.
pub open spec fn is_target(ids: DeviceIds) -> bool {
    ids == Some((VENDOR_ID, PRODUCT_ID))
}

/// No attached device is the target.
pub open spec fn target_absent(attached: Seq<DeviceIds>) -> bool {
    forall|index: int| 0 <= index < attached.len() ==> !is_target(#[trigger] attached[index])
}

/// Tells whether ids read from a descriptor are those of the target device.
pub fn matches_target(ids: &DeviceIds) -> (found: bool)
    ensures
        found == is_target(*ids),
{
    match ids {
        Some((vendor_id, product_id)) => *vendor_id == VENDOR_ID && *product_id == PRODUCT_ID,
        None => false,
    }
}

/// Picks the device to open among the attached ones, given in the order in
/// which they were enumerated: the first one that is the target. Devices
/// whose descriptor could not be read are passed over. Where there is no
/// target, the lookup fails with `Error::NotFound`.
pub fn find_target(attached: &[DeviceIds]) -> (found: Result<usize, Error>)
    ensures
        match found {
            Ok(index) => {
                &&& index < attached@.len()
                &&& is_target(attached@[index as int])
                &&& target_absent(attached@.take(index as int))
            },
            Err(err) => err == Error::NotFound && target_absent(attached@),
        },
{
    let mut index: usize = 0;
    while index < attached.len()
        invariant
            index <= attached@.len(),
            target_absent(attached@.take(index as int)),
        decreases attached@.len() - index,
    {
        if matches_target(&attached[index]) {
            return Ok(index);
        }
        assert(attached@.take(index + 1) =~= attached@.take(index as int).push(
            attached@[index as int],
        ));
        index = index + 1;
    }
    assert(attached@.take(index as int) =~= attached@);
    Err(Error::NotFound)
}

} // verus!
