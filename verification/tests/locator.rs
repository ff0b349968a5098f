use patlite_rs::constants::{DEVICE_ID, VENDOR_ID};
use patlite_rs::{open_device, DeviceIds, PatliteError};

fn ids(vendor_id: u16, product_id: u16) -> Option<DeviceIds> {
    Some(DeviceIds { vendor_id, product_id })
}

#[test]
fn identifiers_of_the_indicator() {
    assert_eq!(VENDOR_ID, 0x191A);
    assert_eq!(DEVICE_ID, 0x6001);
}

#[test]
fn first_matching_device_is_found() {
    let devices = vec![ids(0x1D6B, 0x0002), None, ids(0x191A, 0x6001), ids(0x191A, 0x6001)];
    assert_eq!(open_device(&devices, VENDOR_ID, DEVICE_ID, 0), Ok(2));
}

#[test]
fn search_goes_on_behind_a_device_that_did_not_open() {
    let devices = vec![ids(0x191A, 0x6001), ids(0x1D6B, 0x0002), ids(0x191A, 0x6001)];
    assert_eq!(open_device(&devices, VENDOR_ID, DEVICE_ID, 0), Ok(0));
    assert_eq!(open_device(&devices, VENDOR_ID, DEVICE_ID, 1), Ok(2));
    assert_eq!(open_device(&devices, VENDOR_ID, DEVICE_ID, 3), Err(PatliteError::DeviceNotFound));
}

#[test]
fn both_identifiers_must_match() {
    let devices = vec![ids(0x191A, 0x6000), ids(0x191B, 0x6001), None];
    assert_eq!(open_device(&devices, VENDOR_ID, DEVICE_ID, 0), Err(PatliteError::DeviceNotFound));
}

#[test]
fn nothing_attached_finds_nothing() {
    assert_eq!(open_device(&Vec::new(), VENDOR_ID, DEVICE_ID, 0), Err(PatliteError::DeviceNotFound));
    assert_eq!(open_device(&vec![ids(0x191A, 0x6001)], VENDOR_ID, DEVICE_ID, 7), Err(PatliteError::DeviceNotFound));
}
