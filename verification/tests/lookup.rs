use adir01p::device::{find_target, matches_target, ENDPOINT, PRODUCT_ID, TIMEOUT_MS, VENDOR_ID};
use adir01p::error::Error;

#[test]
fn device_constants() {
    assert_eq!(VENDOR_ID, 0x22ea);
    assert_eq!(PRODUCT_ID, 0x003a);
    assert_eq!(ENDPOINT, 0x04);
    assert_eq!(TIMEOUT_MS, 5000);
}

#[test]
fn only_the_exact_ids_match() {
    assert!(matches_target(&Some((0x22ea, 0x003a))));
    assert!(!matches_target(&Some((0x22ea, 0x003b))));
    assert!(!matches_target(&Some((0x22eb, 0x003a))));
    assert!(!matches_target(&Some((0x003a, 0x22ea))));
    assert!(!matches_target(&None));
}

#[test]
fn no_device_is_not_found() {
    assert_eq!(find_target(&[]), Err(Error::NotFound));
}

#[test]
fn other_devices_are_not_found() {
    let attached = [Some((0x1d6b, 0x0002)), None, Some((0x22ea, 0x0039)), Some((0x046d, 0x003a))];
    assert_eq!(find_target(&attached), Err(Error::NotFound));
}

#[test]
fn the_first_target_is_picked() {
    let target = Some((0x22ea, 0x003a));
    assert_eq!(find_target(&[target]), Ok(0));
    assert_eq!(find_target(&[Some((0x1d6b, 0x0002)), None, target, target]), Ok(2));
    assert_eq!(find_target(&[None, None, None, target]), Ok(3));
}
