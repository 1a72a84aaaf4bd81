use tuntap::teardown::{DescriptorLifecycle, DescriptorState, EBUSY};
use tuntap::TunTapError;

#[test]
fn open_descriptor_accepts_io() {
    let d = DescriptorLifecycle::new("tun0".to_string());
    assert_eq!(d.state, DescriptorState::Open);
    assert_eq!(d.check_io(), Ok(()));
}

#[test]
fn destroy_while_open_is_os_error() {
    let d = DescriptorLifecycle::new("tun0".to_string());
    assert!(matches!(d.destroy_request(), Err(TunTapError::Io { code: EBUSY })));
    assert_eq!(d.state, DescriptorState::Open);
}

#[test]
fn create_then_close_destroys_interface() {
    let mut d = DescriptorLifecycle::new("tun0".to_string());
    d.release();
    assert_eq!(d.check_io(), Err(TunTapError::Closed));
    assert!(d.destroy_request().is_ok());
    assert_eq!(d.finish_destroy(Ok(())), Ok(()));
    assert_eq!(d.state, DescriptorState::Destroyed);
    assert_eq!(d.check_io(), Err(TunTapError::Closed));
    assert!(matches!(d.destroy_request(), Err(TunTapError::Closed)));
}

#[test]
fn failed_destroy_keeps_released_state() {
    let mut d = DescriptorLifecycle::new("tap1".to_string());
    d.release();
    assert_eq!(d.finish_destroy(Err(6)), Err(TunTapError::Io { code: 6 }));
    assert_eq!(d.state, DescriptorState::Released);
    assert_eq!(d.name, "tap1");
}

#[test]
fn name_must_fit_request() {
    let mut fits = DescriptorLifecycle::new("abcdefghijklmno".to_string());
    fits.release();
    assert!(fits.destroy_request().is_ok());

    let mut long = DescriptorLifecycle::new("abcdefghijklmnop".to_string());
    long.release();
    assert!(matches!(long.destroy_request(), Err(TunTapError::BadData { .. })));

    let mut nul = DescriptorLifecycle::new("tun\0".to_string());
    nul.release();
    assert!(matches!(nul.destroy_request(), Err(TunTapError::BadData { .. })));
}
