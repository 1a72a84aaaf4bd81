use tuntap::ioctl::{FIONBIO, TUNSIFHEAD, TUNSIFMODE, TUNSIFPID};
use tuntap::provision::{
    clone_device_path, configuration, device_path, name_from_kernel, DeviceControl, ProvisionStep,
    Provisioning,
};
use tuntap::{TunTapError, VirtualInterfaceInfo, VirtualInterfaceType};

#[test]
fn class_names() {
    assert_eq!(VirtualInterfaceType::Tun.class_name(), "tun");
    assert_eq!(VirtualInterfaceType::Tap.class_name(), "tap");
}

#[test]
fn info_keeps_requested_kind() {
    let info = VirtualInterfaceInfo::new("tap0".to_string(), VirtualInterfaceType::Tap);
    assert_eq!(info.name, "tap0");
    assert_eq!(info.iface_type, VirtualInterfaceType::Tap);
}

#[test]
fn device_paths() {
    assert_eq!(clone_device_path(VirtualInterfaceType::Tun), "/dev/tun");
    assert_eq!(clone_device_path(VirtualInterfaceType::Tap), "/dev/tap");
    assert_eq!(device_path("tap3"), "/dev/tap3");
    assert_eq!(device_path(""), "/dev/");
}

#[test]
fn tun_configuration() {
    assert_eq!(
        configuration(VirtualInterfaceType::Tun, false),
        vec![DeviceControl::AttachToProcess, DeviceControl::EnableHeader(1), DeviceControl::SetMode(0x8002)]
    );
    assert_eq!(
        configuration(VirtualInterfaceType::Tun, true),
        vec![
            DeviceControl::AttachToProcess,
            DeviceControl::EnableHeader(1),
            DeviceControl::SetMode(0x8002),
            DeviceControl::SetNonBlocking(1)
        ]
    );
}

#[test]
fn tap_configuration() {
    assert_eq!(configuration(VirtualInterfaceType::Tap, false), vec![]);
    assert_eq!(configuration(VirtualInterfaceType::Tap, true), vec![DeviceControl::SetNonBlocking(1)]);
}

#[test]
fn control_codes_and_arguments() {
    assert_eq!(DeviceControl::AttachToProcess.request(), TUNSIFPID);
    assert_eq!(DeviceControl::AttachToProcess.argument(), None);
    assert_eq!(DeviceControl::EnableHeader(1).request(), TUNSIFHEAD);
    assert_eq!(DeviceControl::EnableHeader(1).argument(), Some(1));
    assert_eq!(DeviceControl::SetMode(0x8002).request(), TUNSIFMODE);
    assert_eq!(DeviceControl::SetMode(0x8002).argument(), Some(0x8002));
    assert_eq!(DeviceControl::SetNonBlocking(1).request(), FIONBIO);
}

#[test]
fn kernel_name_is_decoded() {
    assert_eq!(name_from_kernel(Some(b"tun0".to_vec())), Ok("tun0".to_string()));
    assert_eq!(name_from_kernel(Some("tün7".as_bytes().to_vec())), Ok("tün7".to_string()));
}

#[test]
fn missing_kernel_name_is_bad_data() {
    assert!(matches!(name_from_kernel(None), Err(TunTapError::BadData { .. })));
}

#[test]
fn malformed_kernel_name_is_bad_data() {
    assert!(matches!(name_from_kernel(Some(vec![0x74, 0xff, 0xfe])), Err(TunTapError::BadData { .. })));
}

#[test]
fn async_tun_provisioning_runs_every_call_in_order() {
    let mut p = Provisioning::new(VirtualInterfaceType::Tun, true);
    assert_eq!(p.clone_path(), "/dev/tun");
    assert_eq!(p.opened(Ok(())), Ok(()));
    assert_eq!(p.named(Some(b"tun4".to_vec())), Ok("tun4".to_string()));
    let mut codes = Vec::new();
    while let Some(call) = p.next_control() {
        codes.push(call.request());
        assert_eq!(p.configured(Ok(())), Ok(()));
    }
    assert_eq!(codes, vec![TUNSIFPID, TUNSIFHEAD, TUNSIFMODE, FIONBIO]);
    assert_eq!(p.brought_up(Ok(())), Ok("tun4".to_string()));
    assert_eq!(p.step, ProvisionStep::Ready);
}

#[test]
fn sync_tap_provisioning_makes_no_control_call() {
    let mut p = Provisioning::new(VirtualInterfaceType::Tap, false);
    assert_eq!(p.clone_path(), "/dev/tap");
    assert_eq!(p.opened(Ok(())), Ok(()));
    assert_eq!(p.named(Some(b"tap0".to_vec())), Ok("tap0".to_string()));
    assert_eq!(p.next_control(), None);
    assert_eq!(p.brought_up(Ok(())), Ok("tap0".to_string()));
}

#[test]
fn open_failure_is_not_found() {
    let mut p = Provisioning::new(VirtualInterfaceType::Tun, false);
    assert!(matches!(p.opened(Err(2)), Err(TunTapError::NotFound { .. })));
    assert_eq!(p.step, ProvisionStep::Failed);
    assert_eq!(p.next_control(), None);
}

#[test]
fn control_failure_stops_provisioning() {
    let mut p = Provisioning::new(VirtualInterfaceType::Tun, false);
    p.opened(Ok(())).unwrap();
    p.named(Some(b"tun1".to_vec())).unwrap();
    assert_eq!(p.next_control(), Some(DeviceControl::AttachToProcess));
    p.configured(Ok(())).unwrap();
    assert_eq!(p.configured(Err(22)), Err(TunTapError::Io { code: 22 }));
    assert_eq!(p.step, ProvisionStep::Failed);
    assert_eq!(p.next_control(), None);
}

#[test]
fn missing_name_stops_provisioning() {
    let mut p = Provisioning::new(VirtualInterfaceType::Tun, false);
    p.opened(Ok(())).unwrap();
    assert!(matches!(p.named(None), Err(TunTapError::BadData { .. })));
    assert_eq!(p.step, ProvisionStep::Failed);
}

#[test]
fn bring_up_failure_is_os_error() {
    let mut p = Provisioning::new(VirtualInterfaceType::Tap, false);
    p.opened(Ok(())).unwrap();
    p.named(Some(b"tap2".to_vec())).unwrap();
    assert_eq!(p.brought_up(Err(1)), Err(TunTapError::Io { code: 1 }));
    assert_eq!(p.step, ProvisionStep::Failed);
}
