use mayastor::device::{nul_free, DeviceHandle};
use mayastor::ocf::Ocf;
use mayastor::uri::ParsedUri;

fn ocf(path: &str, cache_mode: &str, cache_bdev: &str, core_bdev: &str) -> Ocf {
    let query = vec![
        (String::from("cache_mode"), String::from(cache_mode)),
        (String::from("cache_bdev"), String::from(cache_bdev)),
        (String::from("core_bdev"), String::from(core_bdev)),
    ];
    let parts = ParsedUri { uri: String::from("ocf://test"), path: String::from(path), query };
    Ocf::build(&parts, None).unwrap()
}

#[test]
fn names_hold_no_nul() {
    assert!(nul_free(""));
    assert!(nul_free("disk0"));
    assert!(nul_free("disk 0\n"));
    assert!(nul_free("0"));
    assert!(!nul_free("\0"));
    assert!(!nul_free("disk\0"));
    assert!(!nul_free("\0disk"));
    assert!(!nul_free("di\0sk"));
}

#[test]
fn ocf_with_names_that_the_runtime_can_take() {
    let device = ocf("/c1", "wb", "A", "B");
    assert!(device.is_named());
    assert!(device.is_constructible());
    let device = Ocf::try_from("ocf:///c1?cache_bdev=A&core_bdev=B").unwrap();
    assert!(device.is_named());
    assert!(device.is_constructible());
}

#[test]
fn ocf_with_a_nul_in_a_name() {
    let device = ocf("/c\u{0}1", "wb", "A", "B");
    assert!(!device.is_named());
    assert!(!device.is_constructible());
    for device in [
        ocf("/c1", "w\0b", "A", "B"),
        ocf("/c1", "wb", "\0", "B"),
        ocf("/c1", "wb", "A", "B\0"),
        Ocf::try_from("ocf:///c1?cache_bdev=A%00&core_bdev=B").unwrap(),
    ] {
        assert!(device.is_named());
        assert!(!device.is_constructible());
    }
}

#[test]
fn device_handle_keeps_the_reference() {
    assert_eq!(DeviceHandle::new(0).raw(), 0);
    assert_eq!(DeviceHandle::new(u64::MAX).raw(), u64::MAX);
    assert_eq!(DeviceHandle::new(5), DeviceHandle::new(5));
    assert_ne!(DeviceHandle::new(5), DeviceHandle::new(6));
}
