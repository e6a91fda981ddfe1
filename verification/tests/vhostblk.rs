use mayastor::device::DeviceHandle;
use mayastor::placement::PlacementPolicy;
use mayastor::vhostblk::{
    controller_name, removal_failed, TeardownAction, VhostAction, VhostBlkSpec, VhostEvent,
    VhostPhase, VhostblkCtrlr, VhostblkError,
};

fn disk0(policy: &mut PlacementPolicy) -> VhostBlkSpec {
    VhostBlkSpec::new("disk0", policy, &[0, 1, 2, 3]).unwrap()
}

fn controller(spec: &VhostBlkSpec, handle: u64) -> VhostblkCtrlr {
    let found = VhostEvent::Found(DeviceHandle::new(handle));
    match VhostblkCtrlr::create_step(spec, VhostPhase::Finding, found) {
        (VhostPhase::Finished, VhostAction::Done(Ok(ctrlr))) => ctrlr,
        other => panic!("{:?}", other),
    }
}

#[test]
fn vhost_controller_for_disk0() {
    let mut policy = PlacementPolicy::new();
    let spec = disk0(&mut policy);
    assert_eq!(spec.name(), "disk0_vhostblk");
    assert_eq!(spec.bdev_name(), "disk0");
    let ctrlr = controller(&spec, 0x1000);
    assert_eq!(ctrlr.get_name(), "disk0_vhostblk");
    assert_eq!(ctrlr.as_uri("/var/tmp/"), "file:///var/tmp/disk0_vhostblk");
    assert_eq!(ctrlr.as_uri("/var/run/vhost"), "file:///var/run/vhostdisk0_vhostblk");
    assert_eq!(ctrlr.as_uri(""), "file://disk0_vhostblk");
    assert_eq!(ctrlr.handle().raw(), 0x1000);
}

#[test]
fn vhost_controller_name() {
    assert_eq!(controller_name("disk0"), "disk0_vhostblk");
    assert_eq!(controller_name(""), "_vhostblk");
    assert_eq!(controller_name("a_vhostblk"), "a_vhostblk_vhostblk");
}

#[test]
fn vhost_controllers_are_placed_in_turn() {
    let mut policy = PlacementPolicy::new();
    let cores: Vec<u32> =
        (0..5).map(|_| disk0(&mut policy).assigned_core()).collect();
    assert_eq!(cores, vec![0, 1, 2, 3, 0]);
}

#[test]
fn vhost_controller_needs_a_core() {
    let mut policy = PlacementPolicy::new();
    assert_eq!(VhostBlkSpec::new("disk0", &mut policy, &[]), None);
    assert_eq!(policy.last_core(), None);
}

#[test]
fn vhost_create_runs_through() {
    let mut policy = PlacementPolicy::new();
    let spec = VhostBlkSpec::new("disk0", &mut policy, &[2, 3]).unwrap();
    assert_eq!(
        VhostblkCtrlr::create(&spec),
        (
            VhostPhase::Constructing,
            VhostAction::Construct {
                name: String::from("disk0_vhostblk"),
                core: 2,
                bdev_name: String::from("disk0"),
                readonly: false,
                packed_ring: false,
            }
        )
    );
    assert_eq!(
        VhostblkCtrlr::create_step(&spec, VhostPhase::Constructing, VhostEvent::Issued(0)),
        (VhostPhase::Finding, VhostAction::Find { name: String::from("disk0_vhostblk") })
    );
    let ctrlr = controller(&spec, 42);
    assert_eq!(ctrlr.handle(), DeviceHandle::new(42));
}

#[test]
fn vhost_create_that_the_runtime_fails() {
    let mut policy = PlacementPolicy::new();
    let spec = disk0(&mut policy);
    for status in [-17, -1, 1, i32::MIN, i32::MAX] {
        let (phase, action) =
            VhostblkCtrlr::create_step(&spec, VhostPhase::Constructing, VhostEvent::Issued(status));
        let error = VhostblkError::ConstructVhostblk { source: status, dev: String::from("disk0") };
        assert_eq!(error.message(), "Failed to construct vhostblk on disk0");
        assert_eq!((phase, action), (VhostPhase::Finished, VhostAction::Done(Err(error))));
    }
}

#[test]
fn vhost_create_ignores_what_it_did_not_ask_for() {
    let mut policy = PlacementPolicy::new();
    let spec = disk0(&mut policy);
    let found = VhostEvent::Found(DeviceHandle::new(1));
    let issued = VhostEvent::Issued(0);
    for (phase, event) in [
        (VhostPhase::Constructing, found),
        (VhostPhase::Finding, issued),
        (VhostPhase::Finding, VhostEvent::Issued(-1)),
        (VhostPhase::Finished, issued),
        (VhostPhase::Finished, found),
    ] {
        assert_eq!(
            VhostblkCtrlr::create_step(&spec, phase, event),
            (phase, VhostAction::Ignored)
        );
    }
}

#[test]
fn vhost_destroy_looks_the_device_up_under_the_lock() {
    let mut policy = PlacementPolicy::new();
    let spec = disk0(&mut policy);
    let first = controller(&spec, 7).destroy();
    assert_eq!(
        first,
        vec![TeardownAction::Lock, TeardownAction::Find { name: String::from("disk0_vhostblk") }]
    );
}

#[test]
fn vhost_destroy_removes_what_the_lookup_found() {
    // the reference that is removed is the one found under the lock, not
    // the one that the controller was made with
    let rest = VhostblkCtrlr::destroy_step(Some(DeviceHandle::new(9)));
    assert_eq!(rest, vec![TeardownAction::Remove(DeviceHandle::new(9)), TeardownAction::Unlock]);
}

#[test]
fn vhost_destroy_of_a_device_that_is_gone_only_unlocks() {
    assert_eq!(VhostblkCtrlr::destroy_step(None), vec![TeardownAction::Unlock]);
}

#[test]
fn vhost_destroy_runs_through() {
    let mut policy = PlacementPolicy::new();
    let spec = disk0(&mut policy);
    let ctrlr = controller(&spec, 7);
    // a table in which the device has another reference by now
    let table = [("other_vhostblk", 3u64), ("disk0_vhostblk", 8u64)];
    let mut log: Vec<String> = Vec::new();
    let mut steps = ctrlr.destroy();
    let mut rest: Vec<TeardownAction> = Vec::new();
    for step in steps.drain(..) {
        match step {
            TeardownAction::Lock => log.push(String::from("lock")),
            TeardownAction::Find { name } => {
                let found = table.iter().find(|entry| entry.0 == name).map(|entry| entry.1);
                log.push(format!("find {}", name));
                rest = VhostblkCtrlr::destroy_step(found.map(DeviceHandle::new));
            }
            other => panic!("{:?}", other),
        }
    }
    for step in rest {
        match step {
            TeardownAction::Remove(handle) => log.push(format!("remove {}", handle.raw())),
            TeardownAction::Unlock => log.push(String::from("unlock")),
            other => panic!("{:?}", other),
        }
    }
    assert_eq!(log, vec!["lock", "find disk0_vhostblk", "remove 8", "unlock"]);
}

#[test]
fn vhost_removal_failure_is_a_negative_status() {
    assert!(removal_failed(-1));
    assert!(removal_failed(-16));
    assert!(removal_failed(i32::MIN));
    assert!(!removal_failed(0));
    assert!(!removal_failed(1));
    assert!(!removal_failed(i32::MAX));
}

#[test]
fn vhost_controller_is_placed_where_the_cursor_is() {
    let mut policy = PlacementPolicy::new();
    for _ in 0..9 {
        let spec = VhostBlkSpec::new("disk0", &mut policy, &[1, 4, 6]).unwrap();
        assert_eq!(policy.last_core(), Some(spec.assigned_core()));
    }
}
