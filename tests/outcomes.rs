use cpi_aws::{
    create_snapshot, create_volume, create_worker, delete_worker, get_name_from_tags, get_volumes,
    get_worker, has_snapshot, has_volume, has_worker, list_workers, parse_ec2_instances,
    parse_ec2_volumes, snapshot_description, snapshot_volume, start_worker, test_install,
    ActionOutput, InstanceData, ReservationData, TagData, VolumeData, join, same_text,
};

fn tag(k: Option<&str>, v: Option<&str>) -> TagData {
    TagData { key: k.map(|s| s.to_string()), value: v.map(|s| s.to_string()) }
}

fn instance(id: Option<&str>, tags: Vec<TagData>) -> InstanceData {
    InstanceData {
        instance_id: id.map(|s| s.to_string()),
        state: Some("running".to_string()),
        instance_type: None,
        tags,
        public_ip: Some("1.2.3.4".to_string()),
        private_ip: None,
        availability_zone: Some("us-east-1a".to_string()),
    }
}

fn volume(id: Option<&str>, size: Option<i32>, attached: Vec<Option<&str>>) -> VolumeData {
    VolumeData {
        volume_id: id.map(|s| s.to_string()),
        size_gb: size,
        state: None,
        availability_zone: Some("us-east-1b".to_string()),
        attachments: attached.into_iter().map(|a| a.map(|s| s.to_string())).collect(),
    }
}

#[test]
fn name_from_tags() {
    assert_eq!(get_name_from_tags(&vec![]), "unnamed");
    assert_eq!(get_name_from_tags(&vec![tag(Some("env"), Some("prod")), tag(Some("Name"), Some("web"))]), "web");
    assert_eq!(get_name_from_tags(&vec![tag(Some("Name"), None), tag(Some("Name"), Some("late"))]), "unnamed");
    assert_eq!(get_name_from_tags(&vec![tag(None, Some("x")), tag(Some("name"), Some("lower"))]), "unnamed");
}

#[test]
fn instances_flattened_in_order_without_anonymous() {
    let res = vec![
        ReservationData { instances: vec![instance(Some("i-1"), vec![tag(Some("Name"), Some("a"))]), instance(None, vec![])] },
        ReservationData { instances: vec![] },
        ReservationData { instances: vec![instance(Some("i-2"), vec![])] },
    ];
    let ws = parse_ec2_instances(&res);
    assert_eq!(ws.len(), 2);
    assert_eq!(ws[0].id, "i-1");
    assert_eq!(ws[0].name, "a");
    assert_eq!(ws[0].state, "running");
    assert_eq!(ws[0].instance_type, "unknown");
    assert_eq!(ws[0].public_ip.as_deref(), Some("1.2.3.4"));
    assert_eq!(ws[0].private_ip, None);
    assert_eq!(ws[1].id, "i-2");
    assert_eq!(ws[1].name, "unnamed");
}

#[test]
fn volumes_sizes_in_megabytes() {
    let vs = vec![volume(Some("vol-1"), Some(8), vec![Some("i-1"), Some("i-2")]), volume(None, Some(1), vec![]), volume(Some("vol-2"), None, vec![None])];
    let rs = parse_ec2_volumes(&vs);
    assert_eq!(rs.len(), 2);
    assert_eq!(rs[0].id, "vol-1");
    assert_eq!(rs[0].path, "vol-1");
    assert_eq!(rs[0].size_mb, 8192);
    assert_eq!(rs[0].state, "unknown");
    assert_eq!(rs[0].availability_zone, "us-east-1b");
    assert_eq!(rs[0].attached_to.as_deref(), Some("i-1"));
    assert_eq!(rs[1].size_mb, 0);
    assert_eq!(rs[1].attached_to, None);
}

#[test]
fn largest_volume_size_converts_exactly() {
    let rs = parse_ec2_volumes(&vec![volume(Some("v"), Some(i32::MAX), vec![])]);
    assert_eq!(rs[0].size_mb, i32::MAX as i64 * 1024);
}

#[test]
fn list_and_volume_outcomes() {
    match list_workers(Ok(vec![ReservationData { instances: vec![instance(Some("i-7"), vec![])] }])) {
        Ok(ActionOutput::Workers { workers }) => assert_eq!(workers[0].id, "i-7"),
        _ => panic!("expected workers"),
    }
    let e = list_workers(Err("throttled".to_string())).err().unwrap();
    assert_eq!(e.message(), "Failed to list EC2 instances: throttled");
    match get_volumes(Ok(vec![])) {
        Ok(ActionOutput::Volumes { volumes }) => assert!(volumes.is_empty()),
        _ => panic!("expected volumes"),
    }
}

#[test]
fn create_worker_outcomes() {
    match create_worker("web".to_string(), Ok(vec![Some("i-5".to_string()), Some("i-6".to_string())])) {
        Ok(ActionOutput::WorkerCreated { id, name }) => {
            assert_eq!(id, "i-5");
            assert_eq!(name, "web");
        },
        _ => panic!("expected a created worker"),
    }
    let e = create_worker("web".to_string(), Ok(vec![])).err().unwrap();
    assert_eq!(e.message(), "No instance was created");
    let e = create_worker("web".to_string(), Ok(vec![None, Some("i-6".to_string())])).err().unwrap();
    assert_eq!(e.message(), "No instance was created");
    let e = create_worker("web".to_string(), Err("quota".to_string())).err().unwrap();
    assert_eq!(e.message(), "Failed to create EC2 instance: quota");
}

#[test]
fn get_worker_outcomes() {
    let res = vec![ReservationData { instances: vec![instance(None, vec![tag(Some("Name"), Some("db"))])] }];
    match get_worker("i-1".to_string(), Ok(res)) {
        Ok(ActionOutput::Worker { vm }) => {
            assert_eq!(vm.id, "unknown");
            assert_eq!(vm.name, "db");
            assert_eq!(vm.availability_zone.as_deref(), Some("us-east-1a"));
        },
        _ => panic!("expected a worker"),
    }
    let e = get_worker("i-1".to_string(), Ok(vec![])).err().unwrap();
    assert_eq!(e.message(), "Instance with ID i-1 not found");
    let e = get_worker("i-1".to_string(), Ok(vec![ReservationData { instances: vec![] }])).err().unwrap();
    assert_eq!(e.message(), "Instance with ID i-1 not found");
}

#[test]
fn has_worker_outcomes() {
    let empty_then_full = vec![ReservationData { instances: vec![] }, ReservationData { instances: vec![instance(Some("i-1"), vec![])] }];
    assert!(matches!(has_worker(Ok(empty_then_full)), Ok(ActionOutput::Exists { exists: true })));
    assert!(matches!(has_worker(Ok(vec![ReservationData { instances: vec![] }])), Ok(ActionOutput::Exists { exists: false })));
    let nf = "ServiceError { code: \"InvalidInstanceID.NotFound\" }".to_string();
    assert!(matches!(has_worker(Err(nf)), Ok(ActionOutput::Exists { exists: false })));
    let e = has_worker(Err("AccessDenied".to_string())).err().unwrap();
    assert_eq!(e.message(), "Failed to check if instance exists: AccessDenied");
}

#[test]
fn has_volume_and_snapshot_outcomes() {
    assert!(matches!(has_volume(Ok(vec![volume(Some("v"), None, vec![])])), Ok(ActionOutput::Exists { exists: true })));
    assert!(matches!(has_volume(Ok(vec![])), Ok(ActionOutput::Exists { exists: false })));
    assert!(matches!(has_volume(Err("x InvalidVolume.NotFound y".to_string())), Ok(ActionOutput::Exists { exists: false })));
    let e = has_volume(Err("InvalidInstanceID.NotFound".to_string())).err().unwrap();
    assert_eq!(e.message(), "Failed to check if volume exists: InvalidInstanceID.NotFound");
    assert!(matches!(has_snapshot(Ok(2)), Ok(ActionOutput::Exists { exists: true })));
    assert!(matches!(has_snapshot(Ok(0)), Ok(ActionOutput::Exists { exists: false })));
    assert!(matches!(has_snapshot(Err("InvalidSnapshot.NotFound".to_string())), Ok(ActionOutput::Exists { exists: false })));
    assert!(has_snapshot(Err("InvalidSnapshot.Malformed".to_string())).is_err());
    assert!(has_snapshot(Err("InvalidSnapshot.NotFoun".to_string())).is_err());
    assert!(matches!(has_snapshot(Err("xInvalidSnapshot.NotFound".to_string())), Ok(ActionOutput::Exists { exists: false })));
}

#[test]
fn simple_call_outcomes() {
    assert!(matches!(delete_worker(Ok(())), Ok(ActionOutput::Done)));
    let e = delete_worker(Err("busy".to_string())).err().unwrap();
    assert_eq!(e.message(), "Failed to terminate EC2 instance: busy");
    match start_worker("i-3".to_string(), Ok(())) {
        Ok(ActionOutput::Started { id }) => assert_eq!(id, "i-3"),
        _ => panic!("expected started"),
    }
    match test_install(Ok(vec!["us-east-1".to_string(), "eu-west-1".to_string()])) {
        Ok(ActionOutput::Installed { regions }) => assert_eq!(regions.len(), 2),
        _ => panic!("expected installed"),
    }
    let e = test_install(Err("no credentials".to_string())).err().unwrap();
    assert_eq!(e.message(), "Failed to connect to AWS: no credentials");
}

#[test]
fn volume_and_snapshot_creation_outcomes() {
    assert!(matches!(create_volume(Ok(Some("vol-9".to_string()))), Ok(ActionOutput::VolumeCreated { id }) if id == "vol-9"));
    assert_eq!(create_volume(Ok(None)).err().unwrap().message(), "No volume ID was returned");
    assert!(matches!(create_snapshot(Ok(Some("snap-1".to_string()))), Ok(ActionOutput::SnapshotCreated { id }) if id == "snap-1"));
    assert_eq!(create_snapshot(Ok(None)).err().unwrap().message(), "No snapshot ID was returned");
    assert_eq!(snapshot_description("vol-9"), "Snapshot of vol-9");
}

#[test]
fn snapshot_volume_outcomes() {
    match snapshot_volume("vol-1".to_string(), create_snapshot(Ok(Some("snap-2".to_string())))) {
        Ok(ActionOutput::VolumeSnapshot { id, source_volume_id }) => {
            assert_eq!(id, "snap-2");
            assert_eq!(source_volume_id, "vol-1");
        },
        _ => panic!("expected a volume snapshot"),
    }
    let e = snapshot_volume("vol-1".to_string(), Ok(ActionOutput::Done)).err().unwrap();
    assert_eq!(e.message(), "Failed to get snapshot ID");
    let e = snapshot_volume("vol-1".to_string(), create_snapshot(Err("limit".to_string()))).err().unwrap();
    assert_eq!(e.message(), "Failed to create snapshot: limit");
}

#[test]
fn text_helpers() {
    assert_eq!(join("snap", "-1"), "snap-1");
    assert_eq!(join("", ""), "");
    assert!(same_text("ec2", "ec2"));
    assert!(!same_text("ec2", "ec3"));
}
