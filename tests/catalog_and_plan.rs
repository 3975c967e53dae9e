use cpi_aws::{
    plan, ActionKind, AwsExtension, InstanceClass, ParamFault, ParamType, ParamValue, Params,
    Request, api_volume_size, ActionError,
};

fn text(s: &str) -> ParamValue {
    ParamValue::Text(s.to_string())
}

fn params(entries: &[(&str, ParamValue)]) -> Params {
    let mut p = Params::new();
    for (k, v) in entries {
        let v = match v {
            ParamValue::Null => ParamValue::Null,
            ParamValue::Bool(b) => ParamValue::Bool(*b),
            ParamValue::Int(i) => ParamValue::Int(*i),
            ParamValue::Text(s) => ParamValue::Text(s.clone()),
            ParamValue::Other => ParamValue::Other,
        };
        p.insert(k.to_string(), v);
    }
    p
}

#[test]
fn new_extension_identity_and_defaults() {
    let ext = AwsExtension::new();
    assert_eq!(ext.name(), "ec2");
    assert_eq!(ext.provider_type(), "cloud");
    let s = ext.default_settings();
    assert!(matches!(s.get("region"), Some(ParamValue::Text(v)) if v == "us-east-1"));
    assert!(matches!(s.get("instance_type"), Some(ParamValue::Text(v)) if v == "t2.micro"));
    assert!(matches!(s.get("ami"), Some(ParamValue::Text(v)) if v == "ami-0c55b159cbfafe1f0"));
    assert!(matches!(s.get("availability_zone"), Some(ParamValue::Text(v)) if v == "us-east-1a"));
    assert!(matches!(s.get("volume_type"), Some(ParamValue::Text(v)) if v == "gp2"));
}

#[test]
fn list_actions_in_catalog_order() {
    let ext = AwsExtension::new();
    let names = ext.list_actions();
    assert_eq!(names.len(), 19);
    assert_eq!(names[0], "test_install");
    assert_eq!(names[1], "list_workers");
    assert_eq!(names[9], "create_volume");
    assert_eq!(names[18], "snapshot_volume");
    for n in &names {
        let d = ext.get_action_definition(n).expect("listed action has a definition");
        assert_eq!(&d.name, n);
        assert_eq!(d.parameters.last().unwrap().name, "region");
    }
}

#[test]
fn definition_of_create_volume() {
    let ext = AwsExtension::new();
    let d = ext.get_action_definition("create_volume").unwrap();
    assert_eq!(d.description, "Create a new EBS volume");
    let ps = &d.parameters;
    assert_eq!(ps.len(), 4);
    assert_eq!(ps[0].name, "size_gb");
    assert_eq!(ps[0].param_type, ParamType::Integer);
    assert!(ps[0].required);
    assert_eq!(ps[1].name, "availability_zone");
    assert!(ps[1].required);
    assert_eq!(ps[2].name, "volume_type");
    assert_eq!(ps[2].description, "Volume type (gp2, io1, etc.)");
    assert!(!ps[2].required);
    assert_eq!(ps[2].default.as_deref(), Some("gp2"));
    assert_eq!(ps[3].default.as_deref(), Some("us-east-1"));
}

#[test]
fn definition_of_unknown_action_is_none() {
    let ext = AwsExtension::new();
    assert!(ext.get_action_definition("launch_rocket").is_none());
    assert!(ext.get_action_definition("").is_none());
}

#[test]
fn plan_unknown_action() {
    let ext = AwsExtension::new();
    let e = ext.prepare_action("launch_rocket", &Params::new()).err().unwrap();
    assert_eq!(e.message(), "Action 'launch_rocket' not found");
}

#[test]
fn plan_create_worker_fills_defaults() {
    let p = params(&[("worker_name", text("web-1"))]);
    let inv = plan("create_worker", &p).ok().unwrap();
    assert!(inv.region.is_none());
    assert_eq!(inv.client_region(), "us-east-1");
    match inv.request {
        Request::CreateWorker { worker_name, instance_type, ami } => {
            assert_eq!(worker_name, "web-1");
            assert_eq!(instance_type, "t2.micro");
            assert_eq!(ami, "ami-0c55b159cbfafe1f0");
        },
        _ => panic!("wrong request"),
    }
}

#[test]
fn plan_create_worker_missing_name() {
    let p = params(&[("instance_type", text("t3.small"))]);
    let e = plan("create_worker", &p).err().unwrap();
    assert_eq!(e.message(), "Missing required parameter: worker_name");
}

#[test]
fn plan_reports_first_bad_parameter() {
    let p = params(&[("worker_name", text("w")), ("instance_type", ParamValue::Int(3)), ("ami", ParamValue::Other)]);
    let e = plan("create_worker", &p).err().unwrap();
    assert_eq!(e.message(), "Parameter 'instance_type' must be a string");
}

#[test]
fn plan_region_of_other_kind_is_ignored() {
    let p = params(&[("region", ParamValue::Int(5))]);
    let inv = plan("list_workers", &p).ok().unwrap();
    assert!(inv.region.is_none());
    assert!(matches!(inv.request, Request::ListWorkers));
    let p = params(&[("region", text("eu-west-1"))]);
    let inv = plan("get_volumes", &p).ok().unwrap();
    assert_eq!(inv.region.as_deref(), Some("eu-west-1"));
    assert_eq!(inv.client_region(), "eu-west-1");
}

#[test]
fn plan_create_volume() {
    let p = params(&[("size_gb", ParamValue::Int(20)), ("availability_zone", text("us-east-1b"))]);
    match plan("create_volume", &p).ok().unwrap().request {
        Request::CreateVolume { size_gb, availability_zone, volume_type } => {
            assert_eq!(size_gb, 20);
            assert_eq!(availability_zone, "us-east-1b");
            assert_eq!(volume_type, "gp2");
        },
        _ => panic!("wrong request"),
    }
    let p = params(&[("size_gb", text("20")), ("availability_zone", text("us-east-1b"))]);
    match plan("create_volume", &p) {
        Err(ActionError::Parameter { name, fault, expected }) => {
            assert_eq!(name, "size_gb");
            assert_eq!(fault, ParamFault::WrongType);
            assert_eq!(expected, ParamType::Integer);
        },
        _ => panic!("expected a parameter error"),
    }
}

#[test]
fn plan_attach_and_metadata() {
    let p = params(&[("worker_id", text("i-1")), ("volume_id", text("vol-1")), ("device_name", text("/dev/sdf"))]);
    match plan("attach_volume", &p).ok().unwrap().request {
        Request::AttachVolume { worker_id, volume_id, device_name } => {
            assert_eq!(worker_id, "i-1");
            assert_eq!(volume_id, "vol-1");
            assert_eq!(device_name, "/dev/sdf");
        },
        _ => panic!("wrong request"),
    }
    let p = params(&[("worker_id", text("i-1")), ("key", text("env"))]);
    let e = plan("set_worker_metadata", &p).err().unwrap();
    assert_eq!(e.message(), "Missing required parameter: value");
}

#[test]
fn plan_every_listed_action_with_no_parameters() {
    let empty = Params::new();
    for k in ActionKind::all() {
        let r = plan(k.name(), &empty);
        match k {
            ActionKind::TestInstall | ActionKind::ListWorkers | ActionKind::GetVolumes => assert!(r.is_ok()),
            _ => assert!(r.is_err()),
        }
    }
}

#[test]
fn instance_class_mapping() {
    assert_eq!(InstanceClass::from_name("t3.medium"), InstanceClass::T3Medium);
    assert_eq!(InstanceClass::from_name("m5.xlarge"), InstanceClass::M5Xlarge);
    assert_eq!(InstanceClass::from_name("t2.small"), InstanceClass::T2Small);
    assert_eq!(InstanceClass::from_name("x9.huge"), InstanceClass::T2Micro);
    assert_eq!(InstanceClass::from_name(""), InstanceClass::T2Micro);
}

#[test]
fn volume_size_for_the_api() {
    assert_eq!(api_volume_size(100), 100);
    assert_eq!(api_volume_size(-1), -1);
    assert_eq!(api_volume_size(4_294_967_297), 1);
}

#[test]
fn plan_accepts_every_action_given_its_declared_parameters() {
    let ext = AwsExtension::new();
    for name in ext.list_actions() {
        let d = ext.get_action_definition(&name).unwrap();
        let mut p = Params::new();
        for f in &d.parameters {
            if f.required {
                let v = match f.param_type {
                    ParamType::String => text("x"),
                    ParamType::Integer => ParamValue::Int(1),
                };
                p.insert(f.name.clone(), v);
            }
        }
        assert!(plan(&name, &p).is_ok(), "{} refused its declared parameters", name);
        // dropping any required parameter makes the call fail, naming it
        for f in d.parameters.iter().filter(|f| f.required) {
            let mut q = Params::new();
            for g in d.parameters.iter().filter(|g| g.required && g.name != f.name) {
                q.insert(g.name.clone(), match g.param_type {
                    ParamType::String => text("x"),
                    ParamType::Integer => ParamValue::Int(1),
                });
            }
            let e = plan(&name, &q).err().unwrap();
            assert_eq!(e.message(), format!("Missing required parameter: {}", f.name));
        }
    }
}
