use cpi_aws::{
    extract_int, extract_string, extract_string_or, ActionError, Operation, ParamFault, ParamType,
    ParamValue, Params,
};

fn text(s: &str) -> ParamValue {
    ParamValue::Text(s.to_string())
}

#[test]
fn params_get_returns_inserted_value() {
    let mut p = Params::new();
    p.insert("worker_id".to_string(), text("i-123"));
    assert!(matches!(p.get("worker_id"), Some(ParamValue::Text(s)) if s == "i-123"));
    assert!(p.get("volume_id").is_none());
}

#[test]
fn params_later_insert_replaces_earlier() {
    let mut p = Params::new();
    p.insert("size_gb".to_string(), ParamValue::Int(8));
    p.insert("size_gb".to_string(), ParamValue::Int(16));
    assert!(matches!(p.get("size_gb"), Some(ParamValue::Int(16))));
}

#[test]
fn extract_string_cases() {
    let mut p = Params::new();
    p.insert("a".to_string(), text("x"));
    p.insert("b".to_string(), ParamValue::Int(1));
    assert_eq!(extract_string(&p, "a"), Ok("x".to_string()));
    assert_eq!(extract_string(&p, "b"), Err(ParamFault::WrongType));
    assert_eq!(extract_string(&p, "c"), Err(ParamFault::Missing));
}

#[test]
fn extract_string_or_uses_default_for_absent_and_null() {
    let mut p = Params::new();
    p.insert("n".to_string(), ParamValue::Null);
    p.insert("t".to_string(), text("t3.small"));
    p.insert("w".to_string(), ParamValue::Bool(true));
    assert_eq!(extract_string_or(&p, "n", "gp2"), Ok("gp2".to_string()));
    assert_eq!(extract_string_or(&p, "absent", "gp2"), Ok("gp2".to_string()));
    assert_eq!(extract_string_or(&p, "t", "t2.micro"), Ok("t3.small".to_string()));
    assert_eq!(extract_string_or(&p, "w", "gp2"), Err(ParamFault::WrongType));
}

#[test]
fn extract_int_cases() {
    let mut p = Params::new();
    p.insert("size_gb".to_string(), ParamValue::Int(100));
    p.insert("name".to_string(), text("100"));
    assert_eq!(extract_int(&p, "size_gb"), Ok(100));
    assert_eq!(extract_int(&p, "name"), Err(ParamFault::WrongType));
    assert_eq!(extract_int(&p, "other"), Err(ParamFault::Missing));
}

#[test]
fn error_messages() {
    let missing = ActionError::Parameter {
        name: "worker_id".to_string(),
        fault: ParamFault::Missing,
        expected: ParamType::String,
    };
    assert_eq!(missing.message(), "Missing required parameter: worker_id");
    let wrong = ActionError::Parameter {
        name: "size_gb".to_string(),
        fault: ParamFault::WrongType,
        expected: ParamType::Integer,
    };
    assert_eq!(wrong.message(), "Parameter 'size_gb' must be an integer");
    let wrong_text = ActionError::Parameter {
        name: "ami".to_string(),
        fault: ParamFault::WrongType,
        expected: ParamType::String,
    };
    assert_eq!(wrong_text.message(), "Parameter 'ami' must be a string");
    let unknown = ActionError::UnknownAction { action: "fly".to_string() };
    assert_eq!(unknown.message(), "Action 'fly' not found");
    let cloud = ActionError::Cloud { operation: Operation::ListInstances, detail: "timeout".to_string() };
    assert_eq!(cloud.message(), "Failed to list EC2 instances: timeout");
    assert_eq!(ActionError::NoInstanceCreated.message(), "No instance was created");
    assert_eq!(ActionError::NoVolumeId.message(), "No volume ID was returned");
    assert_eq!(ActionError::NoSnapshotId.message(), "No snapshot ID was returned");
    assert_eq!(ActionError::SnapshotIdUnavailable.message(), "Failed to get snapshot ID");
    let nf = ActionError::InstanceNotFound { id: "i-9".to_string() };
    assert_eq!(nf.message(), "Instance with ID i-9 not found");
    let rt = ActionError::Runtime { detail: "no reactor".to_string() };
    assert_eq!(rt.message(), "Failed to create runtime: no reactor");
}

#[test]
fn operation_texts() {
    let e = ActionError::Cloud { operation: Operation::TagInstance, detail: "denied".to_string() };
    assert_eq!(e.message(), "Failed to set instance metadata: denied");
    let e = ActionError::Cloud { operation: Operation::CheckSnapshot, detail: "x".to_string() };
    assert_eq!(e.message(), "Failed to check if snapshot exists: x");
}
