use vstd::prelude::*;
use crate::params::ParamFault;
use crate::text::join;

verus! {

/// The declared kind of an action parameter.
#[derive(Clone, Copy, Debug, PartialEq, Eq, Structural)]
pub enum ParamType {
    String,
    Integer,
}

/// A cloud call that can fail.
#[derive(Clone, Copy, Debug, PartialEq, Eq, Structural)]
pub enum Operation {
    Connect,
    ListInstances,
    RunInstance,
    TerminateInstance,
    DescribeInstance,
    CheckInstance,
    StartInstance,
    ListVolumes,
    CheckVolume,
    CreateVolume,
    DeleteVolume,
    AttachVolume,
    DetachVolume,
    CreateSnapshot,
    DeleteSnapshot,
    CheckSnapshot,
    RebootInstance,
    TagInstance,
}

/// The words that open the message of a failed call.
pub open spec fn operation_text(op: Operation) -> Seq<char> {
    match op {
        Operation::Connect => "Failed to connect to AWS"@,
        Operation::ListInstances => "Failed to list EC2 instances"@,
        Operation::RunInstance => "Failed to create EC2 instance"@,
        Operation::TerminateInstance => "Failed to terminate EC2 instance"@,
        Operation::DescribeInstance => "Failed to get EC2 instance details"@,
        Operation::CheckInstance => "Failed to check if instance exists"@,
        Operation::StartInstance => "Failed to start EC2 instance"@,
        Operation::ListVolumes => "Failed to list EBS volumes"@,
        Operation::CheckVolume => "Failed to check if volume exists"@,
        Operation::CreateVolume => "Failed to create EBS volume"@,
        Operation::DeleteVolume => "Failed to delete EBS volume"@,
        Operation::AttachVolume => "Failed to attach EBS volume"@,
        Operation::DetachVolume => "Failed to detach EBS volume"@,
        Operation::CreateSnapshot => "Failed to create snapshot"@,
        Operation::DeleteSnapshot => "Failed to delete snapshot"@,
        Operation::CheckSnapshot => "Failed to check if snapshot exists"@,
        Operation::RebootInstance => "Failed to reboot EC2 instance"@,
        Operation::TagInstance => "Failed to set instance metadata"@,
    }
}

impl Operation {
    pub fn text(&self) -> (r: &'static str)
        ensures
            r@ == operation_text(*self),
    {
        match self {
            Operation::Connect => "Failed to connect to AWS",
            Operation::ListInstances => "Failed to list EC2 instances",
            Operation::RunInstance => "Failed to create EC2 instance",
            Operation::TerminateInstance => "Failed to terminate EC2 instance",
            Operation::DescribeInstance => "Failed to get EC2 instance details",
            Operation::CheckInstance => "Failed to check if instance exists",
            Operation::StartInstance => "Failed to start EC2 instance",
            Operation::ListVolumes => "Failed to list EBS volumes",
            Operation::CheckVolume => "Failed to check if volume exists",
            Operation::CreateVolume => "Failed to create EBS volume",
            Operation::DeleteVolume => "Failed to delete EBS volume",
            Operation::AttachVolume => "Failed to attach EBS volume",
            Operation::DetachVolume => "Failed to detach EBS volume",
            Operation::CreateSnapshot => "Failed to create snapshot",
            Operation::DeleteSnapshot => "Failed to delete snapshot",
            Operation::CheckSnapshot => "Failed to check if snapshot exists",
            Operation::RebootInstance => "Failed to reboot EC2 instance",
            Operation::TagInstance => "Failed to set instance metadata",
        }
    }
}

/// Why an action did not complete.
pub enum ActionError {
    /// A parameter is missing or of the wrong kind.
    Parameter { name: String, fault: ParamFault, expected: ParamType },
    /// The action is not in the catalog.
    UnknownAction { action: String },
    /// A cloud call failed; `detail` is the call's own account of it.
    Cloud { operation: Operation, detail: String },
    NoInstanceCreated,
    NoVolumeId,
    NoSnapshotId,
    /// A snapshot was made but its identifier could not be read back.
    SnapshotIdUnavailable,
    InstanceNotFound { id: String },
    /// The executor that runs the cloud calls could not be built.
    Runtime { detail: String },
}

/// `ActionError` with its text as character sequences.
pub enum ErrorView {
    Parameter { name: Seq<char>, fault: ParamFault, expected: ParamType },
    UnknownAction { action: Seq<char> },
    Cloud { operation: Operation, detail: Seq<char> },
    NoInstanceCreated,
    NoVolumeId,
    NoSnapshotId,
    SnapshotIdUnavailable,
    InstanceNotFound { id: Seq<char> },
    Runtime { detail: Seq<char> },
}

impl View for ActionError {
    type V = ErrorView;

    open spec fn view(&self) -> ErrorView {
        match self {
            ActionError::Parameter { name, fault, expected } => ErrorView::Parameter {
                name: name@,
                fault: *fault,
                expected: *expected,
            },
            ActionError::UnknownAction { action } => ErrorView::UnknownAction { action: action@ },
            ActionError::Cloud { operation, detail } => ErrorView::Cloud {
                operation: *operation,
                detail: detail@,
            },
            ActionError::NoInstanceCreated => ErrorView::NoInstanceCreated,
            ActionError::NoVolumeId => ErrorView::NoVolumeId,
            ActionError::NoSnapshotId => ErrorView::NoSnapshotId,
            ActionError::SnapshotIdUnavailable => ErrorView::SnapshotIdUnavailable,
            ActionError::InstanceNotFound { id } => ErrorView::InstanceNotFound { id: id@ },
            ActionError::Runtime { detail } => ErrorView::Runtime { detail: detail@ },
        }
    }
}

/// The message reported to the host for an error.
pub open spec fn error_text(e: ErrorView) -> Seq<char> {
    match e {
        ErrorView::Parameter { name, fault, expected } => match fault {
            ParamFault::Missing => "Missing required parameter: "@ + name,
            ParamFault::WrongType => match expected {
                ParamType::String => "Parameter '"@ + name + "' must be a string"@,
                ParamType::Integer => "Parameter '"@ + name + "' must be an integer"@,
            },
        },
        ErrorView::UnknownAction { action } => "Action '"@ + action + "' not found"@,
        ErrorView::Cloud { operation, detail } => operation_text(operation) + ": "@ + detail,
        ErrorView::NoInstanceCreated => "No instance was created"@,
        ErrorView::NoVolumeId => "No volume ID was returned"@,
        ErrorView::NoSnapshotId => "No snapshot ID was returned"@,
        ErrorView::SnapshotIdUnavailable => "Failed to get snapshot ID"@,
        ErrorView::InstanceNotFound { id } => "Instance with ID "@ + id + " not found"@,
        ErrorView::Runtime { detail } => "Failed to create runtime: "@ + detail,
    }
}

impl ActionError {
    /// The error of a parameter that could not be read.
    pub fn parameter(name: &str, fault: ParamFault, expected: ParamType) -> (r: ActionError)
        ensures
            r@ == (ErrorView::Parameter { name: name@, fault, expected }),
    {
        ActionError::Parameter { name: String::from_str(name), fault, expected }
    }

    pub fn message(&self) -> (r: String)
        ensures
            r@ == error_text(self@),
    {
        match self {
            ActionError::Parameter { name, fault, expected } => match fault {
                ParamFault::Missing => join("Missing required parameter: ", name.as_str()),
                ParamFault::WrongType => {
                    let head = join("Parameter '", name.as_str());
                    match expected {
                        ParamType::String => join(head.as_str(), "' must be a string"),
                        ParamType::Integer => join(head.as_str(), "' must be an integer"),
                    }
                },
            },
            ActionError::UnknownAction { action } => {
                let head = join("Action '", action.as_str());
                join(head.as_str(), "' not found")
            },
            ActionError::Cloud { operation, detail } => {
                let head = join(operation.text(), ": ");
                join(head.as_str(), detail.as_str())
            },
            ActionError::NoInstanceCreated => String::from_str("No instance was created"),
            ActionError::NoVolumeId => String::from_str("No volume ID was returned"),
            ActionError::NoSnapshotId => String::from_str("No snapshot ID was returned"),
            ActionError::SnapshotIdUnavailable => String::from_str("Failed to get snapshot ID"),
            ActionError::InstanceNotFound { id } => {
                let head = join("Instance with ID ", id.as_str());
                join(head.as_str(), " not found")
            },
            ActionError::Runtime { detail } => join("Failed to create runtime: ", detail.as_str()),
        }
    }
}

} // verus!
