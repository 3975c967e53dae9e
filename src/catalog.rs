use vstd::prelude::*;
use crate::error::ParamType;
use crate::text::same_text;

verus! {

/// The actions this provider offers.
#[derive(Clone, Copy, Debug, PartialEq, Eq, Structural)]
pub enum ActionKind {
    TestInstall,
    ListWorkers,
    CreateWorker,
    DeleteWorker,
    GetWorker,
    HasWorker,
    StartWorker,
    GetVolumes,
    HasVolume,
    CreateVolume,
    DeleteVolume,
    AttachVolume,
    DetachVolume,
    CreateSnapshot,
    DeleteSnapshot,
    HasSnapshot,
    RebootWorker,
    SetWorkerMetadata,
    SnapshotVolume,
}

/// The name under which the host asks for an action.
pub open spec fn kind_name(k: ActionKind) -> Seq<char> {
    match k {
        ActionKind::TestInstall => "test_install"@,
        ActionKind::ListWorkers => "list_workers"@,
        ActionKind::CreateWorker => "create_worker"@,
        ActionKind::DeleteWorker => "delete_worker"@,
        ActionKind::GetWorker => "get_worker"@,
        ActionKind::HasWorker => "has_worker"@,
        ActionKind::StartWorker => "start_worker"@,
        ActionKind::GetVolumes => "get_volumes"@,
        ActionKind::HasVolume => "has_volume"@,
        ActionKind::CreateVolume => "create_volume"@,
        ActionKind::DeleteVolume => "delete_volume"@,
        ActionKind::AttachVolume => "attach_volume"@,
        ActionKind::DetachVolume => "detach_volume"@,
        ActionKind::CreateSnapshot => "create_snapshot"@,
        ActionKind::DeleteSnapshot => "delete_snapshot"@,
        ActionKind::HasSnapshot => "has_snapshot"@,
        ActionKind::RebootWorker => "reboot_worker"@,
        ActionKind::SetWorkerMetadata => "set_worker_metadata"@,
        ActionKind::SnapshotVolume => "snapshot_volume"@,
    }
}

/// The action that a name asks for, if any.
pub open spec fn kind_of(name: Seq<char>) -> Option<ActionKind> {
    if name == "test_install"@ {
        Some(ActionKind::TestInstall)
    } else if name == "list_workers"@ {
        Some(ActionKind::ListWorkers)
    } else if name == "create_worker"@ {
        Some(ActionKind::CreateWorker)
    } else if name == "delete_worker"@ {
        Some(ActionKind::DeleteWorker)
    } else if name == "get_worker"@ {
        Some(ActionKind::GetWorker)
    } else if name == "has_worker"@ {
        Some(ActionKind::HasWorker)
    } else if name == "start_worker"@ {
        Some(ActionKind::StartWorker)
    } else if name == "get_volumes"@ {
        Some(ActionKind::GetVolumes)
    } else if name == "has_volume"@ {
        Some(ActionKind::HasVolume)
    } else if name == "create_volume"@ {
        Some(ActionKind::CreateVolume)
    } else if name == "delete_volume"@ {
        Some(ActionKind::DeleteVolume)
    } else if name == "attach_volume"@ {
        Some(ActionKind::AttachVolume)
    } else if name == "detach_volume"@ {
        Some(ActionKind::DetachVolume)
    } else if name == "create_snapshot"@ {
        Some(ActionKind::CreateSnapshot)
    } else if name == "delete_snapshot"@ {
        Some(ActionKind::DeleteSnapshot)
    } else if name == "has_snapshot"@ {
        Some(ActionKind::HasSnapshot)
    } else if name == "reboot_worker"@ {
        Some(ActionKind::RebootWorker)
    } else if name == "set_worker_metadata"@ {
        Some(ActionKind::SetWorkerMetadata)
    } else if name == "snapshot_volume"@ {
        Some(ActionKind::SnapshotVolume)
    } else {
        None
    }
}

/// Every action, in the order in which the catalog lists them.
pub open spec fn all_kinds() -> Seq<ActionKind> {
    seq![
        ActionKind::TestInstall,
        ActionKind::ListWorkers,
        ActionKind::CreateWorker,
        ActionKind::DeleteWorker,
        ActionKind::GetWorker,
        ActionKind::HasWorker,
        ActionKind::StartWorker,
        ActionKind::GetVolumes,
        ActionKind::HasVolume,
        ActionKind::CreateVolume,
        ActionKind::DeleteVolume,
        ActionKind::AttachVolume,
        ActionKind::DetachVolume,
        ActionKind::CreateSnapshot,
        ActionKind::DeleteSnapshot,
        ActionKind::HasSnapshot,
        ActionKind::RebootWorker,
        ActionKind::SetWorkerMetadata,
        ActionKind::SnapshotVolume,
    ]
}

/// One parameter of an action as the catalog declares it.
pub struct ParamDef {
    pub name: String,
    pub description: String,
    pub param_type: ParamType,
    pub required: bool,
    /// What an optional parameter stands for when it is left out.
    pub default: Option<String>,
}

/// `ParamDef` with its text as character sequences.
pub struct ParamSpec {
    pub name: Seq<char>,
    pub description: Seq<char>,
    pub param_type: ParamType,
    pub required: bool,
    pub default: Option<Seq<char>>,
}

impl View for ParamDef {
    type V = ParamSpec;

    open spec fn view(&self) -> ParamSpec {
        ParamSpec {
            name: self.name@,
            description: self.description@,
            param_type: self.param_type,
            required: self.required,
            default: match self.default {
                Some(d) => Some(d@),
                None => None,
            },
        }
    }
}

/// An action and the parameters it takes.
pub struct ActionDefinition {
    pub name: String,
    pub description: String,
    pub parameters: Vec<ParamDef>,
}

/// `ActionDefinition` with its text as character sequences.
pub struct DefinitionSpec {
    pub name: Seq<char>,
    pub description: Seq<char>,
    pub parameters: Seq<ParamSpec>,
}

impl View for ActionDefinition {
    type V = DefinitionSpec;

    open spec fn view(&self) -> DefinitionSpec {
        DefinitionSpec {
            name: self.name@,
            description: self.description@,
            parameters: self.parameters@.map_values(|p: ParamDef| p@),
        }
    }
}

pub open spec fn required_spec(name: Seq<char>, description: Seq<char>, param_type: ParamType) -> ParamSpec {
    ParamSpec { name, description, param_type, required: true, default: None }
}

pub open spec fn optional_spec(name: Seq<char>, description: Seq<char>, default: Seq<char>) -> ParamSpec {
    ParamSpec { name, description, param_type: ParamType::String, required: false, default: Some(default) }
}

/// What each action is for.
pub open spec fn kind_description(k: ActionKind) -> Seq<char> {
    match k {
        ActionKind::TestInstall => "Test if AWS credentials are properly configured"@,
        ActionKind::ListWorkers => "List all EC2 instances"@,
        ActionKind::CreateWorker => "Create a new EC2 instance"@,
        ActionKind::DeleteWorker => "Terminate an EC2 instance"@,
        ActionKind::GetWorker => "Get information about an EC2 instance"@,
        ActionKind::HasWorker => "Check if an EC2 instance exists"@,
        ActionKind::StartWorker => "Start an EC2 instance"@,
        ActionKind::GetVolumes => "List all EBS volumes"@,
        ActionKind::HasVolume => "Check if an EBS volume exists"@,
        ActionKind::CreateVolume => "Create a new EBS volume"@,
        ActionKind::DeleteVolume => "Delete an EBS volume"@,
        ActionKind::AttachVolume => "Attach an EBS volume to an EC2 instance"@,
        ActionKind::DetachVolume => "Detach an EBS volume from an EC2 instance"@,
        ActionKind::CreateSnapshot => "Create a snapshot of an EBS volume"@,
        ActionKind::DeleteSnapshot => "Delete a snapshot"@,
        ActionKind::HasSnapshot => "Check if a snapshot exists"@,
        ActionKind::RebootWorker => "Reboot an EC2 instance"@,
        ActionKind::SetWorkerMetadata => "Set metadata (tags) for an EC2 instance"@,
        ActionKind::SnapshotVolume => "Create a snapshot of an EBS volume"@,
    }
}

/// The parameters of each action, in order; the region always comes last.
pub open spec fn kind_params(k: ActionKind) -> Seq<ParamSpec> {
    match k {
        ActionKind::TestInstall => seq![optional_spec("region"@, "AWS region"@, "us-east-1"@)],
        ActionKind::ListWorkers => seq![optional_spec("region"@, "AWS region"@, "us-east-1"@)],
        ActionKind::CreateWorker => seq![required_spec("worker_name"@, "Name of the instance to create"@, ParamType::String), optional_spec("instance_type"@, "EC2 instance type"@, "t2.micro"@), optional_spec("ami"@, "Amazon Machine Image ID"@, "ami-0c55b159cbfafe1f0"@), optional_spec("region"@, "AWS region"@, "us-east-1"@)],
        ActionKind::DeleteWorker => seq![required_spec("worker_id"@, "ID of the instance to terminate"@, ParamType::String), optional_spec("region"@, "AWS region"@, "us-east-1"@)],
        ActionKind::GetWorker => seq![required_spec("worker_id"@, "ID of the instance"@, ParamType::String), optional_spec("region"@, "AWS region"@, "us-east-1"@)],
        ActionKind::HasWorker => seq![required_spec("worker_id"@, "ID of the instance"@, ParamType::String), optional_spec("region"@, "AWS region"@, "us-east-1"@)],
        ActionKind::StartWorker => seq![required_spec("worker_id"@, "ID of the instance to start"@, ParamType::String), optional_spec("region"@, "AWS region"@, "us-east-1"@)],
        ActionKind::GetVolumes => seq![optional_spec("region"@, "AWS region"@, "us-east-1"@)],
        ActionKind::HasVolume => seq![required_spec("volume_id"@, "ID of the volume"@, ParamType::String), optional_spec("region"@, "AWS region"@, "us-east-1"@)],
        ActionKind::CreateVolume => seq![required_spec("size_gb"@, "Size in GB"@, ParamType::Integer), required_spec("availability_zone"@, "Availability zone"@, ParamType::String), optional_spec("volume_type"@, "Volume type (gp2, io1, etc.)"@, "gp2"@), optional_spec("region"@, "AWS region"@, "us-east-1"@)],
        ActionKind::DeleteVolume => seq![required_spec("volume_id"@, "ID of the volume"@, ParamType::String), optional_spec("region"@, "AWS region"@, "us-east-1"@)],
        ActionKind::AttachVolume => seq![required_spec("worker_id"@, "ID of the instance"@, ParamType::String), required_spec("volume_id"@, "ID of the volume"@, ParamType::String), required_spec("device_name"@, "Device name (e.g., /dev/sdf)"@, ParamType::String), optional_spec("region"@, "AWS region"@, "us-east-1"@)],
        ActionKind::DetachVolume => seq![required_spec("volume_id"@, "ID of the volume"@, ParamType::String), optional_spec("region"@, "AWS region"@, "us-east-1"@)],
        ActionKind::CreateSnapshot => seq![required_spec("volume_id"@, "ID of the volume"@, ParamType::String), required_spec("snapshot_name"@, "Name of the snapshot"@, ParamType::String), optional_spec("region"@, "AWS region"@, "us-east-1"@)],
        ActionKind::DeleteSnapshot => seq![required_spec("snapshot_id"@, "ID of the snapshot"@, ParamType::String), optional_spec("region"@, "AWS region"@, "us-east-1"@)],
        ActionKind::HasSnapshot => seq![required_spec("snapshot_id"@, "ID of the snapshot"@, ParamType::String), optional_spec("region"@, "AWS region"@, "us-east-1"@)],
        ActionKind::RebootWorker => seq![required_spec("worker_id"@, "ID of the instance"@, ParamType::String), optional_spec("region"@, "AWS region"@, "us-east-1"@)],
        ActionKind::SetWorkerMetadata => seq![required_spec("worker_id"@, "ID of the instance"@, ParamType::String), required_spec("key"@, "Metadata key"@, ParamType::String), required_spec("value"@, "Metadata value"@, ParamType::String), optional_spec("region"@, "AWS region"@, "us-east-1"@)],
        ActionKind::SnapshotVolume => seq![required_spec("source_volume_id"@, "ID of the source volume"@, ParamType::String), required_spec("snapshot_name"@, "Name for the snapshot"@, ParamType::String), optional_spec("region"@, "AWS region"@, "us-east-1"@)],
    }
}

/// The catalog entry of an action.
pub open spec fn definition_of(k: ActionKind) -> DefinitionSpec {
    DefinitionSpec { name: kind_name(k), description: kind_description(k), parameters: kind_params(k) }
}

fn required_param(name: &str, description: &str, param_type: ParamType) -> (r: ParamDef)
    ensures
        r@ == required_spec(name@, description@, param_type),
{
    ParamDef {
        name: String::from_str(name),
        description: String::from_str(description),
        param_type,
        required: true,
        default: None,
    }
}

fn optional_param(name: &str, description: &str, default: &str) -> (r: ParamDef)
    ensures
        r@ == optional_spec(name@, description@, default@),
{
    ParamDef {
        name: String::from_str(name),
        description: String::from_str(description),
        param_type: ParamType::String,
        required: false,
        default: Some(String::from_str(default)),
    }
}

impl ActionKind {
    /// The action that `name` asks for, if any.
    pub fn from_name(name: &str) -> (r: Option<ActionKind>)
        ensures
            r == kind_of(name@),
    {
        if same_text(name, "test_install") {
            Some(ActionKind::TestInstall)
        } else if same_text(name, "list_workers") {
            Some(ActionKind::ListWorkers)
        } else if same_text(name, "create_worker") {
            Some(ActionKind::CreateWorker)
        } else if same_text(name, "delete_worker") {
            Some(ActionKind::DeleteWorker)
        } else if same_text(name, "get_worker") {
            Some(ActionKind::GetWorker)
        } else if same_text(name, "has_worker") {
            Some(ActionKind::HasWorker)
        } else if same_text(name, "start_worker") {
            Some(ActionKind::StartWorker)
        } else if same_text(name, "get_volumes") {
            Some(ActionKind::GetVolumes)
        } else if same_text(name, "has_volume") {
            Some(ActionKind::HasVolume)
        } else if same_text(name, "create_volume") {
            Some(ActionKind::CreateVolume)
        } else if same_text(name, "delete_volume") {
            Some(ActionKind::DeleteVolume)
        } else if same_text(name, "attach_volume") {
            Some(ActionKind::AttachVolume)
        } else if same_text(name, "detach_volume") {
            Some(ActionKind::DetachVolume)
        } else if same_text(name, "create_snapshot") {
            Some(ActionKind::CreateSnapshot)
        } else if same_text(name, "delete_snapshot") {
            Some(ActionKind::DeleteSnapshot)
        } else if same_text(name, "has_snapshot") {
            Some(ActionKind::HasSnapshot)
        } else if same_text(name, "reboot_worker") {
            Some(ActionKind::RebootWorker)
        } else if same_text(name, "set_worker_metadata") {
            Some(ActionKind::SetWorkerMetadata)
        } else if same_text(name, "snapshot_volume") {
            Some(ActionKind::SnapshotVolume)
        } else {
            None
        }
    }

    pub fn name(&self) -> (r: &'static str)
        ensures
            r@ == kind_name(*self),
    {
        match self {
            ActionKind::TestInstall => "test_install",
            ActionKind::ListWorkers => "list_workers",
            ActionKind::CreateWorker => "create_worker",
            ActionKind::DeleteWorker => "delete_worker",
            ActionKind::GetWorker => "get_worker",
            ActionKind::HasWorker => "has_worker",
            ActionKind::StartWorker => "start_worker",
            ActionKind::GetVolumes => "get_volumes",
            ActionKind::HasVolume => "has_volume",
            ActionKind::CreateVolume => "create_volume",
            ActionKind::DeleteVolume => "delete_volume",
            ActionKind::AttachVolume => "attach_volume",
            ActionKind::DetachVolume => "detach_volume",
            ActionKind::CreateSnapshot => "create_snapshot",
            ActionKind::DeleteSnapshot => "delete_snapshot",
            ActionKind::HasSnapshot => "has_snapshot",
            ActionKind::RebootWorker => "reboot_worker",
            ActionKind::SetWorkerMetadata => "set_worker_metadata",
            ActionKind::SnapshotVolume => "snapshot_volume",
        }
    }

    pub fn description(&self) -> (r: &'static str)
        ensures
            r@ == kind_description(*self),
    {
        match self {
            ActionKind::TestInstall => "Test if AWS credentials are properly configured",
            ActionKind::ListWorkers => "List all EC2 instances",
            ActionKind::CreateWorker => "Create a new EC2 instance",
            ActionKind::DeleteWorker => "Terminate an EC2 instance",
            ActionKind::GetWorker => "Get information about an EC2 instance",
            ActionKind::HasWorker => "Check if an EC2 instance exists",
            ActionKind::StartWorker => "Start an EC2 instance",
            ActionKind::GetVolumes => "List all EBS volumes",
            ActionKind::HasVolume => "Check if an EBS volume exists",
            ActionKind::CreateVolume => "Create a new EBS volume",
            ActionKind::DeleteVolume => "Delete an EBS volume",
            ActionKind::AttachVolume => "Attach an EBS volume to an EC2 instance",
            ActionKind::DetachVolume => "Detach an EBS volume from an EC2 instance",
            ActionKind::CreateSnapshot => "Create a snapshot of an EBS volume",
            ActionKind::DeleteSnapshot => "Delete a snapshot",
            ActionKind::HasSnapshot => "Check if a snapshot exists",
            ActionKind::RebootWorker => "Reboot an EC2 instance",
            ActionKind::SetWorkerMetadata => "Set metadata (tags) for an EC2 instance",
            ActionKind::SnapshotVolume => "Create a snapshot of an EBS volume",
        }
    }

    /// Every action, in catalog order.
    pub fn all() -> (r: Vec<ActionKind>)
        ensures
            r@ == all_kinds(),
    {
        let mut r: Vec<ActionKind> = Vec::new();
        r.push(ActionKind::TestInstall);
        r.push(ActionKind::ListWorkers);
        r.push(ActionKind::CreateWorker);
        r.push(ActionKind::DeleteWorker);
        r.push(ActionKind::GetWorker);
        r.push(ActionKind::HasWorker);
        r.push(ActionKind::StartWorker);
        r.push(ActionKind::GetVolumes);
        r.push(ActionKind::HasVolume);
        r.push(ActionKind::CreateVolume);
        r.push(ActionKind::DeleteVolume);
        r.push(ActionKind::AttachVolume);
        r.push(ActionKind::DetachVolume);
        r.push(ActionKind::CreateSnapshot);
        r.push(ActionKind::DeleteSnapshot);
        r.push(ActionKind::HasSnapshot);
        r.push(ActionKind::RebootWorker);
        r.push(ActionKind::SetWorkerMetadata);
        r.push(ActionKind::SnapshotVolume);
        assert(r@ =~= all_kinds());
        r
    }

    /// The declared parameters of the action, in order.
    pub fn parameters(&self) -> (r: Vec<ParamDef>)
        ensures
            r@.map_values(|p: ParamDef| p@) == kind_params(*self),
    {
        let mut r: Vec<ParamDef> = Vec::new();
        match self {
            ActionKind::TestInstall => {
                r.push(optional_param("region", "AWS region", "us-east-1"));
                assert(r@.map_values(|p: ParamDef| p@) =~= kind_params(*self));
            },
            ActionKind::ListWorkers => {
                r.push(optional_param("region", "AWS region", "us-east-1"));
                assert(r@.map_values(|p: ParamDef| p@) =~= kind_params(*self));
            },
            ActionKind::CreateWorker => {
                r.push(required_param("worker_name", "Name of the instance to create", ParamType::String));
                r.push(optional_param("instance_type", "EC2 instance type", "t2.micro"));
                r.push(optional_param("ami", "Amazon Machine Image ID", "ami-0c55b159cbfafe1f0"));
                r.push(optional_param("region", "AWS region", "us-east-1"));
                assert(r@.map_values(|p: ParamDef| p@) =~= kind_params(*self));
            },
            ActionKind::DeleteWorker => {
                r.push(required_param("worker_id", "ID of the instance to terminate", ParamType::String));
                r.push(optional_param("region", "AWS region", "us-east-1"));
                assert(r@.map_values(|p: ParamDef| p@) =~= kind_params(*self));
            },
            ActionKind::GetWorker => {
                r.push(required_param("worker_id", "ID of the instance", ParamType::String));
                r.push(optional_param("region", "AWS region", "us-east-1"));
                assert(r@.map_values(|p: ParamDef| p@) =~= kind_params(*self));
            },
            ActionKind::HasWorker => {
                r.push(required_param("worker_id", "ID of the instance", ParamType::String));
                r.push(optional_param("region", "AWS region", "us-east-1"));
                assert(r@.map_values(|p: ParamDef| p@) =~= kind_params(*self));
            },
            ActionKind::StartWorker => {
                r.push(required_param("worker_id", "ID of the instance to start", ParamType::String));
                r.push(optional_param("region", "AWS region", "us-east-1"));
                assert(r@.map_values(|p: ParamDef| p@) =~= kind_params(*self));
            },
            ActionKind::GetVolumes => {
                r.push(optional_param("region", "AWS region", "us-east-1"));
                assert(r@.map_values(|p: ParamDef| p@) =~= kind_params(*self));
            },
            ActionKind::HasVolume => {
                r.push(required_param("volume_id", "ID of the volume", ParamType::String));
                r.push(optional_param("region", "AWS region", "us-east-1"));
                assert(r@.map_values(|p: ParamDef| p@) =~= kind_params(*self));
            },
            ActionKind::CreateVolume => {
                r.push(required_param("size_gb", "Size in GB", ParamType::Integer));
                r.push(required_param("availability_zone", "Availability zone", ParamType::String));
                r.push(optional_param("volume_type", "Volume type (gp2, io1, etc.)", "gp2"));
                r.push(optional_param("region", "AWS region", "us-east-1"));
                assert(r@.map_values(|p: ParamDef| p@) =~= kind_params(*self));
            },
            ActionKind::DeleteVolume => {
                r.push(required_param("volume_id", "ID of the volume", ParamType::String));
                r.push(optional_param("region", "AWS region", "us-east-1"));
                assert(r@.map_values(|p: ParamDef| p@) =~= kind_params(*self));
            },
            ActionKind::AttachVolume => {
                r.push(required_param("worker_id", "ID of the instance", ParamType::String));
                r.push(required_param("volume_id", "ID of the volume", ParamType::String));
                r.push(required_param("device_name", "Device name (e.g., /dev/sdf)", ParamType::String));
                r.push(optional_param("region", "AWS region", "us-east-1"));
                assert(r@.map_values(|p: ParamDef| p@) =~= kind_params(*self));
            },
            ActionKind::DetachVolume => {
                r.push(required_param("volume_id", "ID of the volume", ParamType::String));
                r.push(optional_param("region", "AWS region", "us-east-1"));
                assert(r@.map_values(|p: ParamDef| p@) =~= kind_params(*self));
            },
            ActionKind::CreateSnapshot => {
                r.push(required_param("volume_id", "ID of the volume", ParamType::String));
                r.push(required_param("snapshot_name", "Name of the snapshot", ParamType::String));
                r.push(optional_param("region", "AWS region", "us-east-1"));
                assert(r@.map_values(|p: ParamDef| p@) =~= kind_params(*self));
            },
            ActionKind::DeleteSnapshot => {
                r.push(required_param("snapshot_id", "ID of the snapshot", ParamType::String));
                r.push(optional_param("region", "AWS region", "us-east-1"));
                assert(r@.map_values(|p: ParamDef| p@) =~= kind_params(*self));
            },
            ActionKind::HasSnapshot => {
                r.push(required_param("snapshot_id", "ID of the snapshot", ParamType::String));
                r.push(optional_param("region", "AWS region", "us-east-1"));
                assert(r@.map_values(|p: ParamDef| p@) =~= kind_params(*self));
            },
            ActionKind::RebootWorker => {
                r.push(required_param("worker_id", "ID of the instance", ParamType::String));
                r.push(optional_param("region", "AWS region", "us-east-1"));
                assert(r@.map_values(|p: ParamDef| p@) =~= kind_params(*self));
            },
            ActionKind::SetWorkerMetadata => {
                r.push(required_param("worker_id", "ID of the instance", ParamType::String));
                r.push(required_param("key", "Metadata key", ParamType::String));
                r.push(required_param("value", "Metadata value", ParamType::String));
                r.push(optional_param("region", "AWS region", "us-east-1"));
                assert(r@.map_values(|p: ParamDef| p@) =~= kind_params(*self));
            },
            ActionKind::SnapshotVolume => {
                r.push(required_param("source_volume_id", "ID of the source volume", ParamType::String));
                r.push(required_param("snapshot_name", "Name for the snapshot", ParamType::String));
                r.push(optional_param("region", "AWS region", "us-east-1"));
                assert(r@.map_values(|p: ParamDef| p@) =~= kind_params(*self));
            },
        }
        r
    }

    /// The catalog entry of the action.
    pub fn definition(&self) -> (r: ActionDefinition)
        ensures
            r@ == definition_of(*self),
    {
        ActionDefinition {
            name: String::from_str(self.name()),
            description: String::from_str(self.description()),
            parameters: self.parameters(),
        }
    }
}

} // verus!
