use vstd::prelude::*;
use crate::catalog::{ActionKind, kind_of};
use crate::error::{ActionError, ErrorView, ParamType};
use crate::params::{
    Params, ParamValue, extract_int, extract_string, extract_string_lenient, extract_string_or,
    int_param, text_param, text_param_lenient, text_param_or,
};

verus! {

/// A validated action call, with every parameter it needs.
pub enum Request {
    TestInstall,
    ListWorkers,
    CreateWorker { worker_name: String, instance_type: String, ami: String },
    DeleteWorker { worker_id: String },
    GetWorker { worker_id: String },
    HasWorker { worker_id: String },
    StartWorker { worker_id: String },
    GetVolumes,
    HasVolume { volume_id: String },
    CreateVolume { size_gb: i64, availability_zone: String, volume_type: String },
    DeleteVolume { volume_id: String },
    AttachVolume { worker_id: String, volume_id: String, device_name: String },
    DetachVolume { volume_id: String },
    CreateSnapshot { volume_id: String, snapshot_name: String },
    DeleteSnapshot { snapshot_id: String },
    HasSnapshot { snapshot_id: String },
    RebootWorker { worker_id: String },
    SetWorkerMetadata { worker_id: String, key: String, value: String },
    SnapshotVolume { source_volume_id: String, snapshot_name: String },
}

/// `Request` with its text as character sequences.
pub enum RequestView {
    TestInstall,
    ListWorkers,
    CreateWorker { worker_name: Seq<char>, instance_type: Seq<char>, ami: Seq<char> },
    DeleteWorker { worker_id: Seq<char> },
    GetWorker { worker_id: Seq<char> },
    HasWorker { worker_id: Seq<char> },
    StartWorker { worker_id: Seq<char> },
    GetVolumes,
    HasVolume { volume_id: Seq<char> },
    CreateVolume { size_gb: i64, availability_zone: Seq<char>, volume_type: Seq<char> },
    DeleteVolume { volume_id: Seq<char> },
    AttachVolume { worker_id: Seq<char>, volume_id: Seq<char>, device_name: Seq<char> },
    DetachVolume { volume_id: Seq<char> },
    CreateSnapshot { volume_id: Seq<char>, snapshot_name: Seq<char> },
    DeleteSnapshot { snapshot_id: Seq<char> },
    HasSnapshot { snapshot_id: Seq<char> },
    RebootWorker { worker_id: Seq<char> },
    SetWorkerMetadata { worker_id: Seq<char>, key: Seq<char>, value: Seq<char> },
    SnapshotVolume { source_volume_id: Seq<char>, snapshot_name: Seq<char> },
}

impl View for Request {
    type V = RequestView;

    open spec fn view(&self) -> RequestView {
        match self {
            Request::TestInstall => RequestView::TestInstall,
            Request::ListWorkers => RequestView::ListWorkers,
            Request::CreateWorker { worker_name, instance_type, ami } => RequestView::CreateWorker { worker_name: worker_name@, instance_type: instance_type@, ami: ami@ },
            Request::DeleteWorker { worker_id } => RequestView::DeleteWorker { worker_id: worker_id@ },
            Request::GetWorker { worker_id } => RequestView::GetWorker { worker_id: worker_id@ },
            Request::HasWorker { worker_id } => RequestView::HasWorker { worker_id: worker_id@ },
            Request::StartWorker { worker_id } => RequestView::StartWorker { worker_id: worker_id@ },
            Request::GetVolumes => RequestView::GetVolumes,
            Request::HasVolume { volume_id } => RequestView::HasVolume { volume_id: volume_id@ },
            Request::CreateVolume { size_gb, availability_zone, volume_type } => RequestView::CreateVolume { size_gb: *size_gb, availability_zone: availability_zone@, volume_type: volume_type@ },
            Request::DeleteVolume { volume_id } => RequestView::DeleteVolume { volume_id: volume_id@ },
            Request::AttachVolume { worker_id, volume_id, device_name } => RequestView::AttachVolume { worker_id: worker_id@, volume_id: volume_id@, device_name: device_name@ },
            Request::DetachVolume { volume_id } => RequestView::DetachVolume { volume_id: volume_id@ },
            Request::CreateSnapshot { volume_id, snapshot_name } => RequestView::CreateSnapshot { volume_id: volume_id@, snapshot_name: snapshot_name@ },
            Request::DeleteSnapshot { snapshot_id } => RequestView::DeleteSnapshot { snapshot_id: snapshot_id@ },
            Request::HasSnapshot { snapshot_id } => RequestView::HasSnapshot { snapshot_id: snapshot_id@ },
            Request::RebootWorker { worker_id } => RequestView::RebootWorker { worker_id: worker_id@ },
            Request::SetWorkerMetadata { worker_id, key, value } => RequestView::SetWorkerMetadata { worker_id: worker_id@, key: key@, value: value@ },
            Request::SnapshotVolume { source_volume_id, snapshot_name } => RequestView::SnapshotVolume { source_volume_id: source_volume_id@, snapshot_name: snapshot_name@ },
        }
    }
}

impl Request {
    /// The action this request carries out.
    pub open spec fn kind(self) -> ActionKind {
        match self {
            Request::TestInstall => ActionKind::TestInstall,
            Request::ListWorkers => ActionKind::ListWorkers,
            Request::CreateWorker { .. } => ActionKind::CreateWorker,
            Request::DeleteWorker { .. } => ActionKind::DeleteWorker,
            Request::GetWorker { .. } => ActionKind::GetWorker,
            Request::HasWorker { .. } => ActionKind::HasWorker,
            Request::StartWorker { .. } => ActionKind::StartWorker,
            Request::GetVolumes => ActionKind::GetVolumes,
            Request::HasVolume { .. } => ActionKind::HasVolume,
            Request::CreateVolume { .. } => ActionKind::CreateVolume,
            Request::DeleteVolume { .. } => ActionKind::DeleteVolume,
            Request::AttachVolume { .. } => ActionKind::AttachVolume,
            Request::DetachVolume { .. } => ActionKind::DetachVolume,
            Request::CreateSnapshot { .. } => ActionKind::CreateSnapshot,
            Request::DeleteSnapshot { .. } => ActionKind::DeleteSnapshot,
            Request::HasSnapshot { .. } => ActionKind::HasSnapshot,
            Request::RebootWorker { .. } => ActionKind::RebootWorker,
            Request::SetWorkerMetadata { .. } => ActionKind::SetWorkerMetadata,
            Request::SnapshotVolume { .. } => ActionKind::SnapshotVolume,
        }
    }
}

/// A request together with the region it is meant for, if one was given.
pub struct Invocation {
    pub region: Option<String>,
    pub request: Request,
}

/// A required text parameter, or the error that reports it.
pub open spec fn required_text(p: Map<Seq<char>, ParamValue>, name: Seq<char>) -> Result<Seq<char>, ErrorView> {
    match text_param(p, name) {
        Ok(s) => Ok(s),
        Err(fault) => Err(ErrorView::Parameter { name, fault, expected: ParamType::String }),
    }
}

/// An optional text parameter with its default, or the error that reports it.
pub open spec fn optional_text(p: Map<Seq<char>, ParamValue>, name: Seq<char>, dflt: Seq<char>) -> Result<Seq<char>, ErrorView> {
    match text_param_or(p, name, dflt) {
        Ok(s) => Ok(s),
        Err(fault) => Err(ErrorView::Parameter { name, fault, expected: ParamType::String }),
    }
}

/// A required integer parameter, or the error that reports it.
pub open spec fn required_int(p: Map<Seq<char>, ParamValue>, name: Seq<char>) -> Result<i64, ErrorView> {
    match int_param(p, name) {
        Ok(i) => Ok(i),
        Err(fault) => Err(ErrorView::Parameter { name, fault, expected: ParamType::Integer }),
    }
}

/// The request that parameters `p` make of action `k`: parameters are read in
/// order and the first that cannot be read is reported.
pub open spec fn request_of(k: ActionKind, p: Map<Seq<char>, ParamValue>) -> Result<RequestView, ErrorView> {
    match k {
        ActionKind::TestInstall => Ok(RequestView::TestInstall),
        ActionKind::ListWorkers => Ok(RequestView::ListWorkers),
        ActionKind::CreateWorker => {
            match required_text(p, "worker_name"@) {
                Err(e) => Err(e),
                Ok(worker_name) => {
                match optional_text(p, "instance_type"@, "t2.micro"@) {
                    Err(e) => Err(e),
                    Ok(instance_type) => {
                    match optional_text(p, "ami"@, "ami-0c55b159cbfafe1f0"@) {
                        Err(e) => Err(e),
                        Ok(ami) => Ok(RequestView::CreateWorker { worker_name, instance_type, ami }),
                    }
                    },
                }
                },
            }
        },
        ActionKind::DeleteWorker => {
            match required_text(p, "worker_id"@) {
                Err(e) => Err(e),
                Ok(worker_id) => Ok(RequestView::DeleteWorker { worker_id }),
            }
        },
        ActionKind::GetWorker => {
            match required_text(p, "worker_id"@) {
                Err(e) => Err(e),
                Ok(worker_id) => Ok(RequestView::GetWorker { worker_id }),
            }
        },
        ActionKind::HasWorker => {
            match required_text(p, "worker_id"@) {
                Err(e) => Err(e),
                Ok(worker_id) => Ok(RequestView::HasWorker { worker_id }),
            }
        },
        ActionKind::StartWorker => {
            match required_text(p, "worker_id"@) {
                Err(e) => Err(e),
                Ok(worker_id) => Ok(RequestView::StartWorker { worker_id }),
            }
        },
        ActionKind::GetVolumes => Ok(RequestView::GetVolumes),
        ActionKind::HasVolume => {
            match required_text(p, "volume_id"@) {
                Err(e) => Err(e),
                Ok(volume_id) => Ok(RequestView::HasVolume { volume_id }),
            }
        },
        ActionKind::CreateVolume => {
            match required_int(p, "size_gb"@) {
                Err(e) => Err(e),
                Ok(size_gb) => {
                match required_text(p, "availability_zone"@) {
                    Err(e) => Err(e),
                    Ok(availability_zone) => {
                    match optional_text(p, "volume_type"@, "gp2"@) {
                        Err(e) => Err(e),
                        Ok(volume_type) => Ok(RequestView::CreateVolume { size_gb, availability_zone, volume_type }),
                    }
                    },
                }
                },
            }
        },
        ActionKind::DeleteVolume => {
            match required_text(p, "volume_id"@) {
                Err(e) => Err(e),
                Ok(volume_id) => Ok(RequestView::DeleteVolume { volume_id }),
            }
        },
        ActionKind::AttachVolume => {
            match required_text(p, "worker_id"@) {
                Err(e) => Err(e),
                Ok(worker_id) => {
                match required_text(p, "volume_id"@) {
                    Err(e) => Err(e),
                    Ok(volume_id) => {
                    match required_text(p, "device_name"@) {
                        Err(e) => Err(e),
                        Ok(device_name) => Ok(RequestView::AttachVolume { worker_id, volume_id, device_name }),
                    }
                    },
                }
                },
            }
        },
        ActionKind::DetachVolume => {
            match required_text(p, "volume_id"@) {
                Err(e) => Err(e),
                Ok(volume_id) => Ok(RequestView::DetachVolume { volume_id }),
            }
        },
        ActionKind::CreateSnapshot => {
            match required_text(p, "volume_id"@) {
                Err(e) => Err(e),
                Ok(volume_id) => {
                match required_text(p, "snapshot_name"@) {
                    Err(e) => Err(e),
                    Ok(snapshot_name) => Ok(RequestView::CreateSnapshot { volume_id, snapshot_name }),
                }
                },
            }
        },
        ActionKind::DeleteSnapshot => {
            match required_text(p, "snapshot_id"@) {
                Err(e) => Err(e),
                Ok(snapshot_id) => Ok(RequestView::DeleteSnapshot { snapshot_id }),
            }
        },
        ActionKind::HasSnapshot => {
            match required_text(p, "snapshot_id"@) {
                Err(e) => Err(e),
                Ok(snapshot_id) => Ok(RequestView::HasSnapshot { snapshot_id }),
            }
        },
        ActionKind::RebootWorker => {
            match required_text(p, "worker_id"@) {
                Err(e) => Err(e),
                Ok(worker_id) => Ok(RequestView::RebootWorker { worker_id }),
            }
        },
        ActionKind::SetWorkerMetadata => {
            match required_text(p, "worker_id"@) {
                Err(e) => Err(e),
                Ok(worker_id) => {
                match required_text(p, "key"@) {
                    Err(e) => Err(e),
                    Ok(key) => {
                    match required_text(p, "value"@) {
                        Err(e) => Err(e),
                        Ok(value) => Ok(RequestView::SetWorkerMetadata { worker_id, key, value }),
                    }
                    },
                }
                },
            }
        },
        ActionKind::SnapshotVolume => {
            match required_text(p, "source_volume_id"@) {
                Err(e) => Err(e),
                Ok(source_volume_id) => {
                match required_text(p, "snapshot_name"@) {
                    Err(e) => Err(e),
                    Ok(snapshot_name) => Ok(RequestView::SnapshotVolume { source_volume_id, snapshot_name }),
                }
                },
            }
        },
    }
}

/// The region that parameters `p` name, if they name one as text.
pub open spec fn region_of(p: Map<Seq<char>, ParamValue>) -> Option<Seq<char>> {
    text_param_lenient(p, "region"@)
}

/// What a call of action `name` with parameters `p` comes to: the request and
/// its region, or the error that stops it.
pub open spec fn planned(name: Seq<char>, p: Map<Seq<char>, ParamValue>, r: Result<Invocation, ActionError>) -> bool {
    match kind_of(name) {
        None => r matches Err(e) && e@ == (ErrorView::UnknownAction { action: name }),
        Some(k) => match request_of(k, p) {
            Ok(req) => r matches Ok(inv) && inv.request@ == req && inv.request.kind() == k
                && match region_of(p) {
                Some(g) => inv.region matches Some(s) && s@ == g,
                None => inv.region is None,
            },
            Err(e) => r matches Err(x) && x@ == e,
        },
    }
}

fn text_arg(params: &Params, name: &str) -> (r: Result<String, ActionError>)
    ensures
        match required_text(params@, name@) {
            Ok(s) => r matches Ok(v) && v@ == s,
            Err(e) => r matches Err(x) && x@ == e,
        },
{
    match extract_string(params, name) {
        Ok(s) => Ok(s),
        Err(fault) => Err(ActionError::parameter(name, fault, ParamType::String)),
    }
}

fn text_arg_or(params: &Params, name: &str, dflt: &str) -> (r: Result<String, ActionError>)
    ensures
        match optional_text(params@, name@, dflt@) {
            Ok(s) => r matches Ok(v) && v@ == s,
            Err(e) => r matches Err(x) && x@ == e,
        },
{
    match extract_string_or(params, name, dflt) {
        Ok(s) => Ok(s),
        Err(fault) => Err(ActionError::parameter(name, fault, ParamType::String)),
    }
}

fn int_arg(params: &Params, name: &str) -> (r: Result<i64, ActionError>)
    ensures
        match required_int(params@, name@) {
            Ok(i) => r == Ok::<i64, ActionError>(i),
            Err(e) => r matches Err(x) && x@ == e,
        },
{
    match extract_int(params, name) {
        Ok(i) => Ok(i),
        Err(fault) => Err(ActionError::parameter(name, fault, ParamType::Integer)),
    }
}

/// Reads the parameters of action `k` into a request.
pub fn read_request(k: ActionKind, params: &Params) -> (r: Result<Request, ActionError>)
    ensures
        match request_of(k, params@) {
            Ok(req) => r matches Ok(x) && x@ == req && x.kind() == k,
            Err(e) => r matches Err(x) && x@ == e,
        },
{
    match k {
        ActionKind::TestInstall => Ok(Request::TestInstall),
        ActionKind::ListWorkers => Ok(Request::ListWorkers),
        ActionKind::CreateWorker => {
            let worker_name = match text_arg(params, "worker_name") {
                Ok(x) => x,
                Err(e) => return Err(e),
            };
            let instance_type = match text_arg_or(params, "instance_type", "t2.micro") {
                Ok(x) => x,
                Err(e) => return Err(e),
            };
            let ami = match text_arg_or(params, "ami", "ami-0c55b159cbfafe1f0") {
                Ok(x) => x,
                Err(e) => return Err(e),
            };
            Ok(Request::CreateWorker { worker_name, instance_type, ami })
        },
        ActionKind::DeleteWorker => {
            let worker_id = match text_arg(params, "worker_id") {
                Ok(x) => x,
                Err(e) => return Err(e),
            };
            Ok(Request::DeleteWorker { worker_id })
        },
        ActionKind::GetWorker => {
            let worker_id = match text_arg(params, "worker_id") {
                Ok(x) => x,
                Err(e) => return Err(e),
            };
            Ok(Request::GetWorker { worker_id })
        },
        ActionKind::HasWorker => {
            let worker_id = match text_arg(params, "worker_id") {
                Ok(x) => x,
                Err(e) => return Err(e),
            };
            Ok(Request::HasWorker { worker_id })
        },
        ActionKind::StartWorker => {
            let worker_id = match text_arg(params, "worker_id") {
                Ok(x) => x,
                Err(e) => return Err(e),
            };
            Ok(Request::StartWorker { worker_id })
        },
        ActionKind::GetVolumes => Ok(Request::GetVolumes),
        ActionKind::HasVolume => {
            let volume_id = match text_arg(params, "volume_id") {
                Ok(x) => x,
                Err(e) => return Err(e),
            };
            Ok(Request::HasVolume { volume_id })
        },
        ActionKind::CreateVolume => {
            let size_gb = match int_arg(params, "size_gb") {
                Ok(x) => x,
                Err(e) => return Err(e),
            };
            let availability_zone = match text_arg(params, "availability_zone") {
                Ok(x) => x,
                Err(e) => return Err(e),
            };
            let volume_type = match text_arg_or(params, "volume_type", "gp2") {
                Ok(x) => x,
                Err(e) => return Err(e),
            };
            Ok(Request::CreateVolume { size_gb, availability_zone, volume_type })
        },
        ActionKind::DeleteVolume => {
            let volume_id = match text_arg(params, "volume_id") {
                Ok(x) => x,
                Err(e) => return Err(e),
            };
            Ok(Request::DeleteVolume { volume_id })
        },
        ActionKind::AttachVolume => {
            let worker_id = match text_arg(params, "worker_id") {
                Ok(x) => x,
                Err(e) => return Err(e),
            };
            let volume_id = match text_arg(params, "volume_id") {
                Ok(x) => x,
                Err(e) => return Err(e),
            };
            let device_name = match text_arg(params, "device_name") {
                Ok(x) => x,
                Err(e) => return Err(e),
            };
            Ok(Request::AttachVolume { worker_id, volume_id, device_name })
        },
        ActionKind::DetachVolume => {
            let volume_id = match text_arg(params, "volume_id") {
                Ok(x) => x,
                Err(e) => return Err(e),
            };
            Ok(Request::DetachVolume { volume_id })
        },
        ActionKind::CreateSnapshot => {
            let volume_id = match text_arg(params, "volume_id") {
                Ok(x) => x,
                Err(e) => return Err(e),
            };
            let snapshot_name = match text_arg(params, "snapshot_name") {
                Ok(x) => x,
                Err(e) => return Err(e),
            };
            Ok(Request::CreateSnapshot { volume_id, snapshot_name })
        },
        ActionKind::DeleteSnapshot => {
            let snapshot_id = match text_arg(params, "snapshot_id") {
                Ok(x) => x,
                Err(e) => return Err(e),
            };
            Ok(Request::DeleteSnapshot { snapshot_id })
        },
        ActionKind::HasSnapshot => {
            let snapshot_id = match text_arg(params, "snapshot_id") {
                Ok(x) => x,
                Err(e) => return Err(e),
            };
            Ok(Request::HasSnapshot { snapshot_id })
        },
        ActionKind::RebootWorker => {
            let worker_id = match text_arg(params, "worker_id") {
                Ok(x) => x,
                Err(e) => return Err(e),
            };
            Ok(Request::RebootWorker { worker_id })
        },
        ActionKind::SetWorkerMetadata => {
            let worker_id = match text_arg(params, "worker_id") {
                Ok(x) => x,
                Err(e) => return Err(e),
            };
            let key = match text_arg(params, "key") {
                Ok(x) => x,
                Err(e) => return Err(e),
            };
            let value = match text_arg(params, "value") {
                Ok(x) => x,
                Err(e) => return Err(e),
            };
            Ok(Request::SetWorkerMetadata { worker_id, key, value })
        },
        ActionKind::SnapshotVolume => {
            let source_volume_id = match text_arg(params, "source_volume_id") {
                Ok(x) => x,
                Err(e) => return Err(e),
            };
            let snapshot_name = match text_arg(params, "snapshot_name") {
                Ok(x) => x,
                Err(e) => return Err(e),
            };
            Ok(Request::SnapshotVolume { source_volume_id, snapshot_name })
        },
    }
}

/// Plans a call of action `name`: finds the action, reads its parameters and
/// the region. A region that is not text is ignored.
pub fn plan(name: &str, params: &Params) -> (r: Result<Invocation, ActionError>)
    ensures
        planned(name@, params@, r),
{
    let region = extract_string_lenient(params, "region");
    match ActionKind::from_name(name) {
        None => Err(ActionError::UnknownAction { action: String::from_str(name) }),
        Some(k) => match read_request(k, params) {
            Ok(request) => Ok(Invocation { region, request }),
            Err(e) => Err(e),
        },
    }
}

} // verus!
