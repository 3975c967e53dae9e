use vstd::prelude::*;
use crate::catalog::{ActionKind, ParamSpec, all_kinds, kind_name, kind_of, kind_params, optional_spec};
use crate::cloud::fallback_region;
use crate::error::{ErrorView, ParamType};
use crate::params::{ParamFault, ParamValue};
use crate::request::request_of;

verus! {

/// Every action the catalog lists is found again under its own name, so the
/// host can look up and call each listed action.
pub proof fn lemma_listed_names_resolve(k: ActionKind)
    ensures
        kind_of(kind_name(k)) == Some(k),
        all_kinds().contains(k),
{
    match k {
        ActionKind::TestInstall => assert(all_kinds()[0] == k),
        ActionKind::ListWorkers => assert(all_kinds()[1] == k),
        ActionKind::CreateWorker => assert(all_kinds()[2] == k),
        ActionKind::DeleteWorker => assert(all_kinds()[3] == k),
        ActionKind::GetWorker => assert(all_kinds()[4] == k),
        ActionKind::HasWorker => assert(all_kinds()[5] == k),
        ActionKind::StartWorker => assert(all_kinds()[6] == k),
        ActionKind::GetVolumes => assert(all_kinds()[7] == k),
        ActionKind::HasVolume => assert(all_kinds()[8] == k),
        ActionKind::CreateVolume => assert(all_kinds()[9] == k),
        ActionKind::DeleteVolume => assert(all_kinds()[10] == k),
        ActionKind::AttachVolume => assert(all_kinds()[11] == k),
        ActionKind::DetachVolume => assert(all_kinds()[12] == k),
        ActionKind::CreateSnapshot => assert(all_kinds()[13] == k),
        ActionKind::DeleteSnapshot => assert(all_kinds()[14] == k),
        ActionKind::HasSnapshot => assert(all_kinds()[15] == k),
        ActionKind::RebootWorker => assert(all_kinds()[16] == k),
        ActionKind::SetWorkerMetadata => assert(all_kinds()[17] == k),
        ActionKind::SnapshotVolume => assert(all_kinds()[18] == k),
    }
    // Each name is told apart from the names listed before it by its length
    // or by a character at which the two differ.
    reveal_strlit("test_install");
    reveal_strlit("list_workers");
    reveal_strlit("create_worker");
    reveal_strlit("delete_worker");
    reveal_strlit("get_worker");
    reveal_strlit("has_worker");
    reveal_strlit("start_worker");
    reveal_strlit("get_volumes");
    reveal_strlit("has_volume");
    reveal_strlit("create_volume");
    reveal_strlit("delete_volume");
    reveal_strlit("attach_volume");
    reveal_strlit("detach_volume");
    reveal_strlit("create_snapshot");
    reveal_strlit("delete_snapshot");
    reveal_strlit("has_snapshot");
    reveal_strlit("reboot_worker");
    reveal_strlit("set_worker_metadata");
    reveal_strlit("snapshot_volume");
    match k {
        ActionKind::TestInstall => {
        },
        ActionKind::ListWorkers => {
            assert("test_install"@[0] != "list_workers"@[0]);
        },
        ActionKind::CreateWorker => {
            assert("test_install"@.len() != "create_worker"@.len());
            assert("list_workers"@.len() != "create_worker"@.len());
        },
        ActionKind::DeleteWorker => {
            assert("test_install"@.len() != "delete_worker"@.len());
            assert("list_workers"@.len() != "delete_worker"@.len());
            assert("create_worker"@[0] != "delete_worker"@[0]);
        },
        ActionKind::GetWorker => {
            assert("test_install"@.len() != "get_worker"@.len());
            assert("list_workers"@.len() != "get_worker"@.len());
            assert("create_worker"@.len() != "get_worker"@.len());
            assert("delete_worker"@.len() != "get_worker"@.len());
        },
        ActionKind::HasWorker => {
            assert("test_install"@.len() != "has_worker"@.len());
            assert("list_workers"@.len() != "has_worker"@.len());
            assert("create_worker"@.len() != "has_worker"@.len());
            assert("delete_worker"@.len() != "has_worker"@.len());
            assert("get_worker"@[0] != "has_worker"@[0]);
        },
        ActionKind::StartWorker => {
            assert("test_install"@[0] != "start_worker"@[0]);
            assert("list_workers"@[0] != "start_worker"@[0]);
            assert("create_worker"@.len() != "start_worker"@.len());
            assert("delete_worker"@.len() != "start_worker"@.len());
            assert("get_worker"@.len() != "start_worker"@.len());
            assert("has_worker"@.len() != "start_worker"@.len());
        },
        ActionKind::GetVolumes => {
            assert("test_install"@.len() != "get_volumes"@.len());
            assert("list_workers"@.len() != "get_volumes"@.len());
            assert("create_worker"@.len() != "get_volumes"@.len());
            assert("delete_worker"@.len() != "get_volumes"@.len());
            assert("get_worker"@.len() != "get_volumes"@.len());
            assert("has_worker"@.len() != "get_volumes"@.len());
            assert("start_worker"@.len() != "get_volumes"@.len());
        },
        ActionKind::HasVolume => {
            assert("test_install"@.len() != "has_volume"@.len());
            assert("list_workers"@.len() != "has_volume"@.len());
            assert("create_worker"@.len() != "has_volume"@.len());
            assert("delete_worker"@.len() != "has_volume"@.len());
            assert("get_worker"@[0] != "has_volume"@[0]);
            assert("has_worker"@[4] != "has_volume"@[4]);
            assert("start_worker"@.len() != "has_volume"@.len());
            assert("get_volumes"@.len() != "has_volume"@.len());
        },
        ActionKind::CreateVolume => {
            assert("test_install"@.len() != "create_volume"@.len());
            assert("list_workers"@.len() != "create_volume"@.len());
            assert("create_worker"@[7] != "create_volume"@[7]);
            assert("delete_worker"@[0] != "create_volume"@[0]);
            assert("get_worker"@.len() != "create_volume"@.len());
            assert("has_worker"@.len() != "create_volume"@.len());
            assert("start_worker"@.len() != "create_volume"@.len());
            assert("get_volumes"@.len() != "create_volume"@.len());
            assert("has_volume"@.len() != "create_volume"@.len());
        },
        ActionKind::DeleteVolume => {
            assert("test_install"@.len() != "delete_volume"@.len());
            assert("list_workers"@.len() != "delete_volume"@.len());
            assert("create_worker"@[0] != "delete_volume"@[0]);
            assert("delete_worker"@[7] != "delete_volume"@[7]);
            assert("get_worker"@.len() != "delete_volume"@.len());
            assert("has_worker"@.len() != "delete_volume"@.len());
            assert("start_worker"@.len() != "delete_volume"@.len());
            assert("get_volumes"@.len() != "delete_volume"@.len());
            assert("has_volume"@.len() != "delete_volume"@.len());
            assert("create_volume"@[0] != "delete_volume"@[0]);
        },
        ActionKind::AttachVolume => {
            assert("test_install"@.len() != "attach_volume"@.len());
            assert("list_workers"@.len() != "attach_volume"@.len());
            assert("create_worker"@[0] != "attach_volume"@[0]);
            assert("delete_worker"@[0] != "attach_volume"@[0]);
            assert("get_worker"@.len() != "attach_volume"@.len());
            assert("has_worker"@.len() != "attach_volume"@.len());
            assert("start_worker"@.len() != "attach_volume"@.len());
            assert("get_volumes"@.len() != "attach_volume"@.len());
            assert("has_volume"@.len() != "attach_volume"@.len());
            assert("create_volume"@[0] != "attach_volume"@[0]);
            assert("delete_volume"@[0] != "attach_volume"@[0]);
        },
        ActionKind::DetachVolume => {
            assert("test_install"@.len() != "detach_volume"@.len());
            assert("list_workers"@.len() != "detach_volume"@.len());
            assert("create_worker"@[0] != "detach_volume"@[0]);
            assert("delete_worker"@[2] != "detach_volume"@[2]);
            assert("get_worker"@.len() != "detach_volume"@.len());
            assert("has_worker"@.len() != "detach_volume"@.len());
            assert("start_worker"@.len() != "detach_volume"@.len());
            assert("get_volumes"@.len() != "detach_volume"@.len());
            assert("has_volume"@.len() != "detach_volume"@.len());
            assert("create_volume"@[0] != "detach_volume"@[0]);
            assert("delete_volume"@[2] != "detach_volume"@[2]);
            assert("attach_volume"@[0] != "detach_volume"@[0]);
        },
        ActionKind::CreateSnapshot => {
            assert("test_install"@.len() != "create_snapshot"@.len());
            assert("list_workers"@.len() != "create_snapshot"@.len());
            assert("create_worker"@.len() != "create_snapshot"@.len());
            assert("delete_worker"@.len() != "create_snapshot"@.len());
            assert("get_worker"@.len() != "create_snapshot"@.len());
            assert("has_worker"@.len() != "create_snapshot"@.len());
            assert("start_worker"@.len() != "create_snapshot"@.len());
            assert("get_volumes"@.len() != "create_snapshot"@.len());
            assert("has_volume"@.len() != "create_snapshot"@.len());
            assert("create_volume"@.len() != "create_snapshot"@.len());
            assert("delete_volume"@.len() != "create_snapshot"@.len());
            assert("attach_volume"@.len() != "create_snapshot"@.len());
            assert("detach_volume"@.len() != "create_snapshot"@.len());
        },
        ActionKind::DeleteSnapshot => {
            assert("test_install"@.len() != "delete_snapshot"@.len());
            assert("list_workers"@.len() != "delete_snapshot"@.len());
            assert("create_worker"@.len() != "delete_snapshot"@.len());
            assert("delete_worker"@.len() != "delete_snapshot"@.len());
            assert("get_worker"@.len() != "delete_snapshot"@.len());
            assert("has_worker"@.len() != "delete_snapshot"@.len());
            assert("start_worker"@.len() != "delete_snapshot"@.len());
            assert("get_volumes"@.len() != "delete_snapshot"@.len());
            assert("has_volume"@.len() != "delete_snapshot"@.len());
            assert("create_volume"@.len() != "delete_snapshot"@.len());
            assert("delete_volume"@.len() != "delete_snapshot"@.len());
            assert("attach_volume"@.len() != "delete_snapshot"@.len());
            assert("detach_volume"@.len() != "delete_snapshot"@.len());
            assert("create_snapshot"@[0] != "delete_snapshot"@[0]);
        },
        ActionKind::HasSnapshot => {
            assert("test_install"@[0] != "has_snapshot"@[0]);
            assert("list_workers"@[0] != "has_snapshot"@[0]);
            assert("create_worker"@.len() != "has_snapshot"@.len());
            assert("delete_worker"@.len() != "has_snapshot"@.len());
            assert("get_worker"@.len() != "has_snapshot"@.len());
            assert("has_worker"@.len() != "has_snapshot"@.len());
            assert("start_worker"@[0] != "has_snapshot"@[0]);
            assert("get_volumes"@.len() != "has_snapshot"@.len());
            assert("has_volume"@.len() != "has_snapshot"@.len());
            assert("create_volume"@.len() != "has_snapshot"@.len());
            assert("delete_volume"@.len() != "has_snapshot"@.len());
            assert("attach_volume"@.len() != "has_snapshot"@.len());
            assert("detach_volume"@.len() != "has_snapshot"@.len());
            assert("create_snapshot"@.len() != "has_snapshot"@.len());
            assert("delete_snapshot"@.len() != "has_snapshot"@.len());
        },
        ActionKind::RebootWorker => {
            assert("test_install"@.len() != "reboot_worker"@.len());
            assert("list_workers"@.len() != "reboot_worker"@.len());
            assert("create_worker"@[0] != "reboot_worker"@[0]);
            assert("delete_worker"@[0] != "reboot_worker"@[0]);
            assert("get_worker"@.len() != "reboot_worker"@.len());
            assert("has_worker"@.len() != "reboot_worker"@.len());
            assert("start_worker"@.len() != "reboot_worker"@.len());
            assert("get_volumes"@.len() != "reboot_worker"@.len());
            assert("has_volume"@.len() != "reboot_worker"@.len());
            assert("create_volume"@[0] != "reboot_worker"@[0]);
            assert("delete_volume"@[0] != "reboot_worker"@[0]);
            assert("attach_volume"@[0] != "reboot_worker"@[0]);
            assert("detach_volume"@[0] != "reboot_worker"@[0]);
            assert("create_snapshot"@.len() != "reboot_worker"@.len());
            assert("delete_snapshot"@.len() != "reboot_worker"@.len());
            assert("has_snapshot"@.len() != "reboot_worker"@.len());
        },
        ActionKind::SetWorkerMetadata => {
            assert("test_install"@.len() != "set_worker_metadata"@.len());
            assert("list_workers"@.len() != "set_worker_metadata"@.len());
            assert("create_worker"@.len() != "set_worker_metadata"@.len());
            assert("delete_worker"@.len() != "set_worker_metadata"@.len());
            assert("get_worker"@.len() != "set_worker_metadata"@.len());
            assert("has_worker"@.len() != "set_worker_metadata"@.len());
            assert("start_worker"@.len() != "set_worker_metadata"@.len());
            assert("get_volumes"@.len() != "set_worker_metadata"@.len());
            assert("has_volume"@.len() != "set_worker_metadata"@.len());
            assert("create_volume"@.len() != "set_worker_metadata"@.len());
            assert("delete_volume"@.len() != "set_worker_metadata"@.len());
            assert("attach_volume"@.len() != "set_worker_metadata"@.len());
            assert("detach_volume"@.len() != "set_worker_metadata"@.len());
            assert("create_snapshot"@.len() != "set_worker_metadata"@.len());
            assert("delete_snapshot"@.len() != "set_worker_metadata"@.len());
            assert("has_snapshot"@.len() != "set_worker_metadata"@.len());
            assert("reboot_worker"@.len() != "set_worker_metadata"@.len());
        },
        ActionKind::SnapshotVolume => {
            assert("test_install"@.len() != "snapshot_volume"@.len());
            assert("list_workers"@.len() != "snapshot_volume"@.len());
            assert("create_worker"@.len() != "snapshot_volume"@.len());
            assert("delete_worker"@.len() != "snapshot_volume"@.len());
            assert("get_worker"@.len() != "snapshot_volume"@.len());
            assert("has_worker"@.len() != "snapshot_volume"@.len());
            assert("start_worker"@.len() != "snapshot_volume"@.len());
            assert("get_volumes"@.len() != "snapshot_volume"@.len());
            assert("has_volume"@.len() != "snapshot_volume"@.len());
            assert("create_volume"@.len() != "snapshot_volume"@.len());
            assert("delete_volume"@.len() != "snapshot_volume"@.len());
            assert("attach_volume"@.len() != "snapshot_volume"@.len());
            assert("detach_volume"@.len() != "snapshot_volume"@.len());
            assert("create_snapshot"@[0] != "snapshot_volume"@[0]);
            assert("delete_snapshot"@[0] != "snapshot_volume"@[0]);
            assert("has_snapshot"@.len() != "snapshot_volume"@.len());
            assert("reboot_worker"@.len() != "snapshot_volume"@.len());
            assert("set_worker_metadata"@.len() != "snapshot_volume"@.len());
        },
    }
}

/// Every action declares, as its last parameter, an optional region whose
/// default is the region used when a call names none.
pub proof fn lemma_region_declared_last(k: ActionKind)
    ensures
        kind_params(k).len() > 0,
        kind_params(k).last() == optional_spec("region"@, "AWS region"@, fallback_region()),
{
}

/// A call is refused for a parameter only if the catalog declares that
/// parameter for the action, with the kind the call expected; a parameter
/// reported missing is declared required.
pub proof fn lemma_parameter_errors_are_declared(k: ActionKind, p: Map<Seq<char>, ParamValue>)
    ensures
        match request_of(k, p) {
            Err(ErrorView::Parameter { name, fault, expected }) => exists|i: int|
                0 <= i < kind_params(k).len() && #[trigger] kind_params(k)[i].name == name
                    && kind_params(k)[i].param_type == expected
                    && (fault == ParamFault::Missing ==> kind_params(k)[i].required),
            _ => true,
        },
{
    match k {
        ActionKind::TestInstall => {
            assert(kind_params(k)[0].name == "region"@);
        },
        ActionKind::ListWorkers => {
            assert(kind_params(k)[0].name == "region"@);
        },
        ActionKind::CreateWorker => {
            assert(kind_params(k)[0].name == "worker_name"@);
            assert(kind_params(k)[1].name == "instance_type"@);
            assert(kind_params(k)[2].name == "ami"@);
            assert(kind_params(k)[3].name == "region"@);
        },
        ActionKind::DeleteWorker => {
            assert(kind_params(k)[0].name == "worker_id"@);
            assert(kind_params(k)[1].name == "region"@);
        },
        ActionKind::GetWorker => {
            assert(kind_params(k)[0].name == "worker_id"@);
            assert(kind_params(k)[1].name == "region"@);
        },
        ActionKind::HasWorker => {
            assert(kind_params(k)[0].name == "worker_id"@);
            assert(kind_params(k)[1].name == "region"@);
        },
        ActionKind::StartWorker => {
            assert(kind_params(k)[0].name == "worker_id"@);
            assert(kind_params(k)[1].name == "region"@);
        },
        ActionKind::GetVolumes => {
            assert(kind_params(k)[0].name == "region"@);
        },
        ActionKind::HasVolume => {
            assert(kind_params(k)[0].name == "volume_id"@);
            assert(kind_params(k)[1].name == "region"@);
        },
        ActionKind::CreateVolume => {
            assert(kind_params(k)[0].name == "size_gb"@);
            assert(kind_params(k)[1].name == "availability_zone"@);
            assert(kind_params(k)[2].name == "volume_type"@);
            assert(kind_params(k)[3].name == "region"@);
        },
        ActionKind::DeleteVolume => {
            assert(kind_params(k)[0].name == "volume_id"@);
            assert(kind_params(k)[1].name == "region"@);
        },
        ActionKind::AttachVolume => {
            assert(kind_params(k)[0].name == "worker_id"@);
            assert(kind_params(k)[1].name == "volume_id"@);
            assert(kind_params(k)[2].name == "device_name"@);
            assert(kind_params(k)[3].name == "region"@);
        },
        ActionKind::DetachVolume => {
            assert(kind_params(k)[0].name == "volume_id"@);
            assert(kind_params(k)[1].name == "region"@);
        },
        ActionKind::CreateSnapshot => {
            assert(kind_params(k)[0].name == "volume_id"@);
            assert(kind_params(k)[1].name == "snapshot_name"@);
            assert(kind_params(k)[2].name == "region"@);
        },
        ActionKind::DeleteSnapshot => {
            assert(kind_params(k)[0].name == "snapshot_id"@);
            assert(kind_params(k)[1].name == "region"@);
        },
        ActionKind::HasSnapshot => {
            assert(kind_params(k)[0].name == "snapshot_id"@);
            assert(kind_params(k)[1].name == "region"@);
        },
        ActionKind::RebootWorker => {
            assert(kind_params(k)[0].name == "worker_id"@);
            assert(kind_params(k)[1].name == "region"@);
        },
        ActionKind::SetWorkerMetadata => {
            assert(kind_params(k)[0].name == "worker_id"@);
            assert(kind_params(k)[1].name == "key"@);
            assert(kind_params(k)[2].name == "value"@);
            assert(kind_params(k)[3].name == "region"@);
        },
        ActionKind::SnapshotVolume => {
            assert(kind_params(k)[0].name == "source_volume_id"@);
            assert(kind_params(k)[1].name == "snapshot_name"@);
            assert(kind_params(k)[2].name == "region"@);
        },
    }
}


/// Parameters `p` can be read as `f` declares: a required text is present as
/// text, a required integer as an integer, and an optional text is absent,
/// null or text.
pub open spec fn reads_as_declared(f: ParamSpec, p: Map<Seq<char>, ParamValue>) -> bool {
    if f.required {
        p.contains_key(f.name) && match f.param_type {
            ParamType::String => p[f.name] is Text,
            ParamType::Integer => p[f.name] is Int,
        }
    } else {
        !p.contains_key(f.name) || p[f.name] is Null || p[f.name] is Text
    }
}

/// A call is accepted exactly when every parameter the catalog declares for
/// the action, other than the region, can be read as declared.
pub proof fn lemma_accepted_iff_declared_parameters_read(k: ActionKind, p: Map<Seq<char>, ParamValue>)
    ensures
        request_of(k, p) is Ok <==> forall|i: int|
            0 <= i < kind_params(k).len() - 1 ==> reads_as_declared(#[trigger] kind_params(k)[i], p),
{
}

} // verus!
