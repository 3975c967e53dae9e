use vstd::prelude::*;
use crate::error::{ActionError, ErrorView, Operation};
use crate::records::{
    DetailsSpec, InstanceData, ReservationData, VolumeData, VolumeRecord, VolumeSpec, WorkerDetails,
    WorkerRecord, WorkerSpec, details_of, parse_ec2_instances, parse_ec2_volumes,
    reservation_workers, volume_records, worker_details,
};
use crate::text::{contains_text, join, occurs_in};

verus! {

/// The result of an action that completed, in the shape the host receives.
pub enum ActionOutput {
    /// The credentials work; the regions the account can see.
    Installed { regions: Vec<String> },
    Workers { workers: Vec<WorkerRecord> },
    WorkerCreated { id: String, name: String },
    /// The call succeeded and has nothing to report.
    Done,
    Worker { vm: WorkerDetails },
    Exists { exists: bool },
    Started { id: String },
    Volumes { volumes: Vec<VolumeRecord> },
    VolumeCreated { id: String },
    SnapshotCreated { id: String },
    VolumeSnapshot { id: String, source_volume_id: String },
}

pub enum OutputView {
    Installed { regions: Seq<Seq<char>> },
    Workers { workers: Seq<WorkerSpec> },
    WorkerCreated { id: Seq<char>, name: Seq<char> },
    Done,
    Worker { vm: DetailsSpec },
    Exists { exists: bool },
    Started { id: Seq<char> },
    Volumes { volumes: Seq<VolumeSpec> },
    VolumeCreated { id: Seq<char> },
    SnapshotCreated { id: Seq<char> },
    VolumeSnapshot { id: Seq<char>, source_volume_id: Seq<char> },
}

impl View for ActionOutput {
    type V = OutputView;

    open spec fn view(&self) -> OutputView {
        match self {
            ActionOutput::Installed { regions } => OutputView::Installed {
                regions: regions@.map_values(|s: String| s@),
            },
            ActionOutput::Workers { workers } => OutputView::Workers {
                workers: workers@.map_values(|w: WorkerRecord| w@),
            },
            ActionOutput::WorkerCreated { id, name } => OutputView::WorkerCreated { id: id@, name: name@ },
            ActionOutput::Done => OutputView::Done,
            ActionOutput::Worker { vm } => OutputView::Worker { vm: vm@ },
            ActionOutput::Exists { exists } => OutputView::Exists { exists: *exists },
            ActionOutput::Started { id } => OutputView::Started { id: id@ },
            ActionOutput::Volumes { volumes } => OutputView::Volumes {
                volumes: volumes@.map_values(|v: VolumeRecord| v@),
            },
            ActionOutput::VolumeCreated { id } => OutputView::VolumeCreated { id: id@ },
            ActionOutput::SnapshotCreated { id } => OutputView::SnapshotCreated { id: id@ },
            ActionOutput::VolumeSnapshot { id, source_volume_id } => OutputView::VolumeSnapshot {
                id: id@,
                source_volume_id: source_volume_id@,
            },
        }
    }
}

/// `r` is the output `o`.
pub open spec fn gives(r: Result<ActionOutput, ActionError>, o: OutputView) -> bool {
    r matches Ok(x) && x@ == o
}

/// `r` is the error `e`.
pub open spec fn fails_with(r: Result<ActionOutput, ActionError>, e: ErrorView) -> bool {
    r matches Err(x) && x@ == e
}

/// `r` reports that call `op` failed with `detail`.
pub open spec fn cloud_failure(r: Result<ActionOutput, ActionError>, op: Operation, detail: String) -> bool {
    fails_with(r, ErrorView::Cloud { operation: op, detail: detail@ })
}

/// The text by which the cloud reports an unknown machine.
pub open spec fn instance_not_found() -> Seq<char> {
    "InvalidInstanceID.NotFound"@
}

/// The text by which the cloud reports an unknown volume.
pub open spec fn volume_not_found() -> Seq<char> {
    "InvalidVolume.NotFound"@
}

/// The text by which the cloud reports an unknown snapshot.
pub open spec fn snapshot_not_found() -> Seq<char> {
    "InvalidSnapshot.NotFound"@
}

/// The description given to a snapshot of `volume_id`.
pub open spec fn snapshot_text(volume_id: Seq<char>) -> Seq<char> {
    "Snapshot of "@ + volume_id
}

fn acknowledged(op: Operation, sent: Result<(), String>) -> (r: Result<ActionOutput, ActionError>)
    ensures
        match sent {
            Ok(_) => gives(r, OutputView::Done),
            Err(d) => cloud_failure(r, op, d),
        },
{
    match sent {
        Ok(_) => Ok(ActionOutput::Done),
        Err(detail) => Err(ActionError::Cloud { operation: op, detail }),
    }
}

/// An existence check: a failure whose text holds `marker` means the resource
/// does not exist.
fn existence(op: Operation, marker: &str, sent: Result<bool, String>) -> (r: Result<ActionOutput, ActionError>)
    ensures
        match sent {
            Ok(b) => gives(r, OutputView::Exists { exists: b }),
            Err(d) => if occurs_in(d@, marker@) {
                gives(r, OutputView::Exists { exists: false })
            } else {
                cloud_failure(r, op, d)
            },
        },
{
    match sent {
        Ok(exists) => Ok(ActionOutput::Exists { exists }),
        Err(detail) => {
            if contains_text(detail.as_str(), marker) {
                Ok(ActionOutput::Exists { exists: false })
            } else {
                Err(ActionError::Cloud { operation: op, detail })
            }
        },
    }
}

/// Result of the credentials check, from the regions the account can list.
pub fn test_install(sent: Result<Vec<String>, String>) -> (r: Result<ActionOutput, ActionError>)
    ensures
        match sent {
            Ok(regions) => gives(r, OutputView::Installed { regions: regions@.map_values(|s: String| s@) }),
            Err(d) => cloud_failure(r, Operation::Connect, d),
        },
{
    match sent {
        Ok(regions) => Ok(ActionOutput::Installed { regions }),
        Err(detail) => Err(ActionError::Cloud { operation: Operation::Connect, detail }),
    }
}

/// Result of listing machines, from the reservations the cloud returned.
pub fn list_workers(sent: Result<Vec<ReservationData>, String>) -> (r: Result<ActionOutput, ActionError>)
    ensures
        match sent {
            Ok(res) => gives(r, OutputView::Workers { workers: reservation_workers(res@) }),
            Err(d) => cloud_failure(r, Operation::ListInstances, d),
        },
{
    match sent {
        Ok(res) => Ok(ActionOutput::Workers { workers: parse_ec2_instances(&res) }),
        Err(detail) => Err(ActionError::Cloud { operation: Operation::ListInstances, detail }),
    }
}

/// Result of launching a machine named `worker_name`, from the identifiers
/// of the machines the cloud launched; the first one is the new worker.
pub fn create_worker(worker_name: String, sent: Result<Vec<Option<String>>, String>) -> (r: Result<ActionOutput, ActionError>)
    ensures
        match sent {
            Ok(ids) => if ids@.len() > 0 && ids@[0] is Some {
                gives(r, OutputView::WorkerCreated { id: ids@[0]->Some_0@, name: worker_name@ })
            } else {
                fails_with(r, ErrorView::NoInstanceCreated)
            },
            Err(d) => cloud_failure(r, Operation::RunInstance, d),
        },
{
    match sent {
        Ok(ids) => {
            if ids.len() > 0 {
                match &ids[0] {
                    Some(id) => Ok(ActionOutput::WorkerCreated { id: id.clone(), name: worker_name }),
                    None => Err(ActionError::NoInstanceCreated),
                }
            } else {
                Err(ActionError::NoInstanceCreated)
            }
        },
        Err(detail) => Err(ActionError::Cloud { operation: Operation::RunInstance, detail }),
    }
}

/// Result of terminating a machine.
pub fn delete_worker(sent: Result<(), String>) -> (r: Result<ActionOutput, ActionError>)
    ensures
        match sent {
            Ok(_) => gives(r, OutputView::Done),
            Err(d) => cloud_failure(r, Operation::TerminateInstance, d),
        },
{
    acknowledged(Operation::TerminateInstance, sent)
}

/// Result of describing machine `worker_id`: the first machine of the first
/// reservation returned.
pub fn get_worker(worker_id: String, sent: Result<Vec<ReservationData>, String>) -> (r: Result<ActionOutput, ActionError>)
    ensures
        match sent {
            Ok(res) => if res@.len() > 0 && res@[0].instances@.len() > 0 {
                gives(r, OutputView::Worker { vm: details_of(res@[0].instances@[0]) })
            } else {
                fails_with(r, ErrorView::InstanceNotFound { id: worker_id@ })
            },
            Err(d) => cloud_failure(r, Operation::DescribeInstance, d),
        },
{
    match sent {
        Ok(res) => {
            if res.len() > 0 && res[0].instances.len() > 0 {
                Ok(ActionOutput::Worker { vm: worker_details(&res[0].instances[0]) })
            } else {
                Err(ActionError::InstanceNotFound { id: worker_id })
            }
        },
        Err(detail) => Err(ActionError::Cloud { operation: Operation::DescribeInstance, detail }),
    }
}

/// Some reservation holds a machine.
pub open spec fn any_instance(res: Seq<ReservationData>) -> bool {
    exists|i: int| 0 <= i < res.len() && #[trigger] res[i].instances@.len() > 0
}

/// Result of checking whether a machine exists.
pub fn has_worker(sent: Result<Vec<ReservationData>, String>) -> (r: Result<ActionOutput, ActionError>)
    ensures
        match sent {
            Ok(res) => gives(r, OutputView::Exists { exists: any_instance(res@) }),
            Err(d) => if occurs_in(d@, instance_not_found()) {
                gives(r, OutputView::Exists { exists: false })
            } else {
                cloud_failure(r, Operation::CheckInstance, d)
            },
        },
{
    let found = match &sent {
        Ok(res) => {
            let mut found = false;
            let mut i: usize = 0;
            while i < res.len()
                invariant
                    i <= res@.len(),
                    found == exists|j: int| 0 <= j < i && #[trigger] res@[j].instances@.len() > 0,
                decreases res@.len() - i,
            {
                if res[i].instances.len() > 0 {
                    found = true;
                }
                i = i + 1;
            }
            Ok(found)
        },
        Err(detail) => Err(detail.clone()),
    };
    existence(Operation::CheckInstance, "InvalidInstanceID.NotFound", found)
}

/// Result of starting machine `worker_id`.
pub fn start_worker(worker_id: String, sent: Result<(), String>) -> (r: Result<ActionOutput, ActionError>)
    ensures
        match sent {
            Ok(_) => gives(r, OutputView::Started { id: worker_id@ }),
            Err(d) => cloud_failure(r, Operation::StartInstance, d),
        },
{
    match sent {
        Ok(_) => Ok(ActionOutput::Started { id: worker_id }),
        Err(detail) => Err(ActionError::Cloud { operation: Operation::StartInstance, detail }),
    }
}

/// Result of listing volumes.
pub fn get_volumes(sent: Result<Vec<VolumeData>, String>) -> (r: Result<ActionOutput, ActionError>)
    ensures
        match sent {
            Ok(vs) => gives(r, OutputView::Volumes { volumes: volume_records(vs@) }),
            Err(d) => cloud_failure(r, Operation::ListVolumes, d),
        },
{
    match sent {
        Ok(vs) => Ok(ActionOutput::Volumes { volumes: parse_ec2_volumes(&vs) }),
        Err(detail) => Err(ActionError::Cloud { operation: Operation::ListVolumes, detail }),
    }
}

/// Result of checking whether a volume exists.
pub fn has_volume(sent: Result<Vec<VolumeData>, String>) -> (r: Result<ActionOutput, ActionError>)
    ensures
        match sent {
            Ok(vs) => gives(r, OutputView::Exists { exists: vs@.len() > 0 }),
            Err(d) => if occurs_in(d@, volume_not_found()) {
                gives(r, OutputView::Exists { exists: false })
            } else {
                cloud_failure(r, Operation::CheckVolume, d)
            },
        },
{
    let found = match &sent {
        Ok(vs) => Ok(vs.len() > 0),
        Err(detail) => Err(detail.clone()),
    };
    existence(Operation::CheckVolume, "InvalidVolume.NotFound", found)
}

/// Result of creating a volume, from the identifier the cloud returned.
pub fn create_volume(sent: Result<Option<String>, String>) -> (r: Result<ActionOutput, ActionError>)
    ensures
        match sent {
            Ok(Some(id)) => gives(r, OutputView::VolumeCreated { id: id@ }),
            Ok(None) => fails_with(r, ErrorView::NoVolumeId),
            Err(d) => cloud_failure(r, Operation::CreateVolume, d),
        },
{
    match sent {
        Ok(Some(id)) => Ok(ActionOutput::VolumeCreated { id }),
        Ok(None) => Err(ActionError::NoVolumeId),
        Err(detail) => Err(ActionError::Cloud { operation: Operation::CreateVolume, detail }),
    }
}

/// Result of deleting a volume.
pub fn delete_volume(sent: Result<(), String>) -> (r: Result<ActionOutput, ActionError>)
    ensures
        match sent {
            Ok(_) => gives(r, OutputView::Done),
            Err(d) => cloud_failure(r, Operation::DeleteVolume, d),
        },
{
    acknowledged(Operation::DeleteVolume, sent)
}

/// Result of attaching a volume to a machine.
pub fn attach_volume(sent: Result<(), String>) -> (r: Result<ActionOutput, ActionError>)
    ensures
        match sent {
            Ok(_) => gives(r, OutputView::Done),
            Err(d) => cloud_failure(r, Operation::AttachVolume, d),
        },
{
    acknowledged(Operation::AttachVolume, sent)
}

/// Result of detaching a volume.
pub fn detach_volume(sent: Result<(), String>) -> (r: Result<ActionOutput, ActionError>)
    ensures
        match sent {
            Ok(_) => gives(r, OutputView::Done),
            Err(d) => cloud_failure(r, Operation::DetachVolume, d),
        },
{
    acknowledged(Operation::DetachVolume, sent)
}

/// The description given to a snapshot of `volume_id`.
pub fn snapshot_description(volume_id: &str) -> (r: String)
    ensures
        r@ == snapshot_text(volume_id@),
{
    join("Snapshot of ", volume_id)
}

/// Result of creating a snapshot, from the identifier the cloud returned.
pub fn create_snapshot(sent: Result<Option<String>, String>) -> (r: Result<ActionOutput, ActionError>)
    ensures
        match sent {
            Ok(Some(id)) => gives(r, OutputView::SnapshotCreated { id: id@ }),
            Ok(None) => fails_with(r, ErrorView::NoSnapshotId),
            Err(d) => cloud_failure(r, Operation::CreateSnapshot, d),
        },
{
    match sent {
        Ok(Some(id)) => Ok(ActionOutput::SnapshotCreated { id }),
        Ok(None) => Err(ActionError::NoSnapshotId),
        Err(detail) => Err(ActionError::Cloud { operation: Operation::CreateSnapshot, detail }),
    }
}

/// Result of deleting a snapshot.
pub fn delete_snapshot(sent: Result<(), String>) -> (r: Result<ActionOutput, ActionError>)
    ensures
        match sent {
            Ok(_) => gives(r, OutputView::Done),
            Err(d) => cloud_failure(r, Operation::DeleteSnapshot, d),
        },
{
    acknowledged(Operation::DeleteSnapshot, sent)
}

/// Result of checking whether a snapshot exists, from the number of
/// snapshots the cloud found.
pub fn has_snapshot(sent: Result<usize, String>) -> (r: Result<ActionOutput, ActionError>)
    ensures
        match sent {
            Ok(n) => gives(r, OutputView::Exists { exists: n > 0 }),
            Err(d) => if occurs_in(d@, snapshot_not_found()) {
                gives(r, OutputView::Exists { exists: false })
            } else {
                cloud_failure(r, Operation::CheckSnapshot, d)
            },
        },
{
    let found = match &sent {
        Ok(n) => Ok(*n > 0),
        Err(detail) => Err(detail.clone()),
    };
    existence(Operation::CheckSnapshot, "InvalidSnapshot.NotFound", found)
}

/// Result of rebooting a machine.
pub fn reboot_worker(sent: Result<(), String>) -> (r: Result<ActionOutput, ActionError>)
    ensures
        match sent {
            Ok(_) => gives(r, OutputView::Done),
            Err(d) => cloud_failure(r, Operation::RebootInstance, d),
        },
{
    acknowledged(Operation::RebootInstance, sent)
}

/// Result of tagging a machine.
pub fn set_worker_metadata(sent: Result<(), String>) -> (r: Result<ActionOutput, ActionError>)
    ensures
        match sent {
            Ok(_) => gives(r, OutputView::Done),
            Err(d) => cloud_failure(r, Operation::TagInstance, d),
        },
{
    acknowledged(Operation::TagInstance, sent)
}

/// Result of snapshotting volume `source_volume_id`, from the result of the
/// snapshot creation it rests on.
pub fn snapshot_volume(source_volume_id: String, created: Result<ActionOutput, ActionError>) -> (r: Result<ActionOutput, ActionError>)
    ensures
        match created {
            Ok(out) => match out@ {
                OutputView::SnapshotCreated { id } => gives(r, OutputView::VolumeSnapshot {
                    id,
                    source_volume_id: source_volume_id@,
                }),
                _ => fails_with(r, ErrorView::SnapshotIdUnavailable),
            },
            Err(e) => r matches Err(x) && x@ == e@,
        },
{
    match created {
        Ok(ActionOutput::SnapshotCreated { id }) => Ok(ActionOutput::VolumeSnapshot { id, source_volume_id }),
        Ok(_) => Err(ActionError::SnapshotIdUnavailable),
        Err(e) => Err(e),
    }
}

} // verus!
