use vstd::prelude::*;
use crate::text::same_text;

verus! {

/// A key/value tag attached to a cloud resource.
pub struct TagData {
    pub key: Option<String>,
    pub value: Option<String>,
}

/// What the cloud reports of one virtual machine.
pub struct InstanceData {
    pub instance_id: Option<String>,
    pub state: Option<String>,
    pub instance_type: Option<String>,
    pub tags: Vec<TagData>,
    pub public_ip: Option<String>,
    pub private_ip: Option<String>,
    pub availability_zone: Option<String>,
}

/// A group of machines launched together.
pub struct ReservationData {
    pub instances: Vec<InstanceData>,
}

/// What the cloud reports of one block-storage volume.
pub struct VolumeData {
    pub volume_id: Option<String>,
    pub size_gb: Option<i32>,
    pub state: Option<String>,
    pub availability_zone: Option<String>,
    /// The machine of each attachment, in the order reported.
    pub attachments: Vec<Option<String>>,
}

/// A machine in the provider-neutral shape.
pub struct WorkerRecord {
    pub id: String,
    pub name: String,
    pub state: String,
    pub instance_type: String,
    pub public_ip: Option<String>,
    pub private_ip: Option<String>,
}

pub struct WorkerSpec {
    pub id: Seq<char>,
    pub name: Seq<char>,
    pub state: Seq<char>,
    pub instance_type: Seq<char>,
    pub public_ip: Option<Seq<char>>,
    pub private_ip: Option<Seq<char>>,
}

/// A machine in the provider-neutral shape, with its placement.
pub struct WorkerDetails {
    pub id: String,
    pub name: String,
    pub state: String,
    pub instance_type: String,
    pub public_ip: Option<String>,
    pub private_ip: Option<String>,
    pub availability_zone: Option<String>,
}

pub struct DetailsSpec {
    pub id: Seq<char>,
    pub name: Seq<char>,
    pub state: Seq<char>,
    pub instance_type: Seq<char>,
    pub public_ip: Option<Seq<char>>,
    pub private_ip: Option<Seq<char>>,
    pub availability_zone: Option<Seq<char>>,
}

/// A volume in the provider-neutral shape.
pub struct VolumeRecord {
    pub id: String,
    /// The volume's identifier again: other providers address volumes by path.
    pub path: String,
    pub size_mb: i64,
    pub state: String,
    pub availability_zone: String,
    pub attached_to: Option<String>,
}

pub struct VolumeSpec {
    pub id: Seq<char>,
    pub path: Seq<char>,
    pub size_mb: i64,
    pub state: Seq<char>,
    pub availability_zone: Seq<char>,
    pub attached_to: Option<Seq<char>>,
}

pub open spec fn opt_text(o: Option<String>) -> Option<Seq<char>> {
    match o {
        Some(s) => Some(s@),
        None => None,
    }
}

/// The text of `o`, or `dflt` when there is none.
pub open spec fn text_or(o: Option<String>, dflt: Seq<char>) -> Seq<char> {
    match o {
        Some(s) => s@,
        None => dflt,
    }
}

impl View for WorkerRecord {
    type V = WorkerSpec;

    open spec fn view(&self) -> WorkerSpec {
        WorkerSpec {
            id: self.id@,
            name: self.name@,
            state: self.state@,
            instance_type: self.instance_type@,
            public_ip: opt_text(self.public_ip),
            private_ip: opt_text(self.private_ip),
        }
    }
}

impl View for WorkerDetails {
    type V = DetailsSpec;

    open spec fn view(&self) -> DetailsSpec {
        DetailsSpec {
            id: self.id@,
            name: self.name@,
            state: self.state@,
            instance_type: self.instance_type@,
            public_ip: opt_text(self.public_ip),
            private_ip: opt_text(self.private_ip),
            availability_zone: opt_text(self.availability_zone),
        }
    }
}

impl View for VolumeRecord {
    type V = VolumeSpec;

    open spec fn view(&self) -> VolumeSpec {
        VolumeSpec {
            id: self.id@,
            path: self.path@,
            size_mb: self.size_mb,
            state: self.state@,
            availability_zone: self.availability_zone@,
            attached_to: opt_text(self.attached_to),
        }
    }
}

/// The value of the first tag keyed "Name"; "unnamed" when there is no such
/// tag or it has no value.
pub open spec fn tag_name(tags: Seq<TagData>) -> Seq<char>
    decreases tags.len(),
{
    if tags.len() == 0 {
        "unnamed"@
    } else if tags[0].key matches Some(k) && k@ == "Name"@ {
        text_or(tags[0].value, "unnamed"@)
    } else {
        tag_name(tags.subrange(1, tags.len() as int))
    }
}

pub open spec fn worker_of(i: InstanceData) -> WorkerSpec {
    WorkerSpec {
        id: text_or(i.instance_id, "unknown"@),
        name: tag_name(i.tags@),
        state: text_or(i.state, "unknown"@),
        instance_type: text_or(i.instance_type, "unknown"@),
        public_ip: opt_text(i.public_ip),
        private_ip: opt_text(i.private_ip),
    }
}

pub open spec fn details_of(i: InstanceData) -> DetailsSpec {
    DetailsSpec {
        id: text_or(i.instance_id, "unknown"@),
        name: tag_name(i.tags@),
        state: text_or(i.state, "unknown"@),
        instance_type: text_or(i.instance_type, "unknown"@),
        public_ip: opt_text(i.public_ip),
        private_ip: opt_text(i.private_ip),
        availability_zone: opt_text(i.availability_zone),
    }
}

/// The records of the machines in `s` that have an identifier, in order.
pub open spec fn instance_workers(s: Seq<InstanceData>) -> Seq<WorkerSpec>
    decreases s.len(),
{
    if s.len() == 0 {
        Seq::empty()
    } else if s.last().instance_id is Some {
        instance_workers(s.drop_last()).push(worker_of(s.last()))
    } else {
        instance_workers(s.drop_last())
    }
}

/// The records of all machines of all reservations, in order.
pub open spec fn reservation_workers(s: Seq<ReservationData>) -> Seq<WorkerSpec>
    decreases s.len(),
{
    if s.len() == 0 {
        Seq::empty()
    } else {
        reservation_workers(s.drop_last()) + instance_workers(s.last().instances@)
    }
}

pub open spec fn volume_of(v: VolumeData) -> VolumeSpec {
    VolumeSpec {
        id: text_or(v.volume_id, "unknown"@),
        path: text_or(v.volume_id, "unknown"@),
        size_mb: match v.size_gb {
            Some(g) => (g * 1024) as i64,
            None => 0,
        },
        state: text_or(v.state, "unknown"@),
        availability_zone: text_or(v.availability_zone, "unknown"@),
        attached_to: if v.attachments@.len() > 0 {
            opt_text(v.attachments@[0])
        } else {
            None
        },
    }
}

/// The records of the volumes in `s` that have an identifier, in order.
pub open spec fn volume_records(s: Seq<VolumeData>) -> Seq<VolumeSpec>
    decreases s.len(),
{
    if s.len() == 0 {
        Seq::empty()
    } else if s.last().volume_id is Some {
        volume_records(s.drop_last()).push(volume_of(s.last()))
    } else {
        volume_records(s.drop_last())
    }
}

fn copy_text(o: &Option<String>) -> (r: Option<String>)
    ensures
        opt_text(r) == opt_text(*o),
{
    match o {
        Some(s) => Some(s.clone()),
        None => None,
    }
}

fn text_or_else(o: &Option<String>, dflt: &str) -> (r: String)
    ensures
        r@ == text_or(*o, dflt@),
{
    match o {
        Some(s) => s.clone(),
        None => String::from_str(dflt),
    }
}

/// The name that a resource's tags give it.
pub fn get_name_from_tags(tags: &Vec<TagData>) -> (r: String)
    ensures
        r@ == tag_name(tags@),
{
    let n = tags.len();
    let mut i: usize = 0;
    assert(tags@.subrange(0, n as int) =~= tags@);
    while i < n
        invariant
            n == tags@.len(),
            i <= n,
            tag_name(tags@) == tag_name(tags@.subrange(i as int, n as int)),
        decreases n - i,
    {
        let ghost rest = tags@.subrange(i as int, n as int);
        assert(rest.subrange(1, rest.len() as int) =~= tags@.subrange(i + 1, n as int));
        let tag = &tags[i];
        let is_name = match &tag.key {
            Some(k) => same_text(k.as_str(), "Name"),
            None => false,
        };
        if is_name {
            return text_or_else(&tag.value, "unnamed");
        }
        i = i + 1;
    }
    String::from_str("unnamed")
}

fn worker_record(i: &InstanceData) -> (r: WorkerRecord)
    ensures
        r@ == worker_of(*i),
{
    WorkerRecord {
        id: text_or_else(&i.instance_id, "unknown"),
        name: get_name_from_tags(&i.tags),
        state: text_or_else(&i.state, "unknown"),
        instance_type: text_or_else(&i.instance_type, "unknown"),
        public_ip: copy_text(&i.public_ip),
        private_ip: copy_text(&i.private_ip),
    }
}

/// The details of one machine.
pub fn worker_details(i: &InstanceData) -> (r: WorkerDetails)
    ensures
        r@ == details_of(*i),
{
    WorkerDetails {
        id: text_or_else(&i.instance_id, "unknown"),
        name: get_name_from_tags(&i.tags),
        state: text_or_else(&i.state, "unknown"),
        instance_type: text_or_else(&i.instance_type, "unknown"),
        public_ip: copy_text(&i.public_ip),
        private_ip: copy_text(&i.private_ip),
        availability_zone: copy_text(&i.availability_zone),
    }
}

/// The machines of all reservations in the provider-neutral shape; machines
/// without an identifier are left out.
pub fn parse_ec2_instances(reservations: &Vec<ReservationData>) -> (r: Vec<WorkerRecord>)
    ensures
        r@.map_values(|w: WorkerRecord| w@) == reservation_workers(reservations@),
{
    let mut out: Vec<WorkerRecord> = Vec::new();
    let mut i: usize = 0;
    while i < reservations.len()
        invariant
            i <= reservations@.len(),
            out@.map_values(|w: WorkerRecord| w@) == reservation_workers(reservations@.subrange(0, i as int)),
        decreases reservations@.len() - i,
    {
        let instances = &reservations[i].instances;
        let ghost before = out@.map_values(|w: WorkerRecord| w@);
        let mut j: usize = 0;
        assert(instances@.subrange(0, 0) =~= Seq::<InstanceData>::empty());
        assert(before + Seq::<WorkerSpec>::empty() =~= before);
        while j < instances.len()
            invariant
                j <= instances@.len(),
                out@.map_values(|w: WorkerRecord| w@) == before + instance_workers(instances@.subrange(0, j as int)),
            decreases instances@.len() - j,
        {
            let ghost prefix = instances@.subrange(0, j as int + 1);
            assert(prefix.drop_last() =~= instances@.subrange(0, j as int));
            let inst = &instances[j];
            if inst.instance_id.is_some() {
                let w = worker_record(inst);
                let ghost old_out = out@;
                out.push(w);
                assert(out@.map_values(|w: WorkerRecord| w@) =~= old_out.map_values(|w: WorkerRecord| w@).push(w@));
                assert(before + instance_workers(prefix) =~= (before + instance_workers(instances@.subrange(0, j as int))).push(w@));
            }
            j = j + 1;
        }
        assert(instances@.subrange(0, j as int) =~= instances@);
        let ghost upto = reservations@.subrange(0, i as int + 1);
        assert(upto.drop_last() =~= reservations@.subrange(0, i as int));
        i = i + 1;
    }
    assert(reservations@.subrange(0, i as int) =~= reservations@);
    out
}

fn volume_record(v: &VolumeData) -> (r: VolumeRecord)
    ensures
        r@ == volume_of(*v),
{
    let size_mb: i64 = match v.size_gb {
        Some(g) => g as i64 * 1024,
        None => 0,
    };
    let attached_to = if v.attachments.len() > 0 {
        copy_text(&v.attachments[0])
    } else {
        None
    };
    VolumeRecord {
        id: text_or_else(&v.volume_id, "unknown"),
        path: text_or_else(&v.volume_id, "unknown"),
        size_mb,
        state: text_or_else(&v.state, "unknown"),
        availability_zone: text_or_else(&v.availability_zone, "unknown"),
        attached_to,
    }
}

/// The volumes in the provider-neutral shape, with sizes in megabytes;
/// volumes without an identifier are left out.
pub fn parse_ec2_volumes(volumes: &Vec<VolumeData>) -> (r: Vec<VolumeRecord>)
    ensures
        r@.map_values(|v: VolumeRecord| v@) == volume_records(volumes@),
{
    let mut out: Vec<VolumeRecord> = Vec::new();
    let mut i: usize = 0;
    while i < volumes.len()
        invariant
            i <= volumes@.len(),
            out@.map_values(|v: VolumeRecord| v@) == volume_records(volumes@.subrange(0, i as int)),
        decreases volumes@.len() - i,
    {
        let ghost prefix = volumes@.subrange(0, i as int + 1);
        assert(prefix.drop_last() =~= volumes@.subrange(0, i as int));
        let v = &volumes[i];
        if v.volume_id.is_some() {
            let rec = volume_record(v);
            let ghost old_out = out@;
            out.push(rec);
            assert(out@.map_values(|v: VolumeRecord| v@) =~= old_out.map_values(|v: VolumeRecord| v@).push(rec@));
        }
        i = i + 1;
    }
    assert(volumes@.subrange(0, i as int) =~= volumes@);
    out
}

} // verus!
