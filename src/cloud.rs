use vstd::prelude::*;
use crate::request::Invocation;
use crate::text::same_text;

verus! {

/// The machine sizes a new worker can have.
#[derive(Clone, Copy, Debug, PartialEq, Eq, Structural)]
pub enum InstanceClass {
    T2Micro,
    T2Small,
    T2Medium,
    T3Micro,
    T3Small,
    T3Medium,
    M5Large,
    M5Xlarge,
}

/// The size that a requested instance type selects; an unknown type selects
/// the smallest.
pub open spec fn class_of(name: Seq<char>) -> InstanceClass {
    if name == "t2.small"@ {
        InstanceClass::T2Small
    } else if name == "t2.medium"@ {
        InstanceClass::T2Medium
    } else if name == "t3.micro"@ {
        InstanceClass::T3Micro
    } else if name == "t3.small"@ {
        InstanceClass::T3Small
    } else if name == "t3.medium"@ {
        InstanceClass::T3Medium
    } else if name == "m5.large"@ {
        InstanceClass::M5Large
    } else if name == "m5.xlarge"@ {
        InstanceClass::M5Xlarge
    } else {
        InstanceClass::T2Micro
    }
}

impl InstanceClass {
    pub fn from_name(name: &str) -> (r: InstanceClass)
        ensures
            r == class_of(name@),
    {
        if same_text(name, "t2.small") {
            InstanceClass::T2Small
        } else if same_text(name, "t2.medium") {
            InstanceClass::T2Medium
        } else if same_text(name, "t3.micro") {
            InstanceClass::T3Micro
        } else if same_text(name, "t3.small") {
            InstanceClass::T3Small
        } else if same_text(name, "t3.medium") {
            InstanceClass::T3Medium
        } else if same_text(name, "m5.large") {
            InstanceClass::M5Large
        } else if same_text(name, "m5.xlarge") {
            InstanceClass::M5Xlarge
        } else {
            InstanceClass::T2Micro
        }
    }
}

/// The region used when a call names none.
pub open spec fn fallback_region() -> Seq<char> {
    "us-east-1"@
}

impl Invocation {
    /// The region the cloud client is built for.
    pub fn client_region(&self) -> (r: String)
        ensures
            r@ == match self.region {
                Some(s) => s@,
                None => fallback_region(),
            },
    {
        match &self.region {
            Some(s) => s.clone(),
            None => String::from_str("us-east-1"),
        }
    }
}

/// The volume size handed to the cloud, which takes a 32-bit count of
/// gigabytes; a size beyond that range wraps as a two's-complement cast does.
pub fn api_volume_size(size_gb: i64) -> (r: i32)
    ensures
        i32::MIN <= size_gb <= i32::MAX ==> r == size_gb,
        r == size_gb as i32,
{
    #[verifier::truncate]
    (size_gb as i32)
}

/// The tag key under which a resource's name is kept.
pub fn name_tag_key() -> (r: &'static str)
    ensures
        r@ == "Name"@,
{
    "Name"
}

} // verus!
