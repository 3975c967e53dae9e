use vstd::prelude::*;
use crate::catalog::{ActionDefinition, ActionKind, all_kinds, definition_of, kind_name, kind_of};
use crate::error::ActionError;
use crate::params::{ParamValue, Params};
use crate::request::{Invocation, plan, planned};

verus! {

/// The EC2 provider: its identity, its default settings and the catalog of
/// actions it offers.
pub struct AwsExtension {
    name: String,
    provider_type: String,
    default_settings: Params,
}

pub struct ExtensionSpec {
    pub name: Seq<char>,
    pub provider_type: Seq<char>,
    pub default_settings: Map<Seq<char>, ParamValue>,
}

impl View for AwsExtension {
    type V = ExtensionSpec;

    closed spec fn view(&self) -> ExtensionSpec {
        ExtensionSpec {
            name: self.name@,
            provider_type: self.provider_type@,
            default_settings: self.default_settings@,
        }
    }
}

/// `m` binds `key` to the text `value`.
pub open spec fn binds_text(m: Map<Seq<char>, ParamValue>, key: Seq<char>, value: Seq<char>) -> bool {
    m.contains_key(key) && (m[key] matches ParamValue::Text(s) && s@ == value)
}

/// The settings a new provider starts with.
pub open spec fn default_settings_hold(m: Map<Seq<char>, ParamValue>) -> bool {
    &&& m.dom() == set!["region"@, "instance_type"@, "ami"@, "availability_zone"@, "volume_type"@]
    &&& binds_text(m, "region"@, "us-east-1"@)
    &&& binds_text(m, "instance_type"@, "t2.micro"@)
    &&& binds_text(m, "ami"@, "ami-0c55b159cbfafe1f0"@)
    &&& binds_text(m, "availability_zone"@, "us-east-1a"@)
    &&& binds_text(m, "volume_type"@, "gp2"@)
}

impl AwsExtension {
    pub fn new() -> (r: AwsExtension)
        ensures
            r@.name == "ec2"@,
            r@.provider_type == "cloud"@,
            default_settings_hold(r@.default_settings),
    {
        let mut default_settings = Params::new();
        default_settings.insert(String::from_str("region"), ParamValue::Text(String::from_str("us-east-1")));
        default_settings.insert(String::from_str("instance_type"), ParamValue::Text(String::from_str("t2.micro")));
        default_settings.insert(String::from_str("ami"), ParamValue::Text(String::from_str("ami-0c55b159cbfafe1f0")));
        default_settings.insert(
            String::from_str("availability_zone"),
            ParamValue::Text(String::from_str("us-east-1a")),
        );
        default_settings.insert(String::from_str("volume_type"), ParamValue::Text(String::from_str("gp2")));
        proof {
            reveal_strlit("region");
            reveal_strlit("instance_type");
            reveal_strlit("ami");
            reveal_strlit("availability_zone");
            reveal_strlit("volume_type");
            // the five keys differ in length, hence are distinct
            assert("region"@.len() == 6 && "instance_type"@.len() == 13 && "ami"@.len() == 3);
            assert("availability_zone"@.len() == 17 && "volume_type"@.len() == 11);
        }
        assert(default_settings@.dom() =~= set!["region"@, "instance_type"@, "ami"@, "availability_zone"@, "volume_type"@]);
        AwsExtension {
            name: String::from_str("ec2"),
            provider_type: String::from_str("cloud"),
            default_settings,
        }
    }

    pub fn name(&self) -> (r: &str)
        ensures
            r@ == self@.name,
    {
        self.name.as_str()
    }

    pub fn provider_type(&self) -> (r: &str)
        ensures
            r@ == self@.provider_type,
    {
        self.provider_type.as_str()
    }

    pub fn default_settings(&self) -> (r: &Params)
        ensures
            r@ == self@.default_settings,
    {
        &self.default_settings
    }

    /// The names of all actions, in catalog order.
    pub fn list_actions(&self) -> (r: Vec<String>)
        ensures
            r@.map_values(|s: String| s@) == all_kinds().map_values(|k: ActionKind| kind_name(k)),
    {
        let kinds = ActionKind::all();
        let mut names: Vec<String> = Vec::new();
        let mut i: usize = 0;
        while i < kinds.len()
            invariant
                i <= kinds@.len(),
                kinds@ == all_kinds(),
                names@.len() == i,
                forall|j: int| 0 <= j < i ==> #[trigger] names@[j]@ == kind_name(kinds@[j]),
            decreases kinds@.len() - i,
        {
            names.push(String::from_str(kinds[i].name()));
            i = i + 1;
        }
        assert(names@.map_values(|s: String| s@) =~= all_kinds().map_values(|k: ActionKind| kind_name(k)));
        names
    }

    /// The catalog entry of the action called `action`, if there is one.
    pub fn get_action_definition(&self, action: &str) -> (r: Option<ActionDefinition>)
        ensures
            match kind_of(action@) {
                None => r is None,
                Some(k) => r matches Some(d) && d@ == definition_of(k),
            },
    {
        match ActionKind::from_name(action) {
            None => None,
            Some(k) => Some(k.definition()),
        }
    }

    /// Validates a call of `action`: what request it makes and in which
    /// region, or why it cannot be made.
    pub fn prepare_action(&self, action: &str, params: &Params) -> (r: Result<Invocation, ActionError>)
        ensures
            planned(action@, params@, r),
    {
        plan(action, params)
    }
}

} // verus!
