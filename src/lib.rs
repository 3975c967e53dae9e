//! Verified core of an EC2 provider plugin: the action catalog, parameter
//! validation, request planning and the normalisation of cloud responses.
//! The cloud calls themselves are made by the host-facing application, which
//! hands their results back to the functions of `outcome` as plain values.

mod catalog;
mod cloud;
mod error;
mod extension;
mod laws;
mod outcome;
mod params;
mod records;
mod request;
mod text;

pub use catalog::{
    ActionKind, ParamDef, ParamSpec, ActionDefinition, DefinitionSpec, kind_name, kind_of,
    all_kinds, kind_description, kind_params, definition_of, required_spec, optional_spec,
};
pub use cloud::{InstanceClass, class_of, fallback_region, api_volume_size, name_tag_key};
pub use error::{ParamType, Operation, ActionError, ErrorView, operation_text, error_text};
pub use extension::{AwsExtension, ExtensionSpec, binds_text, default_settings_hold};
pub use laws::{
    lemma_listed_names_resolve, lemma_region_declared_last, lemma_parameter_errors_are_declared,
    reads_as_declared, lemma_accepted_iff_declared_parameters_read,
};
pub use outcome::{
    ActionOutput, OutputView, gives, fails_with, cloud_failure, instance_not_found,
    volume_not_found, snapshot_not_found, snapshot_text, any_instance, test_install, list_workers,
    create_worker, delete_worker, get_worker, has_worker, start_worker, get_volumes, has_volume,
    create_volume, delete_volume, attach_volume, detach_volume, snapshot_description,
    create_snapshot, delete_snapshot, has_snapshot, reboot_worker, set_worker_metadata,
    snapshot_volume,
};
pub use params::{
    ParamValue, Params, ParamFault, lookup, text_param, text_param_or, text_param_lenient,
    int_param, extract_string, extract_string_or, extract_string_lenient, extract_int,
};
pub use records::{
    TagData, InstanceData, ReservationData, VolumeData, WorkerRecord, WorkerSpec, WorkerDetails,
    DetailsSpec, VolumeRecord, VolumeSpec, opt_text, text_or, tag_name, worker_of, details_of,
    instance_workers, reservation_workers, volume_of, volume_records, get_name_from_tags,
    worker_details, parse_ec2_instances, parse_ec2_volumes,
};
pub use request::{
    Request, RequestView, Invocation, required_text, optional_text, required_int, request_of,
    region_of, planned, read_request, plan,
};
pub use text::{join, same_text, occurs_in};
