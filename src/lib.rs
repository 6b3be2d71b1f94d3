//! Mount records, path translation between the cache namespace and backend
//! storage, backend provider resolution, and the write policy of a tiered
//! file system.

mod dispatch;
mod mount;
mod options;
mod path;
mod policy;
mod props;
mod resolve;
mod text;

pub use dispatch::{
    backend_writer, write_plan, write_plan_spec, writer_for_spec, UnifiedReader, UnifiedWriter,
    WritePlan,
};
pub use mount::{
    digit_char, int_decimal, lemma_toggle_involution, lemma_translation_round_trip, nat_decimal,
    path_result, strip_sep, to_cv_spec, to_ufs_spec, toggle_spec, sub_path, translate_spec, under_mount,
    whole_seconds, ClientConf, CreateFileOpts, MountInfo, DAY_MS, DEFAULT_TTL_MS,
};
pub use options::{fresh_model, MountOptions, MountOptionsBuilder, OptionsModel};
pub use path::{
    first_sep_from, is_cv_path, lemma_no_sep_from, lemma_sep_survives_append, scheme_of, sep_at,
    Path,
};
pub use policy::{
    ascii_lower, ascii_upper, lemma_enum_parsing, mount_type_from_upper, provider_from_lower,
    same_ignoring_case, strategy_from_upper, write_type_from_lower, ConsistencyStrategy,
    MountError, MountType, Provider, StorageType, TtlAction, WriteType,
};
pub use props::{entry_lookup, Properties};
pub use resolve::{
    configured_provider, lemma_resolution_deterministic, opendal_scheme, resolve, resolve_spec,
    select_spec, BackendKind, Capabilities, UfsFileSystem, UfsTarget,
};
pub use text::{ascii_lower_char, ascii_upper_char, is_ascii_seq, lower_of, upper_of};
