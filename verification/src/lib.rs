//! Local-files adapter for a portable synchronous filesystem facade.
//!
//! The crate holds the decisions of a local `file:` backend: how registry
//! configurations and `file:` URIs map to logical paths, how logical paths
//! map to native paths through the native codec, which native options a
//! request becomes, how native failures and partial effects are reported, and
//! how temporary resources and writers move through their lifecycles. The
//! native I/O itself is performed by the local-files engine, and the
//! translation of resource ceilings and request flags into its option types
//! is left to the code that drives it.

mod error;
pub mod file_uri_path;
pub mod listing_options;
mod local_copy_resource_limits;
mod local_delete_resource_limits;
mod local_directory_reopen_policy;
mod local_file_systems;
mod local_list_resource_limits;
mod local_resource_policy;
pub mod native_error;
pub mod native_uri_component;
pub mod options_plan;
pub mod outcome_map;
pub mod path_mapper;
pub mod path_projection;
pub mod properties;
pub mod range_window;
pub mod registry;
pub mod temp_resource;
pub mod writer_session;

pub use error::AttributedError;
pub use error::LocalEffectState;
pub use error::LocalError;
pub use error::LocalErrorKind;
pub use error::LocalOperation;
pub use local_copy_resource_limits::CopyLimitsModel;
pub use local_copy_resource_limits::LocalCopyResourceLimits;
pub use local_delete_resource_limits::DeleteLimitsModel;
pub use local_delete_resource_limits::LocalDeleteResourceLimits;
pub use local_directory_reopen_policy::LocalDirectoryReopenPolicy;
pub use local_file_systems::LocalFileSystems;
pub use local_list_resource_limits::ListLimitsModel;
pub use local_list_resource_limits::LocalListResourceLimits;
pub use local_resource_policy::LocalResourcePolicy;
pub use local_resource_policy::ResourcePolicyModel;
