//! Dispatch identifiers (DISPIDs) of the engine's COM members, one module per
//! interface, as the type library gives them.
use vstd::prelude::*;

pub mod engine;
pub mod station_options;
pub mod search_directories;
pub mod search_directory;
pub mod property_object;
pub mod workspace_file;
pub mod workspace_object;
pub mod property_object_file;
pub mod type_usage_list;
pub mod user;
pub mod array_dimensions;
pub mod property_object_type;
pub mod property_object_introspect;
pub mod execution;
pub mod thread;
pub mod sequence_context;
pub mod ui_message;
pub mod step;
pub mod sequence;
pub mod sequence_file;

verus! {

} // verus!
