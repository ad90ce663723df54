pub mod active_workers;
pub mod api_binding;
pub mod ctx;
pub mod filesystem;
pub mod fuel;
pub mod ids;
pub mod invocation;
pub mod oplog;
pub mod public_state;
pub mod recovery;
pub mod resource_index;
pub mod retry;
pub mod status;
