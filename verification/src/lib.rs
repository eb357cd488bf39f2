//! Native support library for Mojo: JNI field identifiers, class and field
//! descriptor resolution, allocator statistics, the configuration of the
//! embedded HTTP server and the small message and request rules of the
//! actor runtime.
pub mod alloc_stats;
pub mod arbiter;
pub mod descriptors;
pub mod handlers;
pub mod java_string;
pub mod jfieldid;
pub mod registry;
pub mod response;
pub mod server_config;
pub mod worker;
