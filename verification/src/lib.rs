//! Sentinel-file probes for a hosted module.
//!
//! A host mounts three files for the module: `deployFile` and `execFile`, which
//! are read, and `outFile`, which is written. The functions here hold what the
//! probes decide and compute once the host's answer to a read or a write is
//! known; the reads and the write themselves are done by the caller.
pub mod digest;
pub mod failure;
pub mod reading;
pub mod writing;

pub use digest::mount_digest;
pub use failure::handle_error;
pub use failure::MountReadFailed;
pub use reading::a;
pub use reading::combine;
pub use reading::read_failure;
pub use writing::c;
pub use writing::out_payload;
pub use writing::write_failure;
