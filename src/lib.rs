//! Reconciliation engine of an installer that keeps a hook bundle and a
//! dictionary bundle of a game in step with remotely published manifests.

pub mod constants;
pub mod df_binary;
pub mod dict_metadata;
pub mod fetch;
pub mod fingerprint;
pub mod hook_metadata;
pub mod localization;
pub mod logic;
pub mod persistent;
pub mod search;
pub mod thread_pool;

pub use fingerprint::checksum_for_files;
