//! The constructs: each a named unit that declares, below a scope of its
//! own, the resources it consists of.

pub mod gitea;
pub mod ingress;
pub mod jenkins;
pub mod local_dir_volume;
pub mod local_dir_volume_claim;
pub mod local_volume;
pub mod local_volume_claim;
pub mod memcached;
pub mod parts;
pub mod postgres;
