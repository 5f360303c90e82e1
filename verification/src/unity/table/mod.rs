//! Table adapters: what stands between an opened table and the host.

pub mod delta;
