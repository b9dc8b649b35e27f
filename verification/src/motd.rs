//! Status responses of the relay core: the legacy ping text, and the cache
//! of upstream latencies.
pub mod latency;
pub mod legacy;
