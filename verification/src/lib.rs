//! Network-identity and chain-parameterization core of a peer-to-peer
//! blockchain node: the process-wide chain profile and the consensus
//! constants derived from it, the wire codec and identity rules for peer
//! addresses, the capability and trust vocabulary exchanged during
//! handshakes, and the per-peer liveness record.
pub mod addr;
pub mod consensus;
pub mod global;
pub mod ser;
pub mod text;
pub mod types;
