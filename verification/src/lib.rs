//! Core logic of the Spacedrive node: cryptographic sizing constants, the
//! request/response substream protocol, the service discovery state and the
//! choices made when the on-device AI runtime is set up.

pub mod discovery;
pub mod exchange;
pub mod p2p;
pub mod primitives;
pub mod protocol;
pub mod request_upgrade;
pub mod response_upgrade;
pub mod skynet;
