//! Client side of the S7 protocol over ISO-on-TCP: the addressing model, the
//! telegrams, the framing of the transport and the engine that reads and
//! writes controller memory in chunks bounded by the negotiated PDU length.

pub mod client;
pub mod config;
pub mod constant;
pub mod error;
pub mod exchange;
pub mod tcp;
pub mod telegram;
pub mod transfer;
pub mod transport;
pub mod wire;

pub use client::Client;
pub use config::{CollectMode, CollectParam};
pub use constant::{Area, BitAddr, CpuStatus, DataSizeType};
pub use error::Error;
