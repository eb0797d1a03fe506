//! A paravirtualized RDMA device: request/response wire records, the
//! descriptor-chain validator, the queue processor, the device lifecycle,
//! the event routing decisions and the device registry.

pub mod wire;
pub mod queue;
pub mod host;
pub mod device;
pub mod event_handler;
pub mod config;
pub mod api;
