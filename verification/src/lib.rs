//! Message types of the shop backend's gRPC service, their Protocol Buffers
//! wire codec, and the request routing of the `grpc_services.GRPCServices`
//! service, with the messages each of its methods takes and gives.

pub mod wire;
pub mod record;
pub mod message;
pub mod messages;
pub mod service;
pub mod router;
pub mod rpc;
pub mod fields;
