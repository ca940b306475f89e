//! Wire-boundary layer of a key-management IPC protocol: a fixed binary
//! header codec and a field-tagged body codec for each supported operation.
pub mod requests;
pub mod response_header;
pub mod wire;
pub mod operations;
pub mod protobuf;
pub mod message;
