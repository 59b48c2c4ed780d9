//! A Modbus TCP server core: decoding of request frames, dispatch by function
//! code, and encoding of success and exception replies, all on in-memory bytes.

pub mod frame;
pub mod functions;
pub mod server;
pub mod time;
pub mod wire;
