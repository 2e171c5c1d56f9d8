//! Request authentication and construction for the bitbank.cc HTTP API:
//! message signing, header sets, endpoint addresses and response mapping.

pub mod client;
pub mod clock;
pub mod decimal;
pub mod digits;
pub mod endpoint;
pub mod error;
pub mod headers;
pub mod mapper;
pub mod market;
pub mod operations;
pub mod shapes;
pub mod signer;
pub mod wire;
