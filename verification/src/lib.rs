//! A timer driven by cycles, with a small request/response protocol to
//! control it.
mod platform;
pub mod client;
pub mod protocol;
mod request;
mod response;
pub mod stream;
pub mod server;
pub mod timer;

pub use request::Request;
pub use response::{Response, ResponseView};
pub use stream::{Io, IoOutput};
pub use timer::Timer;
