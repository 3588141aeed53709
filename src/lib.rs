//! A connected pair of pipe endpoints built on a uniquely named channel.
//!
//! The library holds the decisions of establishing such a pair: the channel
//! name, the direction of each endpoint, the retry rules when creating the
//! listening endpoint fails, which endpoint each half of the pair holds, and
//! when a half may be used. The operating-system work is done by the caller.
pub mod endpoint;
pub mod establish;
pub mod handle;
pub mod naming;

pub use endpoint::{client_config, server_config, ClientConfig, NamedPipeClient, NamedPipeServer, ServerConfig};
pub use establish::{classify, CreateFailure, Step, TryState};
pub use handle::{anon_pipe, anon_pipe_we_read, anon_pipe_we_write, AnonPipeRead, AnonPipeWrite, Connect};
pub use naming::{genname, pipe_name};
