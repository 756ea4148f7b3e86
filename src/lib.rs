//! Safe, verified core of a binding to the libjuice ICE agent and its
//! embedded TURN relay server.
//!
//! The library holds everything that decides or computes: the mapping of
//! native return and state codes, the validation of text handed to the
//! native engine, the configuration records built for native creation, the
//! decoding of native text buffers, and the event handler that native
//! callbacks are forwarded to. Making the native calls themselves is left to
//! the code that owns the native handles.

pub mod agent;
pub mod error;
pub mod handler;
pub mod server;
pub mod state;
pub mod text;

pub use agent::{AgentConfig, Builder, TurnServer, DEFAULT_STUN_HOST, DEFAULT_STUN_PORT};
pub use error::{code_is_known, result_from_code, AgentError, Error, Result};
pub use handler::Handler;
pub use server::{
    Builder as ServerBuilder, Credentials as ServerCredentials, CredentialsEntry, ServerConfig,
    MAX_LIMIT,
};
pub use state::{AgentState, ConcurrencyMode, State};
pub use text::{c_text, text_from_buffer};
