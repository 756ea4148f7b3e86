//! Configuration of an ICE agent: the builder that validates and collects
//! the settings, and the record handed to native creation.

use vstd::prelude::*;
use vstd::slice::slice_to_vec;
use vstd::string::StringSliceAdditionalSpecFns;
use vstd::utf8::{is_ascii_chars, is_ascii_chars_encode_utf8};

use crate::error::{Error, Result};
use crate::handler::{Handler, HandlerSlots};
use crate::state::ConcurrencyMode;
use crate::text::{c_text, has_nul, opt_bytes_view};

verus! {

/// Host of the STUN server an agent uses unless told otherwise.
pub const DEFAULT_STUN_HOST: &'static str = "stun.l.google.com";

/// Port of the STUN server an agent uses unless told otherwise.
pub const DEFAULT_STUN_PORT: u16 = 19302;

proof fn lemma_default_stun_host_has_no_nul()
    ensures
        !has_nul(DEFAULT_STUN_HOST.spec_bytes()),
{
    reveal_strlit("stun.l.google.com");
    let chars = DEFAULT_STUN_HOST@;
    assert(is_ascii_chars(chars));
    is_ascii_chars_encode_utf8(chars);
    let bytes = DEFAULT_STUN_HOST.spec_bytes();
    assert forall|i: int| 0 <= i < bytes.len() implies bytes[i] != 0 by {
        assert(chars[i] != '\0');
    }
}

/// A TURN server an agent may relay through. The texts are C string
/// payloads, without the terminating NUL.
pub struct TurnServer {
    pub host: Vec<u8>,
    pub port: u16,
    pub username: Vec<u8>,
    pub password: Vec<u8>,
}

/// The value of a [`TurnServer`].
pub struct TurnServerView {
    pub host: Seq<u8>,
    pub port: u16,
    pub username: Seq<u8>,
    pub password: Seq<u8>,
}

impl View for TurnServer {
    type V = TurnServerView;

    open spec fn view(&self) -> TurnServerView {
        TurnServerView {
            host: self.host@,
            port: self.port,
            username: self.username@,
            password: self.password@,
        }
    }
}

impl TurnServerView {
    /// No text holds a NUL byte.
    pub open spec fn is_valid(self) -> bool {
        !has_nul(self.host) && !has_nul(self.username) && !has_nul(self.password)
    }
}

/// The record from which the native agent is created. The texts are C
/// string payloads, without the terminating NUL; a port range of `(0, 0)`
/// leaves the choice of local ports to the engine.
pub struct AgentConfig {
    pub concurrency_mode: ConcurrencyMode,
    pub stun_server_host: Vec<u8>,
    pub stun_server_port: u16,
    pub turn_servers: Vec<TurnServer>,
    pub bind_address: Option<Vec<u8>>,
    pub local_port_range_begin: u16,
    pub local_port_range_end: u16,
}

/// The value of an [`AgentConfig`].
pub struct AgentConfigView {
    pub concurrency_mode: ConcurrencyMode,
    pub stun_server_host: Seq<u8>,
    pub stun_server_port: u16,
    pub turn_servers: Seq<TurnServerView>,
    pub bind_address: Option<Seq<u8>>,
    pub local_port_range_begin: u16,
    pub local_port_range_end: u16,
}

impl View for AgentConfig {
    type V = AgentConfigView;

    open spec fn view(&self) -> AgentConfigView {
        AgentConfigView {
            concurrency_mode: self.concurrency_mode,
            stun_server_host: self.stun_server_host@,
            stun_server_port: self.stun_server_port,
            turn_servers: self.turn_servers@.map_values(|t: TurnServer| t@),
            bind_address: opt_bytes_view(self.bind_address),
            local_port_range_begin: self.local_port_range_begin,
            local_port_range_end: self.local_port_range_end,
        }
    }
}

impl AgentConfigView {
    /// Every text can be handed to the engine as a C string.
    pub open spec fn is_valid(self) -> bool {
        &&& !has_nul(self.stun_server_host)
        &&& forall|i: int| 0 <= i < self.turn_servers.len() ==> #[trigger] self.turn_servers[i].is_valid()
        &&& self.bind_address matches Some(a) ==> !has_nul(a)
    }
}

/// Agent builder: collects and validates the settings of an agent.
pub struct Builder {
    config: AgentConfig,
    handler: Handler,
}

impl View for Builder {
    type V = AgentConfigView;

    closed spec fn view(&self) -> AgentConfigView {
        self.config@
    }
}

impl Builder {
    #[verifier::type_invariant]
    spec fn inv(&self) -> bool {
        self.config@.is_valid()
    }

    /// The callbacks installed in the builder's handler.
    pub closed spec fn handler_slots(&self) -> HandlerSlots {
        self.handler@
    }

    /// A builder with the given handler and the default settings: the
    /// default STUN server, no TURN server, no bind address, the engine's
    /// choice of local ports, and the `Poll` concurrency mode.
    pub fn new(handler: Handler) -> (r: Self)
        ensures
            r@ == (AgentConfigView {
                concurrency_mode: ConcurrencyMode::Poll,
                stun_server_host: DEFAULT_STUN_HOST.spec_bytes(),
                stun_server_port: DEFAULT_STUN_PORT,
                turn_servers: Seq::empty(),
                bind_address: None,
                local_port_range_begin: 0,
                local_port_range_end: 0,
            }),
            r.handler_slots() == handler@,
    {
        proof {
            lemma_default_stun_host_has_no_nul();
        }
        let host = slice_to_vec(DEFAULT_STUN_HOST.as_bytes());
        let config = AgentConfig {
            concurrency_mode: ConcurrencyMode::Poll,
            stun_server_host: host,
            stun_server_port: DEFAULT_STUN_PORT,
            turn_servers: Vec::new(),
            bind_address: None,
            local_port_range_begin: 0,
            local_port_range_end: 0,
        };
        assert(config@.turn_servers =~= Seq::<TurnServerView>::empty());
        Builder { config, handler }
    }
}


impl Builder {
    /// Replaces the STUN server.
    ///
    /// Fails with `InvalidArgument` exactly when `host` holds a NUL byte.
    pub fn with_stun(self, host: &str, port: u16) -> (r: Result<Self>)
        ensures
            r is Err <==> has_nul(host.spec_bytes()),
            r matches Err(e) ==> e == Error::InvalidArgument,
            r matches Ok(b) ==> b@ == (AgentConfigView {
                stun_server_host: host.spec_bytes(),
                stun_server_port: port,
                ..self@
            }) && b.handler_slots() == self.handler_slots(),
    {
        proof {
            use_type_invariant(&self);
        }
        let host = c_text(host)?;
        let Builder { config, handler } = self;
        let config = AgentConfig { stun_server_host: host, stun_server_port: port, ..config };
        Ok(Builder { config, handler })
    }

    /// Restricts the local ports to `begin..=end`; `(0, 0)` leaves the
    /// choice to the engine.
    pub fn with_port_range(self, begin: u16, end: u16) -> (r: Self)
        ensures
            r@ == (AgentConfigView {
                local_port_range_begin: begin,
                local_port_range_end: end,
                ..self@
            }),
            r.handler_slots() == self.handler_slots(),
    {
        proof {
            use_type_invariant(&self);
        }
        let Builder { config, handler } = self;
        let config = AgentConfig {
            local_port_range_begin: begin,
            local_port_range_end: end,
            ..config
        };
        Builder { config, handler }
    }

    /// Binds the agent to the local address written in `addr`.
    ///
    /// Fails with `InvalidArgument` exactly when `addr` holds a NUL byte.
    pub fn with_bind_address(self, addr: &str) -> (r: Result<Self>)
        ensures
            r is Err <==> has_nul(addr.spec_bytes()),
            r matches Err(e) ==> e == Error::InvalidArgument,
            r matches Ok(b) ==> b@ == (AgentConfigView {
                bind_address: Some(addr.spec_bytes()),
                ..self@
            }) && b.handler_slots() == self.handler_slots(),
    {
        proof {
            use_type_invariant(&self);
        }
        let addr = c_text(addr)?;
        let Builder { config, handler } = self;
        let config = AgentConfig { bind_address: Some(addr), ..config };
        Ok(Builder { config, handler })
    }

    /// Appends a TURN server to the list.
    ///
    /// Fails with `InvalidArgument` exactly when one of the texts holds a
    /// NUL byte.
    pub fn add_turn_server(self, host: &str, port: u16, user: &str, pass: &str) -> (r: Result<Self>)
        ensures
            r is Err <==> has_nul(host.spec_bytes()) || has_nul(user.spec_bytes()) || has_nul(
                pass.spec_bytes(),
            ),
            r matches Err(e) ==> e == Error::InvalidArgument,
            r matches Ok(b) ==> b@ == (AgentConfigView {
                turn_servers: self@.turn_servers.push(
                    TurnServerView {
                        host: host.spec_bytes(),
                        port,
                        username: user.spec_bytes(),
                        password: pass.spec_bytes(),
                    },
                ),
                ..self@
            }) && b.handler_slots() == self.handler_slots(),
    {
        proof {
            use_type_invariant(&self);
        }
        let host = c_text(host)?;
        let username = c_text(user)?;
        let password = c_text(pass)?;
        let Builder { config, handler } = self;
        let AgentConfig {
            concurrency_mode,
            stun_server_host,
            stun_server_port,
            mut turn_servers,
            bind_address,
            local_port_range_begin,
            local_port_range_end,
        } = config;
        turn_servers.push(TurnServer { host, port, username, password });
        let config = AgentConfig {
            concurrency_mode,
            stun_server_host,
            stun_server_port,
            turn_servers,
            bind_address,
            local_port_range_begin,
            local_port_range_end,
        };
        assert(config@.turn_servers =~= self@.turn_servers.push(
            TurnServerView {
                host: host@,
                port,
                username: username@,
                password: password@,
            },
        ));
        Ok(Builder { config, handler })
    }

    /// Selects the engine's concurrency mode.
    pub fn concurrency(self, mode: ConcurrencyMode) -> (r: Self)
        ensures
            r@ == (AgentConfigView { concurrency_mode: mode, ..self@ }),
            r.handler_slots() == self.handler_slots(),
    {
        proof {
            use_type_invariant(&self);
        }
        let Builder { config, handler } = self;
        let config = AgentConfig { concurrency_mode: mode, ..config };
        Builder { config, handler }
    }

    /// Splits the builder into the record for native creation, whose every
    /// text is a valid C string payload, and the handler.
    pub fn into_parts(self) -> (r: (AgentConfig, Handler))
        ensures
            r.0@ == self@,
            r.0@.is_valid(),
            r.1@ == self.handler_slots(),
    {
        proof {
            use_type_invariant(&self);
        }
        let Builder { config, handler } = self;
        (config, handler)
    }
}

} // verus!
