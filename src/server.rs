//! Configuration of the embedded TURN relay server: credentials, the
//! builder that validates and collects the settings, and the record handed
//! to native creation.

use vstd::prelude::*;
use vstd::string::StringSliceAdditionalSpecFns;

use crate::error::{Error, Result};
use crate::text::{c_text, has_nul, opt_bytes_view};

verus! {

/// Largest limit the engine takes; larger requests are lowered to it.
pub const MAX_LIMIT: u32 = 0x7fff_ffff;

/// One user that the relay server accepts: a user name, a password and an
/// optional allocation quota.
pub struct Credentials {
    username: Vec<u8>,
    password: Vec<u8>,
    quota: Option<i32>,
}

/// The value of a [`Credentials`].
pub struct CredentialsView {
    pub username: Seq<u8>,
    pub password: Seq<u8>,
    pub quota: Option<i32>,
}

impl View for Credentials {
    type V = CredentialsView;

    closed spec fn view(&self) -> CredentialsView {
        CredentialsView { username: self.username@, password: self.password@, quota: self.quota }
    }
}

/// A credentials entry of the native configuration. The texts are C string
/// payloads, without the terminating NUL; a quota of 0 leaves the limit to
/// the engine.
pub struct CredentialsEntry {
    pub username: Vec<u8>,
    pub password: Vec<u8>,
    pub allocations_quota: i32,
}

/// The value of a [`CredentialsEntry`].
pub struct CredentialsEntryView {
    pub username: Seq<u8>,
    pub password: Seq<u8>,
    pub allocations_quota: i32,
}

impl View for CredentialsEntry {
    type V = CredentialsEntryView;

    open spec fn view(&self) -> CredentialsEntryView {
        CredentialsEntryView {
            username: self.username@,
            password: self.password@,
            allocations_quota: self.allocations_quota,
        }
    }
}

impl CredentialsEntryView {
    /// No text holds a NUL byte.
    pub open spec fn is_valid(self) -> bool {
        !has_nul(self.username) && !has_nul(self.password)
    }
}

impl CredentialsView {
    /// The entry of the native configuration that stands for these
    /// credentials: an absent quota becomes 0.
    pub open spec fn entry(self) -> CredentialsEntryView {
        CredentialsEntryView {
            username: self.username,
            password: self.password,
            allocations_quota: match self.quota {
                Some(q) => q,
                None => 0,
            },
        }
    }
}

impl Credentials {
    #[verifier::type_invariant]
    spec fn inv(&self) -> bool {
        !has_nul(self.username@) && !has_nul(self.password@)
    }

    /// Credentials of one user.
    ///
    /// Fails with `InvalidArgument` exactly when the user name or the
    /// password holds a NUL byte.
    pub fn new(username: &str, password: &str, quota: Option<i32>) -> (r: Result<Self>)
        ensures
            r is Err <==> has_nul(username.spec_bytes()) || has_nul(password.spec_bytes()),
            r matches Err(e) ==> e == Error::InvalidArgument,
            r matches Ok(c) ==> c@ == (CredentialsView {
                username: username.spec_bytes(),
                password: password.spec_bytes(),
                quota,
            }),
    {
        let username = c_text(username)?;
        let password = c_text(password)?;
        Ok(Credentials { username, password, quota })
    }

    /// The entry of the native configuration that stands for these
    /// credentials.
    fn into_entry(self) -> (r: CredentialsEntry)
        ensures
            r@ == self@.entry(),
            r@.is_valid(),
    {
        proof {
            use_type_invariant(&self);
        }
        let Credentials { username, password, quota } = self;
        let allocations_quota = match quota {
            Some(q) => q,
            None => 0,
        };
        CredentialsEntry { username, password, allocations_quota }
    }
}

/// The record from which the native relay server is created. The texts are
/// C string payloads, without the terminating NUL. A port of 0, a limit of 0
/// and a relay port range of `(0, 0)` leave the choice to the engine.
pub struct ServerConfig {
    pub credentials: Vec<CredentialsEntry>,
    pub bind_address: Option<Vec<u8>>,
    pub external_address: Option<Vec<u8>>,
    pub port: u16,
    pub max_allocations: i32,
    pub max_peers: i32,
    pub relay_port_range_begin: u16,
    pub relay_port_range_end: u16,
    pub realm: Option<Vec<u8>>,
}

/// The value of a [`ServerConfig`].
pub struct ServerConfigView {
    pub credentials: Seq<CredentialsEntryView>,
    pub bind_address: Option<Seq<u8>>,
    pub external_address: Option<Seq<u8>>,
    pub port: u16,
    pub max_allocations: i32,
    pub max_peers: i32,
    pub relay_port_range_begin: u16,
    pub relay_port_range_end: u16,
    pub realm: Option<Seq<u8>>,
}

impl View for ServerConfig {
    type V = ServerConfigView;

    open spec fn view(&self) -> ServerConfigView {
        ServerConfigView {
            credentials: self.credentials@.map_values(|c: CredentialsEntry| c@),
            bind_address: opt_bytes_view(self.bind_address),
            external_address: opt_bytes_view(self.external_address),
            port: self.port,
            max_allocations: self.max_allocations,
            max_peers: self.max_peers,
            relay_port_range_begin: self.relay_port_range_begin,
            relay_port_range_end: self.relay_port_range_end,
            realm: opt_bytes_view(self.realm),
        }
    }
}

impl ServerConfigView {
    /// Every text can be handed to the engine as a C string, and the
    /// limits are not negative.
    pub open spec fn is_valid(self) -> bool {
        &&& forall|i: int| 0 <= i < self.credentials.len() ==> #[trigger] self.credentials[i].is_valid()
        &&& self.bind_address matches Some(a) ==> !has_nul(a)
        &&& self.external_address matches Some(a) ==> !has_nul(a)
        &&& self.realm matches Some(a) ==> !has_nul(a)
        &&& self.max_allocations >= 0
        &&& self.max_peers >= 0
    }
}

/// A requested limit as the engine takes it: lowered to [`MAX_LIMIT`].
pub open spec fn limit_of(limit: u32) -> i32 {
    if limit > MAX_LIMIT {
        MAX_LIMIT as i32
    } else {
        limit as i32
    }
}

/// Relay server builder: collects and validates the settings of a server.
pub struct Builder {
    config: ServerConfig,
}

impl View for Builder {
    type V = ServerConfigView;

    closed spec fn view(&self) -> ServerConfigView {
        self.config@
    }
}

impl Default for Builder {
    /// A builder with no credentials and every other setting left to the
    /// engine.
    fn default() -> (r: Self)
        ensures
            r@ == (ServerConfigView {
                credentials: Seq::empty(),
                bind_address: None,
                external_address: None,
                port: 0,
                max_allocations: 0,
                max_peers: 0,
                relay_port_range_begin: 0,
                relay_port_range_end: 0,
                realm: None,
            }),
    {
        let config = ServerConfig {
            credentials: Vec::new(),
            bind_address: None,
            external_address: None,
            port: 0,
            max_allocations: 0,
            max_peers: 0,
            relay_port_range_begin: 0,
            relay_port_range_end: 0,
            realm: None,
        };
        assert(config@.credentials =~= Seq::<CredentialsEntryView>::empty());
        Builder { config }
    }
}

impl Builder {
    #[verifier::type_invariant]
    spec fn inv(&self) -> bool {
        self.config@.is_valid()
    }

    /// Replaces the list of credentials with `credentials_list`, in order.
    pub fn with_credentials(self, credentials_list: Vec<Credentials>) -> (r: Self)
        ensures
            r@ == (ServerConfigView {
                credentials: credentials_list@.map_values(|c: Credentials| c@.entry()),
                ..self@
            }),
    {
        proof {
            use_type_invariant(&self);
        }
        let mut list = credentials_list;
        let mut entries: Vec<CredentialsEntry> = Vec::new();
        let ghost all = credentials_list@.map_values(|c: Credentials| c@.entry());
        while list.len() > 0
            invariant
                all == credentials_list@.map_values(|c: Credentials| c@.entry()),
                entries@.len() + list@.len() == all.len(),
                forall|i: int| 0 <= i < entries@.len() ==> #[trigger] entries@[i]@ == all[i],
                forall|i: int| 0 <= i < list@.len() ==> #[trigger] list@[i]@.entry() == all[i + entries@.len()],
                forall|i: int| 0 <= i < entries@.len() ==> #[trigger] entries@[i]@.is_valid(),
            decreases list@.len(),
        {
            let ghost before = list@;
            let c = list.remove(0);
            let entry = c.into_entry();
            entries.push(entry);
            proof {
                assert forall|i: int| 0 <= i < list@.len() implies #[trigger] list@[i]@.entry() == all[i + entries@.len()] by {
                    assert(list@[i] == before[i + 1]);
                }
            }
        }
        let Builder { config } = self;
        let config = ServerConfig { credentials: entries, ..config };
        assert(config@.credentials =~= all);
        Builder { config }
    }

    /// Appends `cred` to the list of credentials.
    pub fn add_credentials(self, cred: Credentials) -> (r: Self)
        ensures
            r@ == (ServerConfigView { credentials: self@.credentials.push(cred@.entry()), ..self@ }),
    {
        proof {
            use_type_invariant(&self);
        }
        let entry = cred.into_entry();
        let Builder { config } = self;
        let ServerConfig {
            mut credentials,
            bind_address,
            external_address,
            port,
            max_allocations,
            max_peers,
            relay_port_range_begin,
            relay_port_range_end,
            realm,
        } = config;
        credentials.push(entry);
        let config = ServerConfig {
            credentials,
            bind_address,
            external_address,
            port,
            max_allocations,
            max_peers,
            relay_port_range_begin,
            relay_port_range_end,
            realm,
        };
        assert(config@.credentials =~= self@.credentials.push(entry@));
        Builder { config }
    }

    /// Listens on the interface whose address is written in `ip`, at `port`.
    ///
    /// Fails with `InvalidArgument` exactly when `ip` holds a NUL byte.
    pub fn bind_address(self, ip: &str, port: u16) -> (r: Result<Self>)
        ensures
            r is Err <==> has_nul(ip.spec_bytes()),
            r matches Err(e) ==> e == Error::InvalidArgument,
            r matches Ok(b) ==> b@ == (ServerConfigView {
                bind_address: Some(ip.spec_bytes()),
                port,
                ..self@
            }),
    {
        proof {
            use_type_invariant(&self);
        }
        let ip = c_text(ip)?;
        let Builder { config } = self;
        Ok(Builder { config: ServerConfig { bind_address: Some(ip), port, ..config } })
    }

    /// Announces the address written in `addr` as the server's public one.
    ///
    /// Fails with `InvalidArgument` exactly when `addr` holds a NUL byte.
    pub fn with_external_address(self, addr: &str) -> (r: Result<Self>)
        ensures
            r is Err <==> has_nul(addr.spec_bytes()),
            r matches Err(e) ==> e == Error::InvalidArgument,
            r matches Ok(b) ==> b@ == (ServerConfigView {
                external_address: Some(addr.spec_bytes()),
                ..self@
            }),
    {
        proof {
            use_type_invariant(&self);
        }
        let addr = c_text(addr)?;
        let Builder { config } = self;
        Ok(Builder { config: ServerConfig { external_address: Some(addr), ..config } })
    }

    /// Restricts the relayed ports to `begin..=end`.
    pub fn with_port_range(self, begin: u16, end: u16) -> (r: Self)
        ensures
            r@ == (ServerConfigView {
                relay_port_range_begin: begin,
                relay_port_range_end: end,
                ..self@
            }),
    {
        proof {
            use_type_invariant(&self);
        }
        let Builder { config } = self;
        Builder {
            config: ServerConfig {
                relay_port_range_begin: begin,
                relay_port_range_end: end,
                ..config
            },
        }
    }

    /// Sets the realm announced to clients.
    ///
    /// Fails with `InvalidArgument` exactly when `realm` holds a NUL byte.
    pub fn with_realm(self, realm: &str) -> (r: Result<Self>)
        ensures
            r is Err <==> has_nul(realm.spec_bytes()),
            r matches Err(e) ==> e == Error::InvalidArgument,
            r matches Ok(b) ==> b@ == (ServerConfigView {
                realm: Some(realm.spec_bytes()),
                ..self@
            }),
    {
        proof {
            use_type_invariant(&self);
        }
        let realm = c_text(realm)?;
        let Builder { config } = self;
        Ok(Builder { config: ServerConfig { realm: Some(realm), ..config } })
    }

    /// Limits the number of allocations, lowered to [`MAX_LIMIT`].
    pub fn with_allocations_limit(self, limit: u32) -> (r: Self)
        ensures
            r@ == (ServerConfigView { max_allocations: limit_of(limit), ..self@ }),
    {
        proof {
            use_type_invariant(&self);
        }
        let max_allocations = native_limit(limit);
        let Builder { config } = self;
        Builder { config: ServerConfig { max_allocations, ..config } }
    }

    /// Limits the number of peers, lowered to [`MAX_LIMIT`].
    pub fn with_peers_limit(self, limit: u32) -> (r: Self)
        ensures
            r@ == (ServerConfigView { max_peers: limit_of(limit), ..self@ }),
    {
        proof {
            use_type_invariant(&self);
        }
        let max_peers = native_limit(limit);
        let Builder { config } = self;
        Builder { config: ServerConfig { max_peers, ..config } }
    }

    /// The record for native creation, whose every text is a valid C
    /// string payload.
    ///
    /// Fails with `InvalidArgument` exactly when no credentials were given:
    /// a relay server must accept at least one user.
    pub fn into_config(self) -> (r: Result<ServerConfig>)
        ensures
            r is Err <==> self@.credentials.len() == 0,
            r matches Err(e) ==> e == Error::InvalidArgument,
            r matches Ok(c) ==> c@ == self@ && c@.is_valid(),
    {
        proof {
            use_type_invariant(&self);
        }
        if self.config.credentials.len() == 0 {
            return Err(Error::InvalidArgument);
        }
        let Builder { config } = self;
        Ok(config)
    }
}

/// A requested limit as the engine takes it.
fn native_limit(limit: u32) -> (r: i32)
    ensures
        r == limit_of(limit),
        r >= 0,
{
    if limit > MAX_LIMIT {
        MAX_LIMIT as i32
    } else {
        limit as i32
    }
}

} // verus!
