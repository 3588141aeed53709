//! The two endpoints of a pipe pair: how each is configured, and the plain
//! values that stand for an endpoint once it exists.
use vstd::prelude::*;

verus! {

/// The options a listening endpoint is created with.
#[derive(Clone, Copy, Debug, PartialEq, Eq, Structural)]
pub struct ServerConfig {
    /// Data flows from the connecting endpoint to this one.
    pub access_inbound: bool,
    /// Data flows from this endpoint to the connecting one.
    pub access_outbound: bool,
    /// Creation fails if an instance with the name exists already.
    pub first_pipe_instance: bool,
    /// Only peers of this host may connect.
    pub reject_remote_clients: bool,
    /// The number of instances that the name may have.
    pub max_instances: usize,
}

/// The options a connecting endpoint is opened with.
#[derive(Clone, Copy, Debug, PartialEq, Eq, Structural)]
pub struct ClientConfig {
    /// This endpoint reads.
    pub read: bool,
    /// This endpoint writes.
    pub write: bool,
}

/// The options of a listening endpoint that writes when `write` holds and
/// reads otherwise; it is the only instance of its name.
pub open spec fn server_config_of(reject_remote_clients: bool, write: bool) -> ServerConfig {
    ServerConfig {
        access_inbound: !write,
        access_outbound: write,
        first_pipe_instance: true,
        reject_remote_clients,
        max_instances: 1,
    }
}

/// The options of a connecting endpoint that writes when `write` holds and
/// reads otherwise.
pub open spec fn client_config_of(write: bool) -> ClientConfig {
    ClientConfig { read: !write, write }
}

/// The two configurations let data flow one way only, between the two
/// endpoints: what one writes the other reads.
pub open spec fn complementary(s: ServerConfig, c: ClientConfig) -> bool {
    &&& s.access_outbound == c.read
    &&& s.access_inbound == c.write
    &&& s.access_inbound != s.access_outbound
}

/// The options of the listening endpoint.
pub fn server_config(reject_remote_clients: bool, write: bool) -> (r: ServerConfig)
    ensures
        r == server_config_of(reject_remote_clients, write),
{
    ServerConfig {
        access_inbound: !write,
        access_outbound: write,
        first_pipe_instance: true,
        reject_remote_clients,
        max_instances: 1,
    }
}

/// The options of the connecting endpoint.
pub fn client_config(write: bool) -> (r: ClientConfig)
    ensures
        r == client_config_of(write),
{
    ClientConfig { read: !write, write }
}

/// A listening endpoint that writes and a connecting endpoint that reads, or
/// the other way round, form a one-way channel whatever the restriction to
/// local peers.
pub proof fn law_directions_complementary(reject_remote_clients: bool, server_writes: bool)
    ensures
        complementary(
            server_config_of(reject_remote_clients, server_writes),
            client_config_of(!server_writes),
        ),
{
}

/// A listening endpoint that exists: the values the pair logic reads of it.
#[derive(Debug)]
pub struct NamedPipeServer {
    /// The channel name it was created with.
    pub name: String,
    /// The options it was created with.
    pub config: ServerConfig,
    /// The system handle it owns.
    pub handle: usize,
    /// The connect handshake has completed.
    pub connected: bool,
}

/// A connecting endpoint that exists: the values the pair logic reads of it.
#[derive(Debug)]
pub struct NamedPipeClient {
    /// The channel name it was opened with.
    pub name: String,
    /// The options it was opened with.
    pub config: ClientConfig,
    /// The system handle it owns.
    pub handle: usize,
}

impl NamedPipeServer {
    /// The same endpoint after its connect handshake.
    pub open spec fn spec_connected(self) -> NamedPipeServer {
        NamedPipeServer { connected: true, ..self }
    }

    /// Records that the connect handshake has completed.
    pub fn into_connected(self) -> (r: NamedPipeServer)
        ensures
            r == self.spec_connected(),
    {
        let mut s = self;
        s.connected = true;
        s
    }
}

} // verus!
