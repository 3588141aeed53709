//! The two halves of a pipe pair, each holding either the listening or the
//! connecting endpoint, and the connector that defers the handshake.
use vstd::prelude::*;

use crate::endpoint::{client_config_of, server_config_of, NamedPipeClient, NamedPipeServer};

verus! {

/// The read half of a pipe pair.
#[derive(Debug)]
pub enum AnonPipeRead {
    Server(NamedPipeServer),
    Client(NamedPipeClient),
}

/// The write half of a pipe pair.
#[derive(Debug)]
pub enum AnonPipeWrite {
    Server(NamedPipeServer),
    Client(NamedPipeClient),
}

impl AnonPipeRead {
    /// The system handle of the endpoint held.
    pub open spec fn raw_handle(&self) -> usize {
        match self {
            AnonPipeRead::Server(s) => s.handle,
            AnonPipeRead::Client(c) => c.handle,
        }
    }

    /// Data may be read: a listening endpoint has completed its handshake.
    pub open spec fn is_ready(&self) -> bool {
        match self {
            AnonPipeRead::Server(s) => s.connected,
            AnonPipeRead::Client(_) => true,
        }
    }

    /// The endpoint held is configured to read and not to write.
    pub open spec fn reads_only(&self) -> bool {
        match self {
            AnonPipeRead::Server(s) => s.config.access_inbound && !s.config.access_outbound,
            AnonPipeRead::Client(c) => c.config.read && !c.config.write,
        }
    }

    /// Whether the listening endpoint is held.
    pub fn is_server(&self) -> (r: bool)
        ensures
            r == (self is Server),
    {
        match self {
            AnonPipeRead::Server(_) => true,
            AnonPipeRead::Client(_) => false,
        }
    }

    /// The system handle, which stays owned by this half.
    pub fn as_raw_handle(&self) -> (r: usize)
        ensures
            r == self.raw_handle(),
    {
        match self {
            AnonPipeRead::Server(s) => s.handle,
            AnonPipeRead::Client(c) => c.handle,
        }
    }

    /// Gives up this half and hands its system handle to the caller, who
    /// owns it from then on.
    pub fn into_raw_handle(self) -> (r: usize)
        ensures
            r == self.raw_handle(),
    {
        match self {
            AnonPipeRead::Server(s) => s.handle,
            AnonPipeRead::Client(c) => c.handle,
        }
    }
}

impl AnonPipeWrite {
    /// The system handle of the endpoint held.
    pub open spec fn raw_handle(&self) -> usize {
        match self {
            AnonPipeWrite::Server(s) => s.handle,
            AnonPipeWrite::Client(c) => c.handle,
        }
    }

    /// Data may be written: a listening endpoint has completed its handshake.
    pub open spec fn is_ready(&self) -> bool {
        match self {
            AnonPipeWrite::Server(s) => s.connected,
            AnonPipeWrite::Client(_) => true,
        }
    }

    /// The endpoint held is configured to write and not to read.
    pub open spec fn writes_only(&self) -> bool {
        match self {
            AnonPipeWrite::Server(s) => s.config.access_outbound && !s.config.access_inbound,
            AnonPipeWrite::Client(c) => c.config.write && !c.config.read,
        }
    }

    /// Whether the listening endpoint is held.
    pub fn is_server(&self) -> (r: bool)
        ensures
            r == (self is Server),
    {
        match self {
            AnonPipeWrite::Server(_) => true,
            AnonPipeWrite::Client(_) => false,
        }
    }

    /// The system handle, which stays owned by this half.
    pub fn as_raw_handle(&self) -> (r: usize)
        ensures
            r == self.raw_handle(),
    {
        match self {
            AnonPipeWrite::Server(s) => s.handle,
            AnonPipeWrite::Client(c) => c.handle,
        }
    }

    /// Gives up this half and hands its system handle to the caller, who
    /// owns it from then on.
    pub fn into_raw_handle(self) -> (r: usize)
        ensures
            r == self.raw_handle(),
    {
        match self {
            AnonPipeWrite::Server(s) => s.handle,
            AnonPipeWrite::Client(c) => c.handle,
        }
    }
}

/// A half whose listening endpoint has not completed its handshake yet; it
/// becomes usable through `connect`.
#[derive(Debug)]
pub struct Connect<T>(T);

impl Connect<AnonPipeRead> {
    /// The half waiting for its handshake.
    pub closed spec fn pending(&self) -> AnonPipeRead {
        self.0
    }

    /// The half holds a listening endpoint that has not been connected.
    pub closed spec fn wf(&self) -> bool {
        self.0 matches AnonPipeRead::Server(s) && !s.connected
    }

    /// The half once its handshake has completed.
    pub open spec fn connected_half(&self) -> AnonPipeRead {
        AnonPipeRead::Server(self.pending()->Server_0.spec_connected())
    }

    /// Completes the deferred connect with the outcome of the handshake:
    /// the usable half when it succeeded, its error otherwise.
    pub fn connect<E>(self, handshake: Result<(), E>) -> (r: Result<AnonPipeRead, E>)
        requires
            self.wf(),
        ensures
            match handshake {
                Ok(()) => r == Ok::<AnonPipeRead, E>(self.connected_half()),
                Err(e) => r == Err::<AnonPipeRead, E>(e),
            },
            r matches Ok(h) ==> h.is_ready(),
    {
        match handshake {
            Ok(()) => match self.0 {
                AnonPipeRead::Server(s) => Ok(AnonPipeRead::Server(s.into_connected())),
                AnonPipeRead::Client(c) => Ok(AnonPipeRead::Client(c)),
            },
            Err(e) => Err(e),
        }
    }
}

impl Connect<AnonPipeWrite> {
    /// The half waiting for its handshake.
    pub closed spec fn pending(&self) -> AnonPipeWrite {
        self.0
    }

    /// The half holds a listening endpoint that has not been connected.
    pub closed spec fn wf(&self) -> bool {
        self.0 matches AnonPipeWrite::Server(s) && !s.connected
    }

    /// The half once its handshake has completed.
    pub open spec fn connected_half(&self) -> AnonPipeWrite {
        AnonPipeWrite::Server(self.pending()->Server_0.spec_connected())
    }

    /// Completes the deferred connect with the outcome of the handshake:
    /// the usable half when it succeeded, its error otherwise.
    pub fn connect<E>(self, handshake: Result<(), E>) -> (r: Result<AnonPipeWrite, E>)
        requires
            self.wf(),
        ensures
            match handshake {
                Ok(()) => r == Ok::<AnonPipeWrite, E>(self.connected_half()),
                Err(e) => r == Err::<AnonPipeWrite, E>(e),
            },
            r matches Ok(h) ==> h.is_ready(),
    {
        match handshake {
            Ok(()) => match self.0 {
                AnonPipeWrite::Server(s) => Ok(AnonPipeWrite::Server(s.into_connected())),
                AnonPipeWrite::Client(c) => Ok(AnonPipeWrite::Client(c)),
            },
            Err(e) => Err(e),
        }
    }
}

/// The pair of the immediate form: the listening endpoint, connected, reads;
/// the connecting endpoint writes.
pub open spec fn immediate_pair(server: NamedPipeServer, client: NamedPipeClient) -> (
    AnonPipeRead,
    AnonPipeWrite,
) {
    (AnonPipeRead::Server(server.spec_connected()), AnonPipeWrite::Client(client))
}

/// Assembles a pair whose read half holds the listening endpoint, not yet
/// connected, and whose write half holds the connecting endpoint.
pub fn anon_pipe_we_read(server: NamedPipeServer, client: NamedPipeClient) -> (r: (
    Connect<AnonPipeRead>,
    AnonPipeWrite,
))
    requires
        !server.connected,
    ensures
        r.0.wf(),
        r.0.pending() == AnonPipeRead::Server(server),
        r.1 == AnonPipeWrite::Client(client),
{
    (Connect(AnonPipeRead::Server(server)), AnonPipeWrite::Client(client))
}

/// Assembles a pair whose write half holds the listening endpoint, not yet
/// connected, and whose read half holds the connecting endpoint.
pub fn anon_pipe_we_write(server: NamedPipeServer, client: NamedPipeClient) -> (r: (
    AnonPipeRead,
    Connect<AnonPipeWrite>,
))
    requires
        !server.connected,
    ensures
        r.0 == AnonPipeRead::Client(client),
        r.1.wf(),
        r.1.pending() == AnonPipeWrite::Server(server),
{
    (AnonPipeRead::Client(client), Connect(AnonPipeWrite::Server(server)))
}

/// Assembles a usable pair from the listening endpoint, which reads, the
/// connecting endpoint, which writes, and the outcome of the handshake on the
/// listening endpoint; fails with the handshake's error.
pub fn anon_pipe<E>(server: NamedPipeServer, client: NamedPipeClient, handshake: Result<(), E>) -> (r:
    Result<(AnonPipeRead, AnonPipeWrite), E>)
    requires
        !server.connected,
    ensures
        match handshake {
            Ok(()) => r == Ok::<(AnonPipeRead, AnonPipeWrite), E>(immediate_pair(server, client)),
            Err(e) => r == Err::<(AnonPipeRead, AnonPipeWrite), E>(e),
        },
        r matches Ok(p) ==> p.0.is_ready() && p.1.is_ready(),
{
    let (pending, write) = anon_pipe_we_read(server, client);
    match pending.connect(handshake) {
        Ok(read) => Ok((read, write)),
        Err(e) => Err(e),
    }
}

/// A half from the deferred forms cannot be used until its handshake
/// completes; once it has, the read half is the one of the immediate form
/// and the write half is usable.
pub proof fn law_deferred_connect(
    read: Connect<AnonPipeRead>,
    write: Connect<AnonPipeWrite>,
    server: NamedPipeServer,
    client: NamedPipeClient,
)
    requires
        read.wf(),
        read.pending() == AnonPipeRead::Server(server),
        write.wf(),
    ensures
        !read.pending().is_ready(),
        read.connected_half().is_ready(),
        read.connected_half() == immediate_pair(server, client).0,
        !write.pending().is_ready(),
        write.connected_half().is_ready(),
{
}

/// In the immediate form built from endpoints configured for it, the read
/// half only reads and the write half only writes.
pub proof fn law_pair_directions(
    server: NamedPipeServer,
    client: NamedPipeClient,
    reject_remote_clients: bool,
)
    requires
        server.config == server_config_of(reject_remote_clients, false),
        client.config == client_config_of(true),
    ensures
        immediate_pair(server, client).0.reads_only(),
        immediate_pair(server, client).1.writes_only(),
{
}

} // verus!
