use tokio_anon_pipe::{
    anon_pipe, anon_pipe_we_read, anon_pipe_we_write, client_config, server_config, AnonPipeRead,
    AnonPipeWrite, ClientConfig, NamedPipeClient, NamedPipeServer, ServerConfig,
};

fn server(write: bool, handle: usize) -> NamedPipeServer {
    NamedPipeServer {
        name: String::from("pipe"),
        config: server_config(true, write),
        handle,
        connected: false,
    }
}

fn client(write: bool, handle: usize) -> NamedPipeClient {
    NamedPipeClient { name: String::from("pipe"), config: client_config(write), handle }
}

#[test]
fn server_config_reads_when_not_writing() {
    assert_eq!(
        server_config(true, false),
        ServerConfig {
            access_inbound: true,
            access_outbound: false,
            first_pipe_instance: true,
            reject_remote_clients: true,
            max_instances: 1,
        }
    );
}

#[test]
fn server_config_writes_without_restriction() {
    assert_eq!(
        server_config(false, true),
        ServerConfig {
            access_inbound: false,
            access_outbound: true,
            first_pipe_instance: true,
            reject_remote_clients: false,
            max_instances: 1,
        }
    );
}

#[test]
fn client_config_directions() {
    assert_eq!(client_config(true), ClientConfig { read: false, write: true });
    assert_eq!(client_config(false), ClientConfig { read: true, write: false });
}

#[test]
fn immediate_pair_on_success() {
    let (r, w) = anon_pipe::<i32>(server(false, 11), client(true, 22), Ok(())).unwrap();
    match &r {
        AnonPipeRead::Server(s) => assert!(s.connected),
        AnonPipeRead::Client(_) => panic!("read half must hold the listening endpoint"),
    }
    assert!(r.is_server());
    assert!(!w.is_server());
    assert_eq!(r.as_raw_handle(), 11);
    assert_eq!(w.as_raw_handle(), 22);
}

#[test]
fn immediate_pair_handshake_error() {
    let r = anon_pipe::<i32>(server(false, 11), client(true, 22), Err(233));
    assert!(matches!(r, Err(233)));
}

#[test]
fn deferred_read_connects() {
    let (pending, w) = anon_pipe_we_read(server(false, 3), client(true, 4));
    assert!(matches!(w, AnonPipeWrite::Client(_)));
    let r = pending.connect::<i32>(Ok(())).unwrap();
    match &r {
        AnonPipeRead::Server(s) => {
            assert!(s.connected);
            assert_eq!(s.handle, 3);
        }
        AnonPipeRead::Client(_) => panic!("read half must hold the listening endpoint"),
    }
}

#[test]
fn deferred_read_handshake_error() {
    let (pending, _w) = anon_pipe_we_read(server(false, 3), client(true, 4));
    assert!(matches!(pending.connect::<&str>(Err("refused")), Err("refused")));
}

#[test]
fn deferred_write_connects() {
    let (r, pending) = anon_pipe_we_write(server(true, 5), client(false, 6));
    assert!(!r.is_server());
    assert_eq!(r.as_raw_handle(), 6);
    let w = pending.connect::<i32>(Ok(())).unwrap();
    match &w {
        AnonPipeWrite::Server(s) => {
            assert!(s.connected);
            assert!(s.config.access_outbound);
        }
        AnonPipeWrite::Client(_) => panic!("write half must hold the listening endpoint"),
    }
    assert_eq!(w.into_raw_handle(), 5);
}

#[test]
fn deferred_write_handshake_error() {
    let (_r, pending) = anon_pipe_we_write(server(true, 5), client(false, 6));
    assert!(matches!(pending.connect::<u8>(Err(1)), Err(1)));
}

#[test]
fn raw_handle_handed_out_is_the_one_owned() {
    let r = AnonPipeRead::Client(client(false, 77));
    let seen = r.as_raw_handle();
    assert_eq!(r.into_raw_handle(), seen);
    let w = AnonPipeWrite::Server(server(true, 88));
    let seen = w.as_raw_handle();
    assert_eq!(w.into_raw_handle(), seen);
}
