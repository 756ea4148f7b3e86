use std::sync::{Arc, Mutex};

use libjuice_rs::{Builder, ConcurrencyMode, Error, Handler, DEFAULT_STUN_HOST, DEFAULT_STUN_PORT};

#[test]
fn defaults() {
    let (config, _) = Builder::new(Handler::default()).into_parts();
    assert_eq!(config.stun_server_host, b"stun.l.google.com".to_vec());
    assert_eq!(DEFAULT_STUN_HOST, "stun.l.google.com");
    assert_eq!(config.stun_server_port, 19302);
    assert_eq!(DEFAULT_STUN_PORT, 19302);
    assert!(config.turn_servers.is_empty());
    assert_eq!(config.bind_address, None);
    assert_eq!(config.local_port_range_begin, 0);
    assert_eq!(config.local_port_range_end, 0);
    assert_eq!(config.concurrency_mode, ConcurrencyMode::Poll);
}

#[test]
fn settings_reach_the_record() {
    let (config, _) = Builder::new(Handler::default())
        .with_stun("127.0.0.1", 3478)
        .unwrap()
        .with_port_range(5000, 5010)
        .with_bind_address("192.168.1.2")
        .unwrap()
        .concurrency(ConcurrencyMode::Thread)
        .into_parts();
    assert_eq!(config.stun_server_host, b"127.0.0.1".to_vec());
    assert_eq!(config.stun_server_port, 3478);
    assert_eq!(config.local_port_range_begin, 5000);
    assert_eq!(config.local_port_range_end, 5010);
    assert_eq!(config.bind_address, Some(b"192.168.1.2".to_vec()));
    assert_eq!(config.concurrency_mode, ConcurrencyMode::Thread);
}

#[test]
fn turn_servers_kept_in_order() {
    let (config, _) = Builder::new(Handler::default())
        .add_turn_server("127.0.0.1", 3478, "server_test", "79874638521694")
        .unwrap()
        .add_turn_server("turn.example.org", 443, "u", "p")
        .unwrap()
        .into_parts();
    assert_eq!(config.turn_servers.len(), 2);
    let t = &config.turn_servers[0];
    assert_eq!(t.host, b"127.0.0.1".to_vec());
    assert_eq!(t.port, 3478);
    assert_eq!(t.username, b"server_test".to_vec());
    assert_eq!(t.password, b"79874638521694".to_vec());
    let t = &config.turn_servers[1];
    assert_eq!(t.host, b"turn.example.org".to_vec());
    assert_eq!(t.port, 443);
    assert_eq!(t.username, b"u".to_vec());
    assert_eq!(t.password, b"p".to_vec());
}

#[test]
fn stun_host_with_nul_is_rejected() {
    let r = Builder::new(Handler::default()).with_stun("stun\0.example.org", 3478);
    assert!(matches!(r, Err(Error::InvalidArgument)));
}

#[test]
fn turn_texts_with_nul_are_rejected() {
    let r = Builder::new(Handler::default()).add_turn_server("a\0", 1, "u", "p");
    assert!(matches!(r, Err(Error::InvalidArgument)));
    let r = Builder::new(Handler::default()).add_turn_server("a", 1, "\0u", "p");
    assert!(matches!(r, Err(Error::InvalidArgument)));
    let r = Builder::new(Handler::default()).add_turn_server("a", 1, "u", "p\0");
    assert!(matches!(r, Err(Error::InvalidArgument)));
}

#[test]
fn bind_address_with_nul_is_rejected() {
    let r = Builder::new(Handler::default()).with_bind_address("10.0.0.1\0");
    assert!(matches!(r, Err(Error::InvalidArgument)));
}

#[test]
fn handler_travels_with_the_builder() {
    let hits = Arc::new(Mutex::new(0u32));
    let handler = Handler::default().gathering_finished_handler({
        let hits = hits.clone();
        move || *hits.lock().unwrap() += 1
    });
    let (_, mut handler) = Builder::new(handler).with_port_range(1, 2).into_parts();
    assert!(handler.on_gathering_done());
    assert_eq!(*hits.lock().unwrap(), 1);
}
