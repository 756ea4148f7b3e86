use std::sync::{Arc, Mutex};

use libjuice_rs::{Handler, State};

#[test]
fn empty_handler_drops_events() {
    let mut h = Handler::default();
    assert!(!h.on_state_changed(State::Gathering));
    assert!(!h.on_candidate("a=candidate".to_string()));
    assert!(!h.on_gathering_done());
    assert!(!h.on_recv(b"hello"));
    assert_eq!(h.on_state_code(1), Some(false));
}

#[test]
fn installed_callbacks_receive_events() {
    let states = Arc::new(Mutex::new(Vec::new()));
    let candidates = Arc::new(Mutex::new(Vec::new()));
    let done = Arc::new(Mutex::new(0u32));
    let packets = Arc::new(Mutex::new(Vec::new()));
    let mut h = Handler::default()
        .state_handler({
            let states = states.clone();
            move |s| states.lock().unwrap().push(s)
        })
        .candidate_handler({
            let candidates = candidates.clone();
            move |c| candidates.lock().unwrap().push(c)
        })
        .gathering_finished_handler({
            let done = done.clone();
            move || *done.lock().unwrap() += 1
        })
        .recv_handler({
            let packets = packets.clone();
            move |p: &[u8]| packets.lock().unwrap().push(p.to_vec())
        });

    assert!(h.on_state_changed(State::Gathering));
    assert!(h.on_candidate("a=candidate:1 1 UDP 1 10.0.0.1 5000 typ host".to_string()));
    assert!(h.on_gathering_done());
    assert!(h.on_recv(&[104, 101, 108, 108, 111]));
    assert!(h.on_recv(b"world"));

    assert_eq!(*states.lock().unwrap(), vec![State::Gathering]);
    assert_eq!(
        *candidates.lock().unwrap(),
        vec!["a=candidate:1 1 UDP 1 10.0.0.1 5000 typ host".to_string()]
    );
    assert_eq!(*done.lock().unwrap(), 1);
    assert_eq!(
        *packets.lock().unwrap(),
        vec![b"hello".to_vec(), vec![119, 111, 114, 108, 100]]
    );
}

#[test]
fn state_codes_are_decoded_before_delivery() {
    let states = Arc::new(Mutex::new(Vec::new()));
    let mut h = Handler::default().state_handler({
        let states = states.clone();
        move |s| states.lock().unwrap().push(s)
    });
    assert_eq!(h.on_state_code(4), Some(true));
    assert_eq!(h.on_state_code(17), None);
    assert_eq!(h.on_state_code(0), Some(true));
    assert_eq!(*states.lock().unwrap(), vec![State::Completed, State::Disconnected]);
}

#[test]
fn only_installed_slot_receives() {
    let count = Arc::new(Mutex::new(0u32));
    let mut h = Handler::default().gathering_finished_handler({
        let count = count.clone();
        move || *count.lock().unwrap() += 1
    });
    assert!(!h.on_state_changed(State::Failed));
    assert!(!h.on_recv(b"x"));
    assert!(h.on_gathering_done());
    assert!(h.on_gathering_done());
    assert_eq!(*count.lock().unwrap(), 2);
}

#[test]
fn later_callback_replaces_earlier() {
    let first = Arc::new(Mutex::new(0u32));
    let second = Arc::new(Mutex::new(0u32));
    let mut h = Handler::default()
        .gathering_finished_handler({
            let first = first.clone();
            move || *first.lock().unwrap() += 1
        })
        .gathering_finished_handler({
            let second = second.clone();
            move || *second.lock().unwrap() += 1
        });
    assert!(h.on_gathering_done());
    assert_eq!(*first.lock().unwrap(), 0);
    assert_eq!(*second.lock().unwrap(), 1);
}

#[test]
fn boxed_handler_keeps_callbacks() {
    let count = Arc::new(Mutex::new(0u32));
    let mut h = Handler::default()
        .recv_handler({
            let count = count.clone();
            move |p: &[u8]| *count.lock().unwrap() += p.len() as u32
        })
        .to_box();
    assert!(h.on_recv(b"hello"));
    assert_eq!(*count.lock().unwrap(), 5);
}

fn require_send<T: Send>(_: &T) {}

#[test]
fn handler_can_move_to_engine_threads() {
    let h = Handler::default().state_handler(|_| {});
    require_send(&h);
}
