use swarm_protocol::accepting::{accept_loop_step, AcceptEvent, AcceptStep};

#[test]
fn accept_loop_stops_on_shutdown() {
    let step = accept_loop_step::<u8, String>(AcceptEvent::Cancelled);
    assert!(matches!(step, AcceptStep::Stop));
}

#[test]
fn accept_loop_admits_incoming_connection() {
    let step = accept_loop_step::<u8, String>(AcceptEvent::Incoming(Ok(5)));
    assert!(matches!(step, AcceptStep::Admit(5)));
}

#[test]
fn accept_loop_skips_failed_accept() {
    let step = accept_loop_step::<u8, String>(AcceptEvent::Incoming(Err("refused".to_string())));
    assert!(matches!(step, AcceptStep::Skip(e) if e == "refused"));
}
