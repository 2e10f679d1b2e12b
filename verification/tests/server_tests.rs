use launcher::codec::decode_envelope;
use launcher::codec::encode_register;
use launcher::codec::try_encode_envelope;
use launcher::codec::Envelope;
use launcher::codec::Register;
use launcher::error::Error;
use launcher::server::dispatch;
use launcher::server::ok_envelope;
use launcher::server::step;
use launcher::server::DispatchOutcome;
use launcher::server::ServerAction;
use launcher::server::ServerEvent;
use launcher::server::ServerState;

fn envelope_bytes(tag: &str, payload: Vec<u8>) -> Vec<u8> {
    let env = Envelope { message_id: String::from(tag), payload };
    try_encode_envelope(&env).unwrap()
}

#[test]
fn handshake_and_dispatch_exchange_register_ok_spawn_ok() {
    // The envelope tags observed on the wire, in order, both directions.
    let mut wire: Vec<String> = vec![];

    let (state, action) = step(ServerState::Idle, ServerEvent::SpawnSucceeded);
    assert_eq!(action, ServerAction::AwaitRegistration);

    // The stub child immediately registers its reply channel.
    let reg = Register { reply_address: String::from("pipe-A") };
    let bytes = envelope_bytes("Register", encode_register(&reg));
    wire.push(String::from("Register"));
    let (state, action) = step(state, ServerEvent::Received(bytes));
    assert_eq!(action, ServerAction::ConnectTo(String::from("pipe-A")));

    // The launcher connects to the named address and acknowledges.
    let (state, action) = step(state, ServerEvent::ConnectSucceeded);
    match &action {
        ServerAction::SendMessage(bytes) => {
            let env = decode_envelope(bytes).unwrap();
            assert_eq!(env.message_id, "ok");
            wire.push(String::from("ok"));
        }
        other => panic!("expected an acknowledgement send, got {:?}", other),
    }
    let (state, action) = step(state, ServerEvent::SendSucceeded);
    assert_eq!(state, ServerState::Running);
    assert_eq!(action, ServerAction::AwaitEnvelope);

    // The stub child asks for a workload start; the launcher acknowledges.
    let bytes = envelope_bytes("Spawn", Vec::new());
    wire.push(String::from("Spawn"));
    let (state, action) = step(state, ServerEvent::Received(bytes));
    assert_eq!(state, ServerState::Running);
    match &action {
        ServerAction::SendMessage(bytes) => {
            let env = decode_envelope(bytes).unwrap();
            assert_eq!(env.message_id, "ok");
            wire.push(String::from("ok"));
        }
        other => panic!("expected an acknowledgement send, got {:?}", other),
    }

    assert_eq!(wire, vec!["Register", "ok", "Spawn", "ok"]);
}

#[test]
fn unknown_tag_is_skipped_and_spawn_still_answered() {
    let bytes = envelope_bytes("Gossip", vec![1, 2, 3]);
    let (state, action) = step(ServerState::Running, ServerEvent::Received(bytes));
    assert_eq!(state, ServerState::Running);
    assert_eq!(action, ServerAction::AwaitEnvelope);

    let bytes = envelope_bytes("Spawn", Vec::new());
    let (state, action) = step(state, ServerEvent::Received(bytes));
    assert_eq!(state, ServerState::Running);
    assert_eq!(action, ServerAction::SendMessage(ok_envelope()));
}

#[test]
fn malformed_envelope_is_recovered_without_acknowledgement() {
    let (state, action) = step(ServerState::Running, ServerEvent::Received(vec![1, 2]));
    assert_eq!(state, ServerState::Running);
    assert_eq!(action, ServerAction::AwaitEnvelope);
}

#[test]
fn dispatch_routes_by_tag() {
    match dispatch(&envelope_bytes("Spawn", vec![4, 5])) {
        DispatchOutcome::SpawnRequested(req, reply) => {
            assert_eq!(req.body, vec![4, 5]);
            assert_eq!(decode_envelope(&reply).unwrap().message_id, "ok");
        }
        other => panic!("expected a workload-start request, got {:?}", other),
    }
    match dispatch(&envelope_bytes("Census", Vec::new())) {
        DispatchOutcome::Ignored(tag) => assert_eq!(tag, "Census"),
        other => panic!("expected the tag to be skipped, got {:?}", other),
    }
    assert_eq!(dispatch(&[0, 0]), DispatchOutcome::Malformed);
}

#[test]
fn spawn_failure_faults_the_handshake() {
    let (state, action) = step(ServerState::Idle, ServerEvent::SpawnFailed);
    assert_eq!(state, ServerState::Faulted(Error::Connection));
    assert_eq!(action, ServerAction::Stop);
}

#[test]
fn registration_timeout_is_a_distinct_error() {
    let (state, _) = step(ServerState::AwaitingRegistration, ServerEvent::ReceiveTimedOut);
    assert_eq!(state, ServerState::Faulted(Error::Timeout));
}

#[test]
fn first_message_must_be_a_registration() {
    let bytes = envelope_bytes("Spawn", Vec::new());
    let (state, _) = step(ServerState::AwaitingRegistration, ServerEvent::Received(bytes));
    assert_eq!(state, ServerState::Faulted(Error::Serialization));

    let (state, _) = step(ServerState::AwaitingRegistration, ServerEvent::Received(vec![7]));
    assert_eq!(state, ServerState::Faulted(Error::Serialization));
}

#[test]
fn unreachable_reply_address_faults_the_handshake() {
    let state = ServerState::Connecting(String::from("pipe-B"));
    let (state, action) = step(state, ServerEvent::ConnectFailed);
    assert_eq!(state, ServerState::Faulted(Error::Connection));
    assert_eq!(action, ServerAction::Stop);
}

#[test]
fn send_failure_during_acknowledgement_is_a_transport_fault() {
    let (state, _) = step(ServerState::Connected, ServerEvent::SendFailed);
    assert_eq!(state, ServerState::Faulted(Error::Transport));
}

#[test]
fn closed_control_channel_retires_the_loop() {
    let (state, action) = step(ServerState::Running, ServerEvent::ChannelClosed);
    assert_eq!(state, ServerState::Retired);
    assert_eq!(action, ServerAction::Stop);

    // A retired machine stays retired.
    let (state, action) = step(state, ServerEvent::SendSucceeded);
    assert_eq!(state, ServerState::Retired);
    assert_eq!(action, ServerAction::Stop);
}

#[test]
fn error_descriptions_are_stable() {
    assert_eq!(Error::Connection.description(), "unable to reach channel or spawn child");
    assert_eq!(Error::Serialization.description(), "malformed envelope or payload");
    assert_eq!(Error::Transport.description(), "unable to send or receive on open channel");
    assert_eq!(Error::ProcessControl.description(), "unable to signal or query child process");
    assert_eq!(Error::Timeout.description(), "timed out waiting for child registration");
}
