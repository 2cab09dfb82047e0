use web_rpc::builder::Builder;
use web_rpc::dispatch::DispatchTable;
use web_rpc::envelope::CallError;
use web_rpc::envelope::Envelope;
use web_rpc::envelope::HandlerFailure;
use web_rpc::envelope::Outcome;
use web_rpc::envelope::WireFault;
use web_rpc::interface::Interface;
use web_rpc::interface::RecvAction;

const CONCAT_SERVICE: u32 = 1;
const CONCAT_WITH_SPACE: u32 = 1;
const ADD_SERVICE: u32 = 2;
const ADD: u32 = 1;

fn concat_with_space(args: &[Vec<u8>]) -> Vec<u8> {
    let mut out: Vec<u8> = Vec::new();
    for (i, a) in args.iter().enumerate() {
        if i > 0 {
            out.push(b' ');
        }
        out.extend_from_slice(a);
    }
    out
}

fn add(args: &[Vec<u8>]) -> Vec<u8> {
    let left = u32::from_le_bytes([args[0][0], args[0][1], args[0][2], args[0][3]]);
    let right = u32::from_le_bytes([args[1][0], args[1][1], args[1][2], args[1][3]]);
    (left + right).to_le_bytes().to_vec()
}

fn handshake(a: &mut Interface, b: &mut Interface) {
    let ready_a = a.signal_ready();
    let ready_b = b.signal_ready();
    assert!(matches!(b.handle_message(ready_a), RecvAction::Idle));
    assert!(matches!(a.handle_message(ready_b), RecvAction::Idle));
    assert!(a.is_established());
    assert!(b.is_established());
}

#[test]
fn post() {
    /* create the two sides of the channel */
    let mut server = Builder::new(Interface::new(DispatchTable::new()))
        .with_service(CONCAT_SERVICE, vec![CONCAT_WITH_SPACE])
        .unwrap()
        .build();
    let (builder, client) =
        Builder::new(Interface::new(DispatchTable::new())).with_client(CONCAT_SERVICE);
    let mut client_if = builder.build();
    handshake(&mut server, &mut client_if);
    /* run test */
    let args = vec![b"hello".to_vec(), b"world".to_vec()];
    let (id, request) = client.call(&mut client_if, CONCAT_WITH_SPACE, args).unwrap();
    let act = server.handle_message(request);
    let response = match act {
        RecvAction::Invoke { call_id, service_id, method_id, args } => {
            assert_eq!(call_id, id);
            assert_eq!(service_id, CONCAT_SERVICE);
            assert_eq!(method_id, CONCAT_WITH_SPACE);
            let payload = concat_with_space(&args);
            server.handler_complete(call_id, Ok(payload)).unwrap()
        }
        other => panic!("expected an invocation, got {:?}", other),
    };
    assert!(matches!(client_if.handle_message(response), RecvAction::Idle));
    let outcome = client_if.take_outcome(id).unwrap().unwrap();
    assert_eq!(outcome, b"hello world".to_vec());
}

#[test]
fn unidirectional() {
    /* server side serves only; client side calls only */
    let mut server = Builder::new(Interface::new(DispatchTable::new()))
        .with_service(ADD_SERVICE, vec![ADD])
        .unwrap()
        .build();
    let (builder, client) =
        Builder::new(Interface::new(DispatchTable::new())).with_client(ADD_SERVICE);
    let mut client_if = builder.build();
    handshake(&mut server, &mut client_if);
    /* run test */
    let args = vec![41u32.to_le_bytes().to_vec(), 1u32.to_le_bytes().to_vec()];
    let (id, request) = client.call(&mut client_if, ADD, args).unwrap();
    let response = match server.handle_message(request) {
        RecvAction::Invoke { call_id, args, .. } => {
            server.handler_complete(call_id, Ok(add(&args))).unwrap()
        }
        other => panic!("expected an invocation, got {:?}", other),
    };
    assert!(matches!(client_if.handle_message(response), RecvAction::Idle));
    let outcome = client_if.take_outcome(id).unwrap().expect("RPC failure");
    assert_eq!(u32::from_le_bytes([outcome[0], outcome[1], outcome[2], outcome[3]]), 42);
}

#[test]
fn server_dropped_resolves_channel_closed() {
    let mut server = Builder::new(Interface::new(DispatchTable::new()))
        .with_service(ADD_SERVICE, vec![ADD])
        .unwrap()
        .build();
    let (builder, client) =
        Builder::new(Interface::new(DispatchTable::new())).with_client(ADD_SERVICE);
    let mut client_if = builder.build();
    handshake(&mut server, &mut client_if);
    let args = vec![41u32.to_le_bytes().to_vec(), 1u32.to_le_bytes().to_vec()];
    let (id, request) = client.call(&mut client_if, ADD, args).unwrap();
    /* the serving handle is dropped before a response is produced: the
     * handler's completion must not be posted... */
    match server.handle_message(request) {
        RecvAction::Invoke { call_id, args, .. } => {
            server.on_closed();
            assert_eq!(server.handler_complete(call_id, Ok(add(&args))), None);
        }
        other => panic!("expected an invocation, got {:?}", other),
    }
    /* ...and once the closure reaches the client's endpoint, the call
     * resolves to the closed-channel error instead of hanging forever */
    assert_eq!(client_if.take_outcome(id), None);
    client_if.on_closed();
    let outcome = client_if.take_outcome(id).unwrap();
    assert_eq!(outcome, Err(CallError::ChannelClosed));
}

#[test]
fn unknown_method_gets_error_and_loop_survives() {
    let mut server = Builder::new(Interface::new(DispatchTable::new()))
        .with_service(ADD_SERVICE, vec![ADD])
        .unwrap()
        .build();
    let (builder, client) =
        Builder::new(Interface::new(DispatchTable::new())).with_client(ADD_SERVICE);
    let mut client_if = builder.build();
    handshake(&mut server, &mut client_if);
    /* a request for an unregistered method yields a no-such-method error
     * response under the same call id */
    let (id, request) = client.call(&mut client_if, 99, vec![]).unwrap();
    let act = server.handle_message(request);
    let error_response = Envelope::Response {
        call_id: id,
        outcome: Outcome::Failure(WireFault::NoSuchMethod),
    };
    assert_eq!(act, RecvAction::Post(error_response.clone()));
    assert!(matches!(client_if.handle_message(error_response), RecvAction::Idle));
    assert_eq!(client_if.take_outcome(id).unwrap(), Err(CallError::NoSuchMethod));
    /* the receive loop was not terminated: a well-addressed call still
     * completes afterwards */
    let args = vec![41u32.to_le_bytes().to_vec(), 1u32.to_le_bytes().to_vec()];
    let (id2, request2) = client.call(&mut client_if, ADD, args).unwrap();
    let response = match server.handle_message(request2) {
        RecvAction::Invoke { call_id, args, .. } => {
            server.handler_complete(call_id, Ok(add(&args))).unwrap()
        }
        other => panic!("expected an invocation, got {:?}", other),
    };
    client_if.handle_message(response);
    let outcome = client_if.take_outcome(id2).unwrap().unwrap();
    assert_eq!(u32::from_le_bytes([outcome[0], outcome[1], outcome[2], outcome[3]]), 42);
}

#[test]
fn concurrent_calls_resolve_by_call_id() {
    let mut server = Builder::new(Interface::new(DispatchTable::new()))
        .with_service(CONCAT_SERVICE, vec![CONCAT_WITH_SPACE])
        .unwrap()
        .build();
    let (builder, client) =
        Builder::new(Interface::new(DispatchTable::new())).with_client(CONCAT_SERVICE);
    let mut client_if = builder.build();
    handshake(&mut server, &mut client_if);
    /* three calls in flight at once, with distinct call ids */
    let inputs = [b"one".to_vec(), b"two".to_vec(), b"three".to_vec()];
    let mut issued: Vec<(u64, Envelope)> = Vec::new();
    for payload in &inputs {
        let (id, request) =
            client.call(&mut client_if, CONCAT_WITH_SPACE, vec![payload.clone()]).unwrap();
        issued.push((id, request));
    }
    assert!(issued[0].0 != issued[1].0 && issued[1].0 != issued[2].0);
    /* the server completes them out of order; responses race back in that
     * order too */
    let mut responses: Vec<Envelope> = Vec::new();
    for (_, request) in issued.clone() {
        match server.handle_message(request) {
            RecvAction::Invoke { call_id, args, .. } => {
                responses.push(server.handler_complete(call_id, Ok(concat_with_space(&args))).unwrap());
            }
            other => panic!("expected an invocation, got {:?}", other),
        }
    }
    responses.reverse();
    for response in responses {
        client_if.handle_message(response);
    }
    /* each future resolves with the outcome produced for its own call id,
     * regardless of arrival order */
    for (k, (id, _)) in issued.iter().enumerate() {
        let outcome = client_if.take_outcome(*id).unwrap().unwrap();
        assert_eq!(outcome, inputs[k]);
    }
}

#[test]
fn duplicate_response_discarded() {
    let mut server = Builder::new(Interface::new(DispatchTable::new()))
        .with_service(CONCAT_SERVICE, vec![CONCAT_WITH_SPACE])
        .unwrap()
        .build();
    let (builder, client) =
        Builder::new(Interface::new(DispatchTable::new())).with_client(CONCAT_SERVICE);
    let mut client_if = builder.build();
    handshake(&mut server, &mut client_if);
    let (id, request) = client.call(&mut client_if, CONCAT_WITH_SPACE, vec![b"x".to_vec()]).unwrap();
    let response = match server.handle_message(request) {
        RecvAction::Invoke { call_id, args, .. } => {
            server.handler_complete(call_id, Ok(concat_with_space(&args))).unwrap()
        }
        other => panic!("expected an invocation, got {:?}", other),
    };
    client_if.handle_message(response.clone());
    /* a duplicate of the same response has no observable effect */
    assert!(matches!(client_if.handle_message(response.clone()), RecvAction::Idle));
    assert_eq!(client_if.take_outcome(id).unwrap().unwrap(), b"x".to_vec());
    /* and once the outcome is collected, a further duplicate is stale */
    assert!(matches!(client_if.handle_message(response), RecvAction::Idle));
    assert_eq!(client_if.take_outcome(id), None);
}

#[test]
fn stale_response_after_cancel_discarded() {
    let (builder, client) =
        Builder::new(Interface::new(DispatchTable::new())).with_client(CONCAT_SERVICE);
    let mut client_if = builder.build();
    let mut peer = Builder::new(Interface::new(DispatchTable::new()))
        .with_service(CONCAT_SERVICE, vec![CONCAT_WITH_SPACE])
        .unwrap()
        .build();
    handshake(&mut peer, &mut client_if);
    let (id, request) = client.call(&mut client_if, CONCAT_WITH_SPACE, vec![b"x".to_vec()]).unwrap();
    /* dropping the call future cancels local interest in the outcome */
    assert!(client_if.cancel_call(id));
    let response = match peer.handle_message(request) {
        RecvAction::Invoke { call_id, args, .. } => {
            peer.handler_complete(call_id, Ok(concat_with_space(&args))).unwrap()
        }
        other => panic!("expected an invocation, got {:?}", other),
    };
    /* the late response is discarded silently; this is not an error */
    assert!(matches!(client_if.handle_message(response), RecvAction::Idle));
    assert_eq!(client_if.take_outcome(id), None);
}

#[test]
fn calls_after_closure_fail_immediately() {
    let (builder, client) =
        Builder::new(Interface::new(DispatchTable::new())).with_client(ADD_SERVICE);
    let mut client_if = builder.build();
    let mut peer = Builder::new(Interface::new(DispatchTable::new())).build();
    handshake(&mut peer, &mut client_if);
    client_if.on_closed();
    let r = client.call(&mut client_if, ADD, vec![]);
    assert_eq!(r.unwrap_err(), CallError::ChannelClosed);
}

#[test]
fn handler_error_surfaces_to_caller() {
    let mut server = Builder::new(Interface::new(DispatchTable::new()))
        .with_service(ADD_SERVICE, vec![ADD])
        .unwrap()
        .build();
    let (builder, client) =
        Builder::new(Interface::new(DispatchTable::new())).with_client(ADD_SERVICE);
    let mut client_if = builder.build();
    handshake(&mut server, &mut client_if);
    let (id, request) = client.call(&mut client_if, ADD, vec![]).unwrap();
    let response = match server.handle_message(request) {
        RecvAction::Invoke { call_id, .. } => {
            /* the handler reports a failure; the receive loop converts it
             * into an error outcome rather than crashing */
            server.handler_complete(call_id, Err(HandlerFailure)).unwrap()
        }
        other => panic!("expected an invocation, got {:?}", other),
    };
    client_if.handle_message(response);
    assert_eq!(client_if.take_outcome(id).unwrap(), Err(CallError::HandlerError));
}

#[test]
fn teardown_resolves_every_pending_call() {
    let (builder, client) =
        Builder::new(Interface::new(DispatchTable::new())).with_client(CONCAT_SERVICE);
    let mut client_if = builder.build();
    let mut peer = Builder::new(Interface::new(DispatchTable::new())).build();
    handshake(&mut peer, &mut client_if);
    let mut ids: Vec<u64> = Vec::new();
    for _ in 0..4 {
        let (id, _) = client.call(&mut client_if, CONCAT_WITH_SPACE, vec![]).unwrap();
        ids.push(id);
    }
    /* the endpoint is closed while all four calls are pending */
    client_if.on_closed();
    for id in ids {
        assert_eq!(client_if.take_outcome(id).unwrap(), Err(CallError::ChannelClosed));
    }
}
