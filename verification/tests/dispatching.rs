use rpc_dispatch::codec::{Codec, FrameCodec};
use rpc_dispatch::dispatch::{
    dispatch_bidirectional, dispatch_client_streaming, dispatch_server_streaming, dispatch_unary,
};
use rpc_dispatch::scripted::{ScriptedTransport, UnaryBehavior};
use rpc_dispatch::status::{RpcError, Status};
use rpc_dispatch::transport::{InboundScript, StreamEnd};

fn empty_script() -> InboundScript {
    InboundScript { items: vec![], end: StreamEnd::Eos }
}

fn echo_transport() -> ScriptedTransport {
    ScriptedTransport::new(empty_script(), Ok(vec![]))
}

#[test]
fn unary_round_trip_through_echo() {
    let mut t = echo_transport();
    let c = FrameCodec {};
    let request = vec![5u8, 6, 7];
    let r = dispatch_unary(&mut t, &c, "/pkg.Greeter/SayHello", &request);
    match r {
        Ok(reply) => assert_eq!(reply, request),
        Err(_) => panic!("echoed unary call must succeed"),
    }
}

#[test]
fn unary_not_ready_returns_transport_unavailable() {
    let mut t = echo_transport();
    t.ready = false;
    t.diagnostic = String::from("connection refused");
    let r = dispatch_unary(&mut t, &FrameCodec {}, "/p.S/M", &vec![1u8]);
    match r {
        Err(RpcError::TransportUnavailable { diagnostic }) => {
            assert_eq!(diagnostic, "connection refused");
        },
        _ => panic!("gate failure must surface as TransportUnavailable"),
    }
}

#[test]
fn unary_transport_failure_carries_status() {
    let mut t = echo_transport();
    t.unary_behavior = UnaryBehavior::Fail(Status::new(4, String::from("deadline exceeded")));
    let r = dispatch_unary(&mut t, &FrameCodec {}, "/p.S/M", &vec![1u8]);
    match r {
        Err(RpcError::TransportFailure { status }) => {
            assert_eq!(status.code, 4);
            assert_eq!(status.message, "deadline exceeded");
        },
        _ => panic!("peer failure must surface as TransportFailure"),
    }
}

#[test]
fn unary_malformed_reply_is_serialization_error() {
    let mut t = echo_transport();
    t.unary_behavior = UnaryBehavior::Reply(vec![0u8, 1, 2]);
    let r = dispatch_unary(&mut t, &FrameCodec {}, "/p.S/M", &vec![1u8]);
    assert!(matches!(r, Err(RpcError::SerializationError)));
}

#[test]
fn server_streaming_yields_all_messages_in_order() {
    let c = FrameCodec {};
    let inbound = InboundScript {
        items: vec![c.encode(&vec![1u8]), c.encode(&vec![2u8, 2]), c.encode(&vec![3u8, 3, 3])],
        end: StreamEnd::Eos,
    };
    let mut t = ScriptedTransport::new(inbound, Ok(vec![]));
    let r = dispatch_server_streaming(&mut t, c, "/p.S/M", &vec![9u8]);
    let mut handle = match r {
        Ok(h) => h,
        Err(_) => panic!("streaming call must open"),
    };
    let (messages, terminal) = handle.recv_all();
    assert_eq!(messages, vec![vec![1u8], vec![2u8, 2], vec![3u8, 3, 3]]);
    assert!(terminal.is_none());
    assert!(handle.next().is_none());
    assert!(handle.next().is_none());
}

#[test]
fn server_streaming_not_ready_returns_transport_unavailable() {
    let mut t = echo_transport();
    t.ready = false;
    let r = dispatch_server_streaming(&mut t, FrameCodec {}, "/p.S/M", &vec![1u8]);
    assert!(matches!(r, Err(RpcError::TransportUnavailable { .. })));
}

#[test]
fn server_streaming_rejected_at_start_carries_status() {
    let mut t = echo_transport();
    t.start_fail = Some(Status::new(14, String::from("unavailable")));
    let r = dispatch_server_streaming(&mut t, FrameCodec {}, "/p.S/M", &vec![1u8]);
    match r {
        Err(RpcError::TransportFailure { status }) => assert_eq!(status.code, 14),
        _ => panic!("rejected call must surface as TransportFailure"),
    }
}

#[test]
fn server_stream_stops_at_malformed_frame() {
    let c = FrameCodec {};
    let inbound = InboundScript {
        items: vec![c.encode(&vec![1u8]), vec![0u8, 9], c.encode(&vec![3u8])],
        end: StreamEnd::Eos,
    };
    let mut t = ScriptedTransport::new(inbound, Ok(vec![]));
    let mut handle = match dispatch_server_streaming(&mut t, c, "/p.S/M", &vec![9u8]) {
        Ok(h) => h,
        Err(_) => panic!("streaming call must open"),
    };
    match handle.next() {
        Some(Ok(m)) => assert_eq!(m, vec![1u8]),
        _ => panic!("first frame is well-formed"),
    }
    assert!(matches!(handle.next(), Some(Err(RpcError::SerializationError))));
    assert!(handle.next().is_none());
}

#[test]
fn server_stream_failure_after_messages_carries_status() {
    let c = FrameCodec {};
    let inbound = InboundScript {
        items: vec![c.encode(&vec![1u8])],
        end: StreamEnd::Fail(Status::new(13, String::from("reset"))),
    };
    let mut t = ScriptedTransport::new(inbound, Ok(vec![]));
    let mut handle = match dispatch_server_streaming(&mut t, c, "/p.S/M", &vec![9u8]) {
        Ok(h) => h,
        Err(_) => panic!("streaming call must open"),
    };
    let (messages, terminal) = handle.recv_all();
    assert_eq!(messages, vec![vec![1u8]]);
    match terminal {
        Some(RpcError::TransportFailure { status }) => assert_eq!(status.code, 13),
        _ => panic!("the stream's terminal event is the transport failure"),
    }
}

#[test]
fn client_streaming_drains_and_decodes_reply() {
    let c = FrameCodec {};
    let mut t = ScriptedTransport::new(empty_script(), Ok(c.encode(&vec![7u8, 7])));
    let reqs = vec![vec![1u8], vec![2u8], vec![3u8]];
    let r = dispatch_client_streaming(&mut t, &c, "/p.S/M", &reqs);
    match r {
        Ok(reply) => assert_eq!(reply, vec![7u8, 7]),
        Err(_) => panic!("client-streaming call must succeed"),
    }
}

#[test]
fn client_streaming_not_ready_returns_transport_unavailable() {
    let mut t = echo_transport();
    t.ready = false;
    let r = dispatch_client_streaming(&mut t, &FrameCodec {}, "/p.S/M", &vec![vec![1u8]]);
    assert!(matches!(r, Err(RpcError::TransportUnavailable { .. })));
}

#[test]
fn client_streaming_send_failure_stops_the_drain() {
    let c = FrameCodec {};
    let mut t = ScriptedTransport::new(empty_script(), Ok(c.encode(&vec![7u8])));
    t.accept_sends = 1;
    t.send_fail = Status::new(8, String::from("resource exhausted"));
    let reqs = vec![vec![1u8], vec![2u8], vec![3u8]];
    let r = dispatch_client_streaming(&mut t, &c, "/p.S/M", &reqs);
    match r {
        Err(RpcError::TransportFailure { status }) => assert_eq!(status.code, 8),
        _ => panic!("a rejected send must surface as TransportFailure"),
    }
    // exactly the one accepted message was handed to the transport
    assert_eq!(t.accept_sends, 0);
}

#[test]
fn client_streaming_failed_finish_carries_status() {
    let mut t = ScriptedTransport::new(empty_script(), Err(Status::new(1, String::from("cancelled"))));
    let r = dispatch_client_streaming(&mut t, &FrameCodec {}, "/p.S/M", &vec![vec![1u8]]);
    match r {
        Err(RpcError::TransportFailure { status }) => assert_eq!(status.code, 1),
        _ => panic!("a failed finish must surface as TransportFailure"),
    }
}

#[test]
fn client_streaming_malformed_reply_is_serialization_error() {
    let mut t = ScriptedTransport::new(empty_script(), Ok(vec![0u8]));
    let r = dispatch_client_streaming(&mut t, &FrameCodec {}, "/p.S/M", &vec![vec![1u8]]);
    assert!(matches!(r, Err(RpcError::SerializationError)));
}

#[test]
fn bidirectional_cancel_after_m_of_n_messages() {
    let c = FrameCodec {};
    let inbound = InboundScript {
        items: vec![
            c.encode(&vec![1u8]),
            c.encode(&vec![2u8]),
            c.encode(&vec![3u8]),
            c.encode(&vec![4u8]),
        ],
        end: StreamEnd::Eos,
    };
    let mut t = ScriptedTransport::new(inbound, Ok(vec![]));
    let outbound = vec![vec![9u8], vec![8u8]];
    let mut handle = match dispatch_bidirectional(&mut t, c, "/p.S/M", &outbound) {
        Ok(h) => h,
        Err(_) => panic!("bidirectional call must open"),
    };
    let mut seen = vec![];
    for _ in 0..2 {
        match handle.next() {
            Some(Ok(m)) => seen.push(m),
            _ => panic!("the first two inbound messages are well-formed"),
        }
    }
    handle.cancel();
    assert!(handle.next().is_none());
    assert!(handle.next().is_none());
    assert_eq!(seen, vec![vec![1u8], vec![2u8]]);
}

#[test]
fn bidirectional_not_ready_returns_transport_unavailable() {
    let mut t = echo_transport();
    t.ready = false;
    let r = dispatch_bidirectional(&mut t, FrameCodec {}, "/p.S/M", &vec![vec![1u8]]);
    assert!(matches!(r, Err(RpcError::TransportUnavailable { .. })));
}

#[test]
fn bidirectional_send_failure_surfaces_status() {
    let mut t = echo_transport();
    t.accept_sends = 0;
    t.send_fail = Status::new(10, String::from("aborted"));
    let r = dispatch_bidirectional(&mut t, FrameCodec {}, "/p.S/M", &vec![vec![1u8]]);
    match r {
        Err(RpcError::TransportFailure { status }) => assert_eq!(status.code, 10),
        _ => panic!("a rejected send must surface as TransportFailure"),
    }
}

#[test]
fn bidirectional_with_no_outbound_messages_succeeds() {
    let c = FrameCodec {};
    let inbound = InboundScript { items: vec![c.encode(&vec![1u8])], end: StreamEnd::Eos };
    let mut t = ScriptedTransport::new(inbound, Ok(vec![]));
    let r = dispatch_bidirectional(&mut t, c, "/p.S/M", &vec![]);
    let mut handle = match r {
        Ok(h) => h,
        Err(_) => panic!("a bidirectional call with no outbound messages must open"),
    };
    let (messages, terminal) = handle.recv_all();
    assert_eq!(messages, vec![vec![1u8]]);
    assert!(terminal.is_none());
}

#[test]
fn client_streaming_with_no_requests_still_gets_reply() {
    let c = FrameCodec {};
    let mut t = ScriptedTransport::new(empty_script(), Ok(c.encode(&vec![5u8])));
    let r = dispatch_client_streaming(&mut t, &c, "/p.S/M", &vec![]);
    match r {
        Ok(reply) => assert_eq!(reply, vec![5u8]),
        Err(_) => panic!("an empty request sequence still yields the single response"),
    }
}

#[test]
fn bidirectional_drains_outbound_in_order() {
    let c = FrameCodec {};
    let mut t = ScriptedTransport::new(empty_script(), Ok(vec![]));
    t.accept_sends = 3;
    let outbound = vec![vec![1u8], vec![2u8], vec![3u8]];
    let r = dispatch_bidirectional(&mut t, c, "/p.S/M", &outbound);
    assert!(r.is_ok());
    // every outbound message was handed to the transport, one send each
    assert_eq!(t.accept_sends, 0);
}

#[test]
fn unary_echo_of_empty_message() {
    let mut t = echo_transport();
    let r = dispatch_unary(&mut t, &FrameCodec {}, "/p.S/M", &vec![]);
    match r {
        Ok(reply) => assert_eq!(reply, Vec::<u8>::new()),
        Err(_) => panic!("echoed unary call must succeed"),
    }
}
