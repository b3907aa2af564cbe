use rpc_dispatch::client::ClientHandle;
use rpc_dispatch::codec::{Codec, FrameCodec};
use rpc_dispatch::descriptor::{CallShape, MethodDescriptor, ServiceDescriptor};
use rpc_dispatch::scripted::ScriptedTransport;
use rpc_dispatch::status::RpcError;
use rpc_dispatch::transport::{InboundScript, StreamEnd};

fn method(name: &str, client_streaming: bool, server_streaming: bool) -> MethodDescriptor {
    MethodDescriptor {
        name: String::from(name),
        input_type: String::from("HelloRequest"),
        output_type: String::from("HelloReply"),
        client_streaming,
        server_streaming,
    }
}

fn greeter() -> ServiceDescriptor {
    ServiceDescriptor {
        package: String::from("pkg"),
        service_name: String::from("Greeter"),
        methods: vec![
            method("SayHello", false, false),
            method("LotsOfReplies", false, true),
            method("LotsOfGreetings", true, false),
            method("BidiHello", true, true),
        ],
    }
}

fn echo_client() -> ClientHandle<ScriptedTransport, FrameCodec> {
    let inbound = InboundScript { items: vec![], end: StreamEnd::Eos };
    let transport = ScriptedTransport::new(inbound, Ok(vec![]));
    ClientHandle::new(transport, FrameCodec {}, greeter())
}

#[test]
fn descriptor_selects_all_four_shapes() {
    let d = greeter();
    assert_eq!(d.methods[0].shape(), CallShape::Unary);
    assert_eq!(d.methods[1].shape(), CallShape::ServerStreaming);
    assert_eq!(d.methods[2].shape(), CallShape::ClientStreaming);
    assert_eq!(d.methods[3].shape(), CallShape::Bidirectional);
}

#[test]
fn descriptor_derives_method_paths() {
    let d = greeter();
    assert_eq!(d.method_path(0), "/pkg.Greeter/SayHello");
    assert_eq!(d.method_path(3), "/pkg.Greeter/BidiHello");
}

#[test]
fn client_unary_echoes_through_descriptor() {
    let mut client = echo_client();
    let request = vec![1u8, 2, 3];
    match client.call_unary(0, &request) {
        Ok(reply) => assert_eq!(reply, request),
        Err(_) => panic!("echoed unary call must succeed"),
    }
}

#[test]
fn client_rejects_wrong_shape_as_protocol_violation() {
    let mut client = echo_client();
    assert!(matches!(client.call_unary(1, &vec![1u8]), Err(RpcError::ProtocolViolation)));
    assert!(matches!(
        client.call_server_streaming(0, &vec![1u8]),
        Err(RpcError::ProtocolViolation)
    ));
    assert!(matches!(
        client.call_client_streaming(0, &vec![vec![1u8]]),
        Err(RpcError::ProtocolViolation)
    ));
    assert!(matches!(
        client.call_bidirectional(2, &vec![vec![1u8]]),
        Err(RpcError::ProtocolViolation)
    ));
}

#[test]
fn client_ready_is_advisory() {
    let mut client = echo_client();
    assert!(client.ready().is_ok());
    // the advisory check does not consume later gating: the call still succeeds
    match client.call_unary(0, &vec![4u8]) {
        Ok(reply) => assert_eq!(reply, vec![4u8]),
        Err(_) => panic!("call after advisory ready must succeed"),
    }
}

#[test]
fn client_ready_reports_diagnostic() {
    let mut client = echo_client();
    client.transport.ready = false;
    client.transport.diagnostic = String::from("no connection");
    match client.ready() {
        Err(RpcError::TransportUnavailable { diagnostic }) => {
            assert_eq!(diagnostic, "no connection");
        },
        _ => panic!("a not-ready transport fails the advisory check"),
    }
}

#[test]
fn client_not_ready_fails_all_four_shapes() {
    let mut client = echo_client();
    client.transport.ready = false;
    assert!(matches!(
        client.call_unary(0, &vec![1u8]),
        Err(RpcError::TransportUnavailable { .. })
    ));
    assert!(matches!(
        client.call_server_streaming(1, &vec![1u8]),
        Err(RpcError::TransportUnavailable { .. })
    ));
    assert!(matches!(
        client.call_client_streaming(2, &vec![vec![1u8]]),
        Err(RpcError::TransportUnavailable { .. })
    ));
    assert!(matches!(
        client.call_bidirectional(3, &vec![vec![1u8]]),
        Err(RpcError::TransportUnavailable { .. })
    ));
}

#[test]
fn client_server_streaming_delivers_messages() {
    let codec = FrameCodec {};
    let inbound = InboundScript {
        items: vec![codec.encode(&vec![11u8]), codec.encode(&vec![22u8])],
        end: StreamEnd::Eos,
    };
    let transport = ScriptedTransport::new(inbound, Ok(vec![]));
    let mut client = ClientHandle::new(transport, codec, greeter());
    let mut handle = match client.call_server_streaming(1, &vec![0u8]) {
        Ok(h) => h,
        Err(_) => panic!("streaming call must open"),
    };
    let (messages, terminal) = handle.recv_all();
    assert_eq!(messages, vec![vec![11u8], vec![22u8]]);
    assert!(terminal.is_none());
}

#[test]
fn client_streaming_returns_decoded_reply() {
    let codec = FrameCodec {};
    let inbound = InboundScript { items: vec![], end: StreamEnd::Eos };
    let transport = ScriptedTransport::new(inbound, Ok(codec.encode(&vec![42u8])));
    let mut client = ClientHandle::new(transport, codec, greeter());
    match client.call_client_streaming(2, &vec![vec![1u8], vec![2u8]]) {
        Ok(reply) => assert_eq!(reply, vec![42u8]),
        Err(_) => panic!("client-streaming call must succeed"),
    }
}
