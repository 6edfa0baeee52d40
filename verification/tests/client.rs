use rustrument::error::{AcceptError, Error, IoSource, RejectReason};
use rustrument::protocols::onc_rpc::client::{
    frame, validate_reply, BroadcastStep, CallState, Channel, Event, Framing, Received, RpcClient, Step,
};
use rustrument::protocols::onc_rpc::message::{CallHeader, OpaqueAuth, ReplyHeader, ReplyStatus};
use rustrument::protocols::onc_rpc::xdr::Xdr;

fn word(x: u32) -> [u8; 4] {
    x.to_be_bytes()
}

fn accepted(xid: u32, accept_stat: u32, rest: &[u8]) -> Vec<u8> {
    let mut m = Vec::new();
    m.extend_from_slice(&word(xid));
    m.extend_from_slice(&word(1));
    m.extend_from_slice(&word(0));
    m.extend_from_slice(&word(0));
    m.extend_from_slice(&word(0));
    m.extend_from_slice(&word(accept_stat));
    m.extend_from_slice(rest);
    m
}

fn denied(xid: u32, rest: &[u32]) -> Vec<u8> {
    let mut m = Vec::new();
    m.extend_from_slice(&word(xid));
    m.extend_from_slice(&word(1));
    m.extend_from_slice(&word(1));
    for w in rest {
        m.extend_from_slice(&word(*w));
    }
    m
}

fn xid_of(message: &[u8]) -> u32 {
    u32::from_be_bytes([message[0], message[1], message[2], message[3]])
}

#[test]
fn call_message_layout() {
    let mut client = RpcClient::new(100000, 2, 0x0102_0304);
    let message = client.call_anonymously(3, &(7u32, 9u32)).expect("an idle client calls");
    assert_eq!(
        message,
        vec![
            1, 2, 3, 4, // xid
            0, 0, 0, 0, // call
            0, 0, 0, 2, // rpc version
            0x00, 0x01, 0x86, 0xa0, // program
            0, 0, 0, 2, // version
            0, 0, 0, 3, // procedure
            0, 0, 0, 0, 0, 0, 0, 0, // credentials: none
            0, 0, 0, 0, 0, 0, 0, 0, // verifier: none
            0, 0, 0, 7, 0, 0, 0, 9, // arguments
        ]
    );
    assert_eq!(client.state(), CallState::Awaiting(0x0102_0304));
    assert_eq!(client.program(), 100000);
    assert_eq!(client.version(), 2);
}

#[test]
fn call_with_credentials() {
    let mut client = RpcClient::new(1, 1, 5);
    let cred = OpaqueAuth { flavor: 1, body: vec![0xaa, 0xbb, 0xcc] };
    let message = client.call(4, cred.clone(), OpaqueAuth::none(), &()).expect("valid");
    let (header, end) = CallHeader::decode(&message, 0).expect("a call header");
    assert_eq!(
        header,
        CallHeader { xid: 5, prog: 1, vers: 1, proc: 4, cred, verf: OpaqueAuth::none() }
    );
    assert_eq!(end, message.len());
    assert_eq!(&message[24..36], &[0, 0, 0, 1, 0, 0, 0, 3, 0xaa, 0xbb, 0xcc, 0]);
}

#[test]
fn oversize_credentials_are_refused_and_use_no_xid() {
    let mut client = RpcClient::new(1, 1, 5);
    let cred = OpaqueAuth { flavor: 1, body: vec![0; 401] };
    assert_eq!(client.call(4, cred, OpaqueAuth::none(), &()), Err(Error::Malformed));
    assert_eq!(client.state(), CallState::Idle);
    assert_eq!(client.next_xid(), 5);
    let cred = OpaqueAuth { flavor: 1, body: vec![0; 400] };
    assert!(client.call(4, cred, OpaqueAuth::none(), &()).is_ok());
}

#[test]
fn xids_count_up_and_wrap() {
    let mut client = RpcClient::new(1, 1, 0xffff_fffe);
    assert_eq!(client.next_xid(), 0xffff_fffe);
    assert_eq!(client.next_xid(), 0xffff_ffff);
    assert_eq!(client.next_xid(), 0);
    assert_eq!(client.next_xid(), 1);
}

#[test]
fn xids_are_not_reused() {
    let mut client = RpcClient::new(1, 1, 0xffff_ff00);
    let mut seen = std::collections::HashSet::new();
    for _ in 0..2000 {
        let message = client.call_anonymously(0, &()).expect("an open client calls");
        assert!(seen.insert(xid_of(&message)));
    }
}

#[test]
fn successful_reply_gives_the_results() {
    let mut client = RpcClient::new(1, 1, 77);
    client.call_anonymously(0, &()).expect("calls");
    let reply = accepted(77, 0, &[0, 0, 0x23, 0x8c]);
    assert_eq!(
        client.receive(Framing::Datagram, Event::Message(reply)),
        Step::Done(Ok(vec![0, 0, 0x23, 0x8c]))
    );
    assert_eq!(client.state(), CallState::Idle);
}

#[test]
fn stale_datagram_is_dropped() {
    let mut client = RpcClient::new(1, 1, 77);
    client.call_anonymously(0, &()).expect("calls");
    assert_eq!(client.receive(Framing::Datagram, Event::Message(accepted(76, 0, &[]))), Step::Again);
    assert_eq!(client.receive(Framing::Datagram, Event::Message(vec![1, 2])), Step::Again);
    assert_eq!(client.state(), CallState::Awaiting(77));
    assert_eq!(
        client.receive(Framing::Datagram, Event::Message(accepted(77, 0, &[]))),
        Step::Done(Ok(vec![]))
    );
}

#[test]
fn unknown_xid_on_a_stream_is_a_framing_error() {
    let mut client = RpcClient::new(1, 1, 77);
    client.call_anonymously(0, &()).expect("calls");
    assert_eq!(
        client.receive(Framing::RecordMarked, Event::Message(accepted(78, 0, &[]))),
        Step::Done(Err(Error::Framing))
    );
    assert_eq!(client.state(), CallState::Closed);
    assert_eq!(client.call_anonymously(0, &()), Err(Error::ChannelClosed));
    assert_eq!(
        client.receive(Framing::RecordMarked, Event::Message(accepted(77, 0, &[]))),
        Step::Done(Err(Error::ChannelClosed))
    );
}

#[test]
fn timeout_ends_the_call_and_keeps_the_xid_counter() {
    let mut client = RpcClient::new(1, 1, 500);
    let first = client.call_anonymously(0, &()).expect("calls");
    assert_eq!(xid_of(&first), 500);
    assert_eq!(client.receive(Framing::Datagram, Event::Timeout), Step::Done(Err(Error::Timeout)));
    assert_eq!(client.state(), CallState::Idle);
    let second = client.call_anonymously(0, &()).expect("the client is still usable");
    assert_eq!(xid_of(&second), 501);
    assert_eq!(client.receive(Framing::Datagram, Event::Message(accepted(500, 0, &[]))), Step::Again);
}

#[test]
fn closed_transport_closes_the_client() {
    let mut client = RpcClient::new(1, 1, 1);
    client.call_anonymously(0, &()).expect("calls");
    assert_eq!(client.receive(Framing::RecordMarked, Event::Closed), Step::Done(Err(Error::ChannelClosed)));
    assert_eq!(client.state(), CallState::Closed);
}

#[test]
fn socket_failure_is_an_io_error() {
    let mut client = RpcClient::new(1, 1, 1);
    client.call_anonymously(0, &()).expect("calls");
    assert_eq!(
        client.receive(Framing::Datagram, Event::Failed(111)),
        Step::Done(Err(Error::Io { source: IoSource::Os { code: 111 } }))
    );
    assert_eq!(client.state(), CallState::Idle);
}

#[test]
fn accepted_failures() {
    let cases: Vec<(Vec<u8>, AcceptError)> = vec![
        (accepted(9, 1, &[]), AcceptError::ProgUnavail),
        (accepted(9, 2, &[0, 0, 0, 1, 0, 0, 0, 3]), AcceptError::ProgMismatch { low: 1, high: 3 }),
        (accepted(9, 3, &[]), AcceptError::ProcUnavail),
        (accepted(9, 4, &[]), AcceptError::GarbageArgs),
        (accepted(9, 5, &[]), AcceptError::SystemErr),
    ];
    for (reply, stat) in cases {
        let mut client = RpcClient::new(1, 1, 9);
        client.call_anonymously(0, &()).expect("calls");
        assert_eq!(
            client.receive(Framing::RecordMarked, Event::Message(reply)),
            Step::Done(Err(Error::RpcError { stat }))
        );
        assert_eq!(client.state(), CallState::Idle);
    }
}

#[test]
fn rejected_calls() {
    let mut client = RpcClient::new(1, 1, 9);
    client.call_anonymously(0, &()).expect("calls");
    assert_eq!(
        client.receive(Framing::RecordMarked, Event::Message(denied(9, &[1, 2]))),
        Step::Done(Err(Error::RpcRejected { reason: RejectReason::AuthError { stat: 2 } }))
    );
    assert_eq!(client.state(), CallState::Idle);
    client.call_anonymously(0, &()).expect("an auth error leaves the client usable");
    assert_eq!(
        client.receive(Framing::RecordMarked, Event::Message(denied(10, &[0, 2, 2]))),
        Step::Done(Err(Error::RpcRejected { reason: RejectReason::RpcMismatch { low: 2, high: 2 } }))
    );
    assert_eq!(client.state(), CallState::Closed);
}

#[test]
fn malformed_replies() {
    for reply in [
        accepted(3, 6, &[]),
        accepted(3, 2, &[0, 0, 0, 1]),
        denied(3, &[2]),
        denied(3, &[0, 1]),
        vec![0, 0, 0, 3, 0, 0, 0, 0, 0, 0, 0, 0],
        vec![0, 0, 0, 3, 0, 0, 0, 1, 0, 0, 0, 2],
        vec![0, 0, 0, 3],
    ] {
        assert_eq!(validate_reply(3, &reply), Some(Err(Error::Malformed)));
    }
    assert_eq!(validate_reply(3, &[0, 0, 3]), None);
    assert_eq!(validate_reply(3, &accepted(4, 0, &[])), None);
}

#[test]
fn verifier_of_a_reply_is_skipped() {
    let mut reply = Vec::new();
    for w in [5u32, 1, 0, 7, 3] {
        reply.extend_from_slice(&word(w));
    }
    reply.extend_from_slice(&[1, 2, 3, 0]);
    reply.extend_from_slice(&word(0));
    reply.extend_from_slice(b"data");
    assert_eq!(validate_reply(5, &reply), Some(Ok(b"data".to_vec())));
}

#[test]
fn reply_header_round_trip() {
    let statuses = [
        ReplyStatus::Success,
        ReplyStatus::Failed(AcceptError::ProgUnavail),
        ReplyStatus::Failed(AcceptError::ProgMismatch { low: 1, high: 2 }),
        ReplyStatus::Failed(AcceptError::ProcUnavail),
        ReplyStatus::Failed(AcceptError::GarbageArgs),
        ReplyStatus::Failed(AcceptError::SystemErr),
        ReplyStatus::Denied(RejectReason::RpcMismatch { low: 2, high: 2 }),
        ReplyStatus::Denied(RejectReason::AuthError { stat: 5 }),
    ];
    for status in statuses {
        let header = ReplyHeader { xid: 0xcafe_f00d, status };
        let mut bytes = Vec::new();
        assert_eq!(header.encode(&mut bytes), Ok(()));
        assert_eq!(bytes.len() % 4, 0);
        assert_eq!(ReplyHeader::decode(&bytes, 0), Ok((header, bytes.len())));
    }
    let mut bytes = Vec::new();
    ReplyHeader { xid: 1, status: ReplyStatus::Success }.encode(&mut bytes).expect("encodes");
    assert_eq!(bytes, accepted(1, 0, &[]));
}

#[test]
fn call_header_must_be_a_version_two_call() {
    let mut client = RpcClient::new(1, 1, 5);
    let message = client.call_anonymously(4, &()).expect("calls");
    assert!(CallHeader::decode(&message, 0).is_ok());
    let mut reply_type = message.clone();
    reply_type[7] = 1;
    assert_eq!(CallHeader::decode(&reply_type, 0), Err(Error::Malformed));
    let mut version_three = message.clone();
    version_three[11] = 3;
    assert_eq!(CallHeader::decode(&version_three, 0), Err(Error::Malformed));
    assert_eq!(CallHeader::decode(&message[..39], 0), Err(Error::Malformed));
}

#[test]
fn framing_by_transport() {
    assert_eq!(frame(Framing::Datagram, vec![1, 2, 3]), vec![1, 2, 3]);
    assert_eq!(frame(Framing::RecordMarked, vec![1, 2, 3]), vec![0x80, 0, 0, 3, 1, 2, 3]);
}

#[test]
fn stream_channel_puts_records_together() {
    let mut channel = Channel::new(1, 1, 42);
    let sent = channel.call_anonymously(Framing::RecordMarked, 0, &()).expect("calls");
    assert_eq!(&sent[..4], &[0x80, 0, 0, 40]);
    assert_eq!(xid_of(&sent[4..]), 42);
    let reply = accepted(42, 0, b"abcd");
    let mut stream = Vec::new();
    stream.extend_from_slice(&[0, 0, 0, 10]);
    stream.extend_from_slice(&reply[..10]);
    stream.extend_from_slice(&word(0x8000_0000 | (reply.len() as u32 - 10)));
    stream.extend_from_slice(&reply[10..]);
    let (last, init) = stream.split_last().expect("not empty");
    for byte in init {
        assert_eq!(channel.deliver(Framing::RecordMarked, Event::Message(vec![*byte])), Step::Again);
    }
    assert_eq!(channel.buffer().len(), stream.len() - 1);
    assert_eq!(
        channel.deliver(Framing::RecordMarked, Event::Message(vec![*last])),
        Step::Done(Ok(b"abcd".to_vec()))
    );
    assert_eq!(channel.buffer().len(), 0);
    assert_eq!(channel.state(), CallState::Idle);
}

#[test]
fn stream_channel_refuses_oversize_fragments() {
    let mut channel = Channel::new(1, 1, 42);
    channel.call_anonymously(Framing::RecordMarked, 0, &()).expect("calls");
    assert_eq!(
        channel.deliver(Framing::RecordMarked, Event::Message(vec![0x80, 0x10, 0x00, 0x01])),
        Step::Done(Err(Error::Framing))
    );
    assert_eq!(channel.state(), CallState::Closed);
    assert_eq!(channel.call_anonymously(Framing::RecordMarked, 0, &()), Err(Error::ChannelClosed));
}

#[test]
fn broadcast_collects_until_timeout() {
    let mut client = RpcClient::new(1, 1, 9);
    let datagram = client.broadcast_anonymously(2, &5u32).expect("calls");
    assert_eq!(xid_of(&datagram), 9);
    assert_eq!(client.state(), CallState::Broadcasting(9));
    assert_eq!(
        client.next_reply(Received::Datagram(accepted(9, 0, &[1]), "a")),
        BroadcastStep::Item(Ok((vec![1], "a")))
    );
    assert_eq!(client.next_reply(Received::Datagram(accepted(8, 0, &[1]), "b")), BroadcastStep::Skip);
    assert_eq!(
        client.next_reply(Received::Datagram(accepted(9, 3, &[]), "c")),
        BroadcastStep::Item(Err(Error::RpcError { stat: AcceptError::ProcUnavail }))
    );
    assert_eq!(
        client.next_reply(Received::<&str>::Failed(5)),
        BroadcastStep::Item(Err(Error::Io { source: IoSource::Os { code: 5 } }))
    );
    assert_eq!(
        client.next_reply(Received::Datagram(accepted(9, 0, &[2]), "d")),
        BroadcastStep::Item(Ok((vec![2], "d")))
    );
    assert_eq!(client.next_reply(Received::<&str>::Timeout), BroadcastStep::End);
    assert_eq!(client.state(), CallState::Idle);
    assert_eq!(client.next_reply(Received::Datagram(accepted(9, 0, &[3]), "e")), BroadcastStep::End);
    assert_eq!(client.next_reply(Received::<&str>::Timeout), BroadcastStep::End);
}

#[test]
fn client_for_a_described_program() {
    let client = RpcClient::for_program::<rustrument::protocols::onc_rpc::port_mapper::PortMapper<()>>(7);
    assert_eq!((client.program(), client.version()), (100000, 2));
    assert_eq!(client.state(), CallState::Idle);
}
