use rustrument::error::{device_fault, device_result, AcceptError, DeviceFault, Error, IoSource};
use rustrument::protocols::onc_rpc::client::{Event, Step};
use rustrument::protocols::onc_rpc::xdr::Xdr;
use rustrument::protocols::onc_rpc::vxi11::interrupt::{dispatch, AbortChannel, InterruptServer, SrqStep};
use rustrument::protocols::onc_rpc::vxi11::link::{absorb, Link, LinkState, Reply};
use rustrument::protocols::onc_rpc::vxi11::{
    service_port, terminated, AddrFamily, DeviceFlags, Procedure, Vxi11Client, CHR, DEFAULT_DEVICE, DEVICE_ASYNC,
    DEVICE_CORE, DEVICE_INTR, END, END_SEEN, REQCNT, TERMCHRSET, WAITLOCK,
};

fn word(x: u32) -> [u8; 4] {
    x.to_be_bytes()
}

fn words(ws: &[u32]) -> Vec<u8> {
    ws.iter().flat_map(|w| word(*w)).collect()
}

fn opaque(data: &[u8]) -> Vec<u8> {
    let mut out = word(data.len() as u32).to_vec();
    out.extend_from_slice(data);
    while out.len() % 4 != 0 {
        out.push(0);
    }
    out
}

fn record(message: &[u8]) -> Vec<u8> {
    let mut out = word(0x8000_0000 | message.len() as u32).to_vec();
    out.extend_from_slice(message);
    out
}

fn field(bytes: &[u8], at: usize) -> u32 {
    u32::from_be_bytes([bytes[at], bytes[at + 1], bytes[at + 2], bytes[at + 3]])
}

fn success(xid: u32, results: &[u8]) -> Vec<u8> {
    let mut reply = words(&[xid, 1, 0, 0, 0, 0]);
    reply.extend_from_slice(results);
    record(&reply)
}

/// An instrument's core channel that lives in memory. It answers `*IDN?`.
struct FakeCore {
    max_recv_size: u32,
    error: u32,
    short_by: u32,
    procedures: Vec<u32>,
    writes: Vec<(Vec<u8>, u32)>,
    incoming: Vec<u8>,
    outgoing: Vec<u8>,
    handle: Vec<u8>,
}

impl FakeCore {
    fn new(max_recv_size: u32) -> FakeCore {
        FakeCore {
            max_recv_size,
            error: 0,
            short_by: 0,
            procedures: Vec::new(),
            writes: Vec::new(),
            incoming: Vec::new(),
            outgoing: Vec::new(),
            handle: Vec::new(),
        }
    }

    fn handle(&mut self, stream: &[u8]) -> Vec<u8> {
        assert_eq!(field(stream, 0), 0x8000_0000 | (stream.len() as u32 - 4));
        let call = &stream[4..];
        assert_eq!(&call[4..20], &words(&[0, 2, DEVICE_CORE, 1])[..]);
        assert_eq!(&call[24..40], &[0u8; 16]);
        let xid = field(call, 0);
        let procedure = field(call, 20);
        let args = &call[40..];
        self.procedures.push(procedure);
        if self.error != 0 {
            return success(xid, &words(&[self.error, 0, 0, 0]));
        }
        match procedure {
            10 => success(xid, &words(&[0, 7, 1025, self.max_recv_size])),
            11 => {
                let len = field(args, 16) as usize;
                let data = args[20..20 + len].to_vec();
                let flags = field(args, 12);
                self.incoming.extend_from_slice(&data);
                self.writes.push((data, flags));
                if flags & 0x08 != 0 {
                    if self.incoming == b"*IDN?\n" {
                        self.outgoing = b"ACME,FAKE,0,1.0\n".to_vec();
                    }
                    self.incoming.clear();
                }
                success(xid, &words(&[0, len as u32 - self.short_by]))
            }
            12 => {
                let request = field(args, 4) as usize;
                let flags = field(args, 16);
                let term = field(args, 20) as u8;
                let mut take = request.min(self.outgoing.len());
                let mut reason = 0;
                if flags & 0x80 != 0 {
                    if let Some(at) = self.outgoing[..take].iter().position(|b| *b == term) {
                        take = at + 1;
                        reason |= 2;
                    }
                }
                if take == request {
                    reason |= 1;
                }
                let data: Vec<u8> = self.outgoing.drain(..take).collect();
                if self.outgoing.is_empty() && reason & 2 == 0 {
                    reason |= 4;
                }
                let mut results = words(&[0, reason]);
                results.extend_from_slice(&opaque(&data));
                success(xid, &results)
            }
            13 => success(xid, &words(&[0, 0x50])),
            20 => {
                let len = field(args, 8) as usize;
                self.handle = args[12..12 + len].to_vec();
                success(xid, &words(&[0]))
            }
            _ => success(xid, &words(&[0])),
        }
    }
}

fn exchange(link: &mut Link, core: &mut FakeCore, sent: Result<Vec<u8>, Error>) -> Result<Reply, Error> {
    let reply = core.handle(&sent?);
    match link.reply(Event::Message(reply)) {
        Step::Done(outcome) => outcome,
        Step::Again => panic!("a whole reply settles the call"),
    }
}

fn open_link(core: &mut FakeCore, xid: u32) -> Link {
    let mut link = Vxi11Client::default().connect(xid);
    let sent = link.create_link(DEFAULT_DEVICE);
    assert_eq!(exchange(&mut link, core, sent), Ok(Reply::Linked));
    link
}

fn write_all(link: &mut Link, core: &mut FakeCore, data: &[u8]) -> Result<usize, Error> {
    let mut sent = 0;
    loop {
        let call = link.device_write(&data[sent..], None);
        match exchange(link, core, call)? {
            Reply::Written(n) => sent += n as usize,
            other => panic!("a write answers with a count, not {:?}", other),
        }
        if sent == data.len() {
            return Ok(sent);
        }
    }
}

fn read_until(link: &mut Link, core: &mut FakeCore, terminator: u8, request: u32, cap: usize) -> Result<Vec<u8>, Error> {
    let mut response = Vec::new();
    loop {
        let call = link.read_until(terminator, request);
        match exchange(link, core, call)? {
            Reply::Data { reason, data } => match absorb(&mut response, cap, reason, &data) {
                Step::Again => {}
                Step::Done(outcome) => return outcome.map(|()| response),
            },
            other => panic!("a read answers with data, not {:?}", other),
        }
    }
}

#[test]
fn program_and_procedure_numbers() {
    assert_eq!((DEVICE_CORE, DEVICE_ASYNC, DEVICE_INTR), (395183, 395184, 395185));
    let numbers: Vec<u32> = [
        Procedure::CreateLink,
        Procedure::DeviceWrite,
        Procedure::DeviceRead,
        Procedure::DeviceReadStb,
        Procedure::DeviceTrigger,
        Procedure::DeviceClear,
        Procedure::DeviceRemote,
        Procedure::DeviceLocal,
        Procedure::DeviceLock,
        Procedure::DeviceUnlock,
        Procedure::DeviceEnableSrq,
        Procedure::DeviceDocmd,
        Procedure::DestroyLink,
        Procedure::CreateIntrChan,
        Procedure::DestroyIntrChan,
    ]
    .iter()
    .map(|p| p.number())
    .collect();
    assert_eq!(numbers, vec![10, 11, 12, 13, 14, 15, 16, 17, 18, 19, 20, 22, 23, 25, 26]);
}

#[test]
fn default_settings() {
    let settings = Vxi11Client::default();
    assert_eq!(settings.connect_timeout, 1000);
    assert_eq!(settings.io_timeout, 1000);
    assert_eq!(settings.lock_timeout, 0);
    assert!(!settings.lock);
    assert_eq!(settings.flags, DeviceFlags::new_zero());
    assert_eq!(settings.max_recv_size_override, None);
    assert_eq!(settings.srq_program_vers, 1);
}

#[test]
fn flag_bits() {
    assert_eq!((WAITLOCK, END, TERMCHRSET), (0x01, 0x08, 0x80));
    assert_eq!(DeviceFlags::new_zero().bits(), 0);
    assert_eq!(DeviceFlags { waitlock: true, end: false, termchrset: false }.bits(), 0x01);
    assert_eq!(DeviceFlags { waitlock: false, end: true, termchrset: false }.bits(), 0x08);
    assert_eq!(DeviceFlags { waitlock: false, end: false, termchrset: true }.bits(), 0x80);
    assert_eq!(DeviceFlags { waitlock: true, end: true, termchrset: true }.bits(), 0x89);
    assert_eq!(DeviceFlags::new_zero().with_end(true).bits(), 0x08);
    assert_eq!(DeviceFlags { waitlock: true, end: true, termchrset: false }.with_end(false).bits(), 0x01);
}

#[test]
fn read_reasons() {
    assert_eq!((REQCNT, CHR, END_SEEN), (1, 2, 4));
    assert!(!terminated(0));
    assert!(!terminated(REQCNT));
    assert!(terminated(CHR));
    assert!(terminated(END_SEEN));
    assert!(terminated(REQCNT | CHR));
    assert!(terminated(7));
    assert!(!terminated(8));
}

#[test]
fn device_error_codes() {
    assert_eq!(device_result(0), Ok(()));
    let table = [
        (1, DeviceFault::SyntaxError),
        (3, DeviceFault::DeviceNotAccessible),
        (4, DeviceFault::InvalidLink),
        (5, DeviceFault::ParameterError),
        (6, DeviceFault::ChannelNotEstablished),
        (8, DeviceFault::OperationNotSupported),
        (9, DeviceFault::OutOfResources),
        (11, DeviceFault::DeviceLocked),
        (12, DeviceFault::NoLock),
        (15, DeviceFault::IoTimeout),
        (17, DeviceFault::IoError),
        (23, DeviceFault::Abort),
        (29, DeviceFault::ChannelAlreadyEstablished),
        (2, DeviceFault::Unassigned),
        (-1, DeviceFault::Unassigned),
    ];
    for (code, description) in table {
        assert_eq!(device_fault(code), description);
        assert_eq!(device_result(code), Err(Error::Device { code, description }));
    }
    assert_eq!(DeviceFault::InvalidLink.describe(), "invalid link identifier");
    assert_eq!(DeviceFault::IoTimeout.describe(), "I/O timeout");
}

#[test]
fn port_of_the_core_service() {
    assert_eq!(service_port(9100), Ok(9100));
    assert_eq!(service_port(65535), Ok(65535));
    assert_eq!(service_port(0), Err(Error::RpcError { stat: AcceptError::ProgUnavail }));
    assert_eq!(service_port(65536), Err(Error::Malformed));
}

#[test]
fn create_link_call_and_reply() {
    let mut link = Vxi11Client::default().connect(0x100);
    assert_eq!(link.state(), LinkState::Connected);
    let sent = link.create_link("inst0").expect("a connected link creates");
    let mut expected = words(&[0x100, 0, 2, 395183, 1, 10, 0, 0, 0, 0, 0, 0, 0]);
    expected.extend_from_slice(&opaque(b"inst0"));
    assert_eq!(sent, record(&expected));
    let reply = success(0x100, &words(&[0, 7, 1025, 4096]));
    assert_eq!(link.reply(Event::Message(reply)), Step::Done(Ok(Reply::Linked)));
    assert_eq!(link.state(), LinkState::Open);
    assert_eq!(link.lid(), 7);
    assert_eq!(link.abort_port(), 1025);
    assert_eq!(link.max_recv_size(), 4096);
}

#[test]
fn create_link_with_settings() {
    let settings = Vxi11Client {
        client_id: -3,
        lock: true,
        lock_timeout: 250,
        max_recv_size_override: Some(16),
        ..Vxi11Client::default()
    };
    let mut link = settings.connect(1);
    let sent = link.create_link("gpib0,5").expect("creates");
    assert_eq!(&sent[44..56], &[0xff, 0xff, 0xff, 0xfd, 0, 0, 0, 1, 0, 0, 0, 250]);
    assert_eq!(&sent[56..], &opaque(b"gpib0,5")[..]);
    let reply = success(1, &words(&[0, 2, 600, 4096]));
    assert_eq!(link.reply(Event::Message(reply)), Step::Done(Ok(Reply::Linked)));
    assert_eq!(link.max_recv_size(), 16);
}

#[test]
fn create_link_refused_by_the_instrument() {
    let mut link = Vxi11Client::default().connect(1);
    link.create_link("inst0").expect("creates");
    let reply = success(1, &words(&[9, 0, 0, 0]));
    assert_eq!(
        link.reply(Event::Message(reply)),
        Step::Done(Err(Error::Device { code: 9, description: DeviceFault::OutOfResources }))
    );
    assert_eq!(link.state(), LinkState::Connected);
    assert_eq!(link.device_readstb(None), Err(Error::ChannelClosed));
}

#[test]
fn identification_query() {
    let mut core = FakeCore::new(4096);
    let mut link = open_link(&mut core, 1);
    assert_eq!(write_all(&mut link, &mut core, b"*IDN?\n"), Ok(6));
    let flags = DeviceFlags { termchrset: true, ..DeviceFlags::new_zero() };
    let call = link.device_read(4096, Some(flags), b'\n');
    assert_eq!(
        exchange(&mut link, &mut core, call),
        Ok(Reply::Data { reason: CHR, data: b"ACME,FAKE,0,1.0\n".to_vec() })
    );
    assert_eq!(write_all(&mut link, &mut core, b"*IDN?\n"), Ok(6));
    assert_eq!(read_until(&mut link, &mut core, b'\n', 4096, 1024), Ok(b"ACME,FAKE,0,1.0\n".to_vec()));
    assert_eq!(core.procedures, vec![10, 11, 12, 11, 12]);
}

#[test]
fn response_is_gathered_from_chunks() {
    let mut core = FakeCore::new(4096);
    let mut link = open_link(&mut core, 1);
    assert_eq!(write_all(&mut link, &mut core, b"*IDN?\n"), Ok(6));
    assert_eq!(read_until(&mut link, &mut core, b'\n', 5, 1024), Ok(b"ACME,FAKE,0,1.0\n".to_vec()));
    assert_eq!(core.procedures, vec![10, 11, 12, 12, 12, 12]);
}

#[test]
fn response_over_the_cap_is_malformed() {
    let mut core = FakeCore::new(4096);
    let mut link = open_link(&mut core, 1);
    assert_eq!(write_all(&mut link, &mut core, b"*IDN?\n"), Ok(6));
    assert_eq!(read_until(&mut link, &mut core, b'\n', 5, 12), Err(Error::Malformed));
}

#[test]
fn gathering_chunks() {
    let mut response = b"ab".to_vec();
    assert_eq!(absorb(&mut response, 4, REQCNT, b"cd"), Step::Again);
    assert_eq!(response, b"abcd");
    assert_eq!(absorb(&mut response, 4, REQCNT, b"e"), Step::Done(Err(Error::Malformed)));
    assert_eq!(response, b"abcd");
    assert_eq!(absorb(&mut response, 4, END_SEEN, b"ef"), Step::Done(Ok(())));
    assert_eq!(response, b"abcdef");
    let mut response = Vec::new();
    assert_eq!(absorb(&mut response, 0, CHR, b"x\n"), Step::Done(Ok(())));
    assert_eq!(response, b"x\n");
    assert_eq!(absorb(&mut response, usize::MAX, 0, b""), Step::Again);
}

#[test]
fn chunked_write() {
    let mut core = FakeCore::new(8);
    let mut link = open_link(&mut core, 0x20);
    let first = link.device_write(b"0123456789ABCDEF", None).expect("an open link writes");
    let mut expected = words(&[0x21, 0, 2, 395183, 1, 11, 0, 0, 0, 0, 7, 1000, 0, 0x00]);
    expected.extend_from_slice(&opaque(b"01234567"));
    assert_eq!(first, record(&expected));
    assert_eq!(exchange(&mut link, &mut core, Ok(first)), Ok(Reply::Written(8)));
    let second = link.device_write(b"89ABCDEF", None).expect("an open link writes");
    let mut expected = words(&[0x22, 0, 2, 395183, 1, 11, 0, 0, 0, 0, 7, 1000, 0, 0x08]);
    expected.extend_from_slice(&opaque(b"89ABCDEF"));
    assert_eq!(second, record(&expected));
    assert_eq!(exchange(&mut link, &mut core, Ok(second)), Ok(Reply::Written(8)));
    assert_eq!(core.writes, vec![(b"01234567".to_vec(), 0), (b"89ABCDEF".to_vec(), 0x08)]);
}

#[test]
fn chunked_write_counts_and_flags() {
    for (len, max, calls) in [(1usize, 8u32, 1usize), (8, 8, 1), (9, 8, 2), (16, 8, 2), (17, 8, 3), (100, 7, 15), (5, 0, 5)] {
        let data: Vec<u8> = (0..len).map(|i| i as u8).collect();
        let mut core = FakeCore::new(max);
        let mut link = open_link(&mut core, 1);
        assert_eq!(write_all(&mut link, &mut core, &data), Ok(len));
        assert_eq!(core.writes.len(), calls);
        let joined: Vec<u8> = core.writes.iter().flat_map(|(payload, _)| payload.clone()).collect();
        assert_eq!(joined, data);
        for (i, (payload, flags)) in core.writes.iter().enumerate() {
            assert!(payload.len() <= max.max(1) as usize);
            assert_eq!(flags & 0x08 != 0, i == calls - 1);
        }
    }
}

#[test]
fn write_flags_are_the_callers_but_for_end() {
    let mut core = FakeCore::new(4);
    let mut link = open_link(&mut core, 1);
    let flags = DeviceFlags { waitlock: true, end: true, termchrset: false };
    let call = link.device_write(b"abcdef", Some(flags));
    assert_eq!(exchange(&mut link, &mut core, call), Ok(Reply::Written(4)));
    let call = link.device_write(b"ef", Some(flags));
    assert_eq!(exchange(&mut link, &mut core, call), Ok(Reply::Written(2)));
    assert_eq!(core.writes, vec![(b"abcd".to_vec(), 0x01), (b"ef".to_vec(), 0x09)]);
}

#[test]
fn partial_write_is_an_io_error() {
    let mut core = FakeCore::new(8);
    let mut link = open_link(&mut core, 1);
    core.short_by = 3;
    let call = link.device_write(b"0123456789", None);
    assert_eq!(
        exchange(&mut link, &mut core, call),
        Err(Error::Io { source: IoSource::PartialWrite { written: 5, expected: 8 } })
    );
    assert_eq!(link.state(), LinkState::Open);
}

#[test]
fn status_byte_and_plain_operations() {
    let mut core = FakeCore::new(64);
    let mut link = open_link(&mut core, 1);
    let call = link.device_readstb(None);
    assert_eq!(exchange(&mut link, &mut core, call), Ok(Reply::Status(0x50)));
    let call = link.device_trigger(None);
    assert_eq!(exchange(&mut link, &mut core, call), Ok(Reply::Done));
    let call = link.device_clear(None);
    assert_eq!(exchange(&mut link, &mut core, call), Ok(Reply::Done));
    let call = link.device_remote(None);
    assert_eq!(exchange(&mut link, &mut core, call), Ok(Reply::Done));
    let call = link.device_local(None);
    assert_eq!(exchange(&mut link, &mut core, call), Ok(Reply::Done));
    let call = link.device_lock(Some(DeviceFlags { waitlock: true, ..DeviceFlags::new_zero() }));
    assert_eq!(exchange(&mut link, &mut core, call), Ok(Reply::Done));
    let call = link.device_unlock();
    assert_eq!(exchange(&mut link, &mut core, call), Ok(Reply::Done));
    assert_eq!(core.procedures, vec![10, 13, 14, 15, 16, 17, 18, 19]);
}

#[test]
fn generic_arguments_layout() {
    let settings = Vxi11Client { io_timeout: 2000, lock_timeout: 30, ..Vxi11Client::default() };
    let mut link = settings.connect(1);
    link.create_link("inst0").expect("creates");
    assert_eq!(link.reply(Event::Message(success(1, &words(&[0, 5, 1, 64])))), Step::Done(Ok(Reply::Linked)));
    let sent = link.device_readstb(Some(DeviceFlags { waitlock: true, ..DeviceFlags::new_zero() })).expect("reads");
    assert_eq!(&sent[24..28], &word(13));
    assert_eq!(&sent[44..], &words(&[5, 1, 30, 2000])[..]);
    link.reply(Event::Timeout);
    let sent = link.device_lock(None).expect("locks");
    assert_eq!(&sent[44..], &words(&[5, 0, 30])[..]);
    link.reply(Event::Timeout);
    let sent = link.device_read(256, None, b'\n').expect("reads");
    assert_eq!(&sent[44..], &words(&[5, 256, 2000, 30, 0, 10])[..]);
    link.reply(Event::Timeout);
    let sent = link.read_until(b']', 64).expect("reads");
    assert_eq!(&sent[44..], &words(&[5, 64, 2000, 30, 0x80, 93])[..]);
    link.reply(Event::Timeout);
    let sent = link.device_unlock().expect("unlocks");
    assert_eq!(&sent[44..], &words(&[5])[..]);
}

#[test]
fn device_error_is_passed_on() {
    let mut core = FakeCore::new(64);
    let mut link = open_link(&mut core, 1);
    core.error = 11;
    let call = link.device_write(b"x", None);
    assert_eq!(
        exchange(&mut link, &mut core, call),
        Err(Error::Device { code: 11, description: DeviceFault::DeviceLocked })
    );
    assert_eq!(link.state(), LinkState::Open);
    core.error = 0;
    let call = link.device_write(b"x", None);
    assert_eq!(exchange(&mut link, &mut core, call), Ok(Reply::Written(1)));
}

#[test]
fn invalid_link_error_poisons_the_link() {
    let mut core = FakeCore::new(64);
    let mut link = open_link(&mut core, 1);
    core.error = 4;
    let call = link.device_readstb(None);
    assert_eq!(
        exchange(&mut link, &mut core, call),
        Err(Error::Device { code: 4, description: DeviceFault::InvalidLink })
    );
    assert_eq!(link.state(), LinkState::Closed);
    assert_eq!(link.device_readstb(None), Err(Error::ChannelClosed));
}

#[test]
fn destroyed_link_refuses_everything() {
    let mut core = FakeCore::new(64);
    let mut link = open_link(&mut core, 1);
    let call = link.destroy_link();
    assert_eq!(exchange(&mut link, &mut core, call), Ok(Reply::Done));
    assert_eq!(link.state(), LinkState::Closed);
    let calls_before = core.procedures.len();
    assert_eq!(link.create_link("inst0"), Err(Error::ChannelClosed));
    assert_eq!(link.device_write(b"x", None), Err(Error::ChannelClosed));
    assert_eq!(link.device_read(1, None, 0), Err(Error::ChannelClosed));
    assert_eq!(link.read_until(b'\n', 1), Err(Error::ChannelClosed));
    assert_eq!(link.device_readstb(None), Err(Error::ChannelClosed));
    assert_eq!(link.device_trigger(None), Err(Error::ChannelClosed));
    assert_eq!(link.device_clear(None), Err(Error::ChannelClosed));
    assert_eq!(link.device_remote(None), Err(Error::ChannelClosed));
    assert_eq!(link.device_local(None), Err(Error::ChannelClosed));
    assert_eq!(link.device_lock(None), Err(Error::ChannelClosed));
    assert_eq!(link.device_unlock(), Err(Error::ChannelClosed));
    assert_eq!(link.device_enable_srq(true, b"h"), Err(Error::ChannelClosed));
    assert_eq!(link.create_intr_chan(1, 1), Err(Error::ChannelClosed));
    assert_eq!(link.destroy_intr_chan(), Err(Error::ChannelClosed));
    assert_eq!(link.destroy_link(), Err(Error::ChannelClosed));
    assert_eq!(link.reply(Event::Message(vec![1, 2, 3])), Step::Done(Err(Error::ChannelClosed)));
    assert_eq!(link.reply(Event::Timeout), Step::Done(Err(Error::ChannelClosed)));
    assert_eq!(core.procedures.len(), calls_before);
}

#[test]
fn closing_channel_closes_the_link() {
    let mut core = FakeCore::new(64);
    let mut link = open_link(&mut core, 1);
    link.device_readstb(None).expect("reads");
    assert_eq!(link.reply(Event::Closed), Step::Done(Err(Error::ChannelClosed)));
    assert_eq!(link.state(), LinkState::Closed);
    assert_eq!(link.device_readstb(None), Err(Error::ChannelClosed));
}

#[test]
fn timeout_leaves_the_link_open() {
    let mut core = FakeCore::new(64);
    let mut link = open_link(&mut core, 1);
    link.device_readstb(None).expect("reads");
    assert_eq!(link.reply(Event::Timeout), Step::Done(Err(Error::Timeout)));
    assert_eq!(link.state(), LinkState::Open);
    let call = link.device_readstb(None);
    assert_eq!(exchange(&mut link, &mut core, call), Ok(Reply::Status(0x50)));
}

#[test]
fn late_reply_on_the_stream_is_a_framing_error() {
    let mut core = FakeCore::new(64);
    let mut link = open_link(&mut core, 1);
    let first = link.device_readstb(None).expect("reads");
    let late = core.handle(&first);
    assert_eq!(link.reply(Event::Timeout), Step::Done(Err(Error::Timeout)));
    link.device_readstb(None).expect("reads");
    assert_eq!(link.reply(Event::Message(late)), Step::Done(Err(Error::Framing)));
    assert_eq!(link.state(), LinkState::Closed);
}

#[test]
fn reply_in_pieces() {
    let mut core = FakeCore::new(64);
    let mut link = open_link(&mut core, 1);
    let sent = link.device_readstb(None).expect("reads");
    let reply = core.handle(&sent);
    assert_eq!(link.reply(Event::Message(reply[..9].to_vec())), Step::Again);
    assert_eq!(link.reply(Event::Message(reply[9..].to_vec())), Step::Done(Ok(Reply::Status(0x50))));
}

#[test]
fn malformed_results() {
    let mut core = FakeCore::new(64);
    let mut link = open_link(&mut core, 5);
    link.device_readstb(None).expect("reads");
    assert_eq!(link.reply(Event::Message(success(6, &words(&[0, 0x100])))), Step::Done(Err(Error::Malformed)));
    link.device_readstb(None).expect("reads");
    assert_eq!(link.reply(Event::Message(success(7, &words(&[0])))), Step::Done(Err(Error::Malformed)));
    link.device_write(b"abc", None).expect("writes");
    assert_eq!(link.reply(Event::Message(success(8, &words(&[0, 4])))), Step::Done(Err(Error::Malformed)));
    link.device_read(10, None, 0).expect("reads");
    assert_eq!(link.reply(Event::Message(success(9, &words(&[0, 4, 3, 0])[..14]))), Step::Done(Err(Error::Malformed)));
    assert_eq!(link.state(), LinkState::Open);
}

#[test]
fn srq_round_trip() {
    let mut core = FakeCore::new(64);
    let mut link = open_link(&mut core, 1);
    let sent = link.create_intr_chan(0x7f00_0001, 3480).expect("asks for the channel");
    assert_eq!(&sent[24..28], &word(25));
    assert_eq!(&sent[44..], &words(&[0x7f00_0001, 3480, 395185, 1, 0])[..]);
    assert_eq!(exchange(&mut link, &mut core, Ok(sent)), Ok(Reply::Done));
    let mut server = InterruptServer::new(1);
    assert!(!link.owns_handle(b"h\0"));
    let sent = link.device_enable_srq(true, b"h\0").expect("arms");
    assert_eq!(&sent[44..], &[0, 0, 0, 7, 0, 0, 0, 1, 0, 0, 0, 2, b'h', 0, 0, 0]);
    assert_eq!(exchange(&mut link, &mut core, Ok(sent)), Ok(Reply::Done));
    assert_eq!(core.handle, b"h\0");

    let mut call = words(&[99, 0, 2, 395185, 1, 30, 0, 0, 0, 0]);
    call.extend_from_slice(&opaque(&core.handle));
    let stream = record(&call);
    assert_eq!(server.on_bytes(&stream[..10]), SrqStep::Again);
    let step = server.on_bytes(&stream[10..]);
    assert_eq!(step, SrqStep::Srq { handle: b"h\0".to_vec(), reply: success(99, &[]) });
    if let SrqStep::Srq { handle, .. } = step {
        assert!(link.owns_handle(&handle));
        assert!(!link.owns_handle(b"h"));
    }

    let sent = link.device_enable_srq(false, b"");
    assert_eq!(exchange(&mut link, &mut core, sent), Ok(Reply::Done));
    assert!(!link.owns_handle(b"h\0"));
    let sent = link.destroy_intr_chan();
    assert_eq!(exchange(&mut link, &mut core, sent), Ok(Reply::Done));
    assert_eq!(core.procedures, vec![10, 25, 20, 20, 26]);
}

#[test]
fn srq_handle_is_at_most_forty_bytes() {
    let mut core = FakeCore::new(64);
    let mut link = open_link(&mut core, 1);
    assert_eq!(link.device_enable_srq(true, &[1u8; 41]), Err(Error::Malformed));
    let sent = link.device_enable_srq(true, &[1u8; 40]);
    assert_eq!(exchange(&mut link, &mut core, sent), Ok(Reply::Done));
    assert!(link.owns_handle(&[1u8; 40]));
}

#[test]
fn second_interrupt_channel_needs_teardown() {
    let mut core = FakeCore::new(64);
    let mut link = open_link(&mut core, 1);
    let sent = link.create_intr_chan(0x7f00_0001, 3480);
    assert_eq!(exchange(&mut link, &mut core, sent), Ok(Reply::Done));
    assert_eq!(
        link.create_intr_chan(0x7f00_0001, 3481),
        Err(Error::Device { code: 29, description: DeviceFault::ChannelAlreadyEstablished })
    );
    let sent = link.destroy_intr_chan();
    assert_eq!(exchange(&mut link, &mut core, sent), Ok(Reply::Done));
    let sent = link.create_intr_chan(0x7f00_0001, 3481);
    assert_eq!(exchange(&mut link, &mut core, sent), Ok(Reply::Done));
}

#[test]
fn interrupt_server_refuses_other_calls() {
    let refused = |stat: &[u32]| {
        let mut reply = words(&[5, 1, 0, 0, 0]);
        reply.extend_from_slice(&words(stat));
        SrqStep::Refused { reply: record(&reply) }
    };
    let call = |prog: u32, vers: u32, proc: u32, args: &[u8]| {
        let mut call = words(&[5, 0, 2, prog, vers, proc, 0, 0, 0, 0]);
        call.extend_from_slice(args);
        call
    };
    assert_eq!(dispatch(1, &call(395183, 1, 30, &opaque(b"h"))), refused(&[1]));
    assert_eq!(dispatch(1, &call(395185, 2, 30, &opaque(b"h"))), refused(&[2, 1, 1]));
    assert_eq!(dispatch(1, &call(395185, 1, 31, &opaque(b"h"))), refused(&[3]));
    assert_eq!(dispatch(1, &call(395185, 1, 30, &[0, 0, 0, 9, 1])), refused(&[4]));
    assert_eq!(dispatch(1, &words(&[5, 1, 0, 0, 0, 0])), SrqStep::Broken(Error::Malformed));
    assert_eq!(
        dispatch(1, &call(395185, 1, 30, &opaque(b"h"))),
        SrqStep::Srq { handle: b"h".to_vec(), reply: success(5, &[]) }
    );
}

#[test]
fn interrupt_server_takes_calls_in_order() {
    let mut server = InterruptServer::new(1);
    let mut stream = Vec::new();
    for (xid, handle) in [(1u32, &b"a"[..]), (2, &b"bb"[..])] {
        let mut call = words(&[xid, 0, 2, 395185, 1, 30, 0, 0, 0, 0]);
        call.extend_from_slice(&opaque(handle));
        stream.extend_from_slice(&record(&call));
    }
    assert_eq!(server.on_bytes(&stream), SrqStep::Srq { handle: b"a".to_vec(), reply: success(1, &[]) });
    assert_eq!(server.on_bytes(&[]), SrqStep::Srq { handle: b"bb".to_vec(), reply: success(2, &[]) });
    assert_eq!(server.on_bytes(&[]), SrqStep::Again);
    assert_eq!(server.on_bytes(&[0x00, 0x20, 0x00, 0x00]), SrqStep::Broken(Error::Framing));
}

#[test]
fn abort_channel() {
    let mut abort = AbortChannel::new(0x55);
    let sent = abort.device_abort(7).expect("aborts");
    assert_eq!(sent, record(&words(&[0x55, 0, 2, 395184, 1, 1, 0, 0, 0, 0, 7])));
    assert_eq!(abort.reply(Event::Message(success(0x55, &words(&[0])))), Step::Done(Ok(())));
    abort.device_abort(7).expect("aborts");
    assert_eq!(
        abort.reply(Event::Message(success(0x56, &words(&[4])))),
        Step::Done(Err(Error::Device { code: 4, description: DeviceFault::InvalidLink }))
    );
    abort.device_abort(-1).expect("aborts");
    assert_eq!(abort.reply(Event::Message(success(0x57, &[0, 0]))), Step::Done(Err(Error::Malformed)));
    abort.device_abort(7).expect("aborts");
    assert_eq!(abort.reply(Event::Closed), Step::Done(Err(Error::ChannelClosed)));
    assert_eq!(abort.device_abort(7), Err(Error::ChannelClosed));
}

#[test]
fn address_family_is_an_enumeration() {
    let mut out = Vec::new();
    assert_eq!(AddrFamily::Tcp.encode(&mut out), Ok(()));
    assert_eq!(AddrFamily::Udp.encode(&mut out), Ok(()));
    assert_eq!(out, vec![0, 0, 0, 0, 0, 0, 0, 1]);
    assert_eq!(AddrFamily::decode(&out, 0), Ok((AddrFamily::Tcp, 4)));
    assert_eq!(AddrFamily::decode(&out, 4), Ok((AddrFamily::Udp, 8)));
    assert_eq!(AddrFamily::decode(&[0, 0, 0, 2], 0), Err(Error::Malformed));
    assert_eq!(AddrFamily::decode(&[0xff, 0xff, 0xff, 0xff], 0), Err(Error::Malformed));
    assert_eq!(AddrFamily::decode(&[0, 0, 0], 0), Err(Error::Malformed));
}
