use std::cell::RefCell;

use can_socket::{
    received_frame, Baudrate, Bus, CanError, CanFdFrame, CanFdMsg, CanFrame, CanMsg, CanSocket,
    HasRecvCan, HasRecvCanFd, HasSendCan, HasSendCanFd, MessageType, RecvCan, RecvCanFd, SendCan,
    SendCanFd, Socket, Timestamp,
};

/// A stand-in for the driver: answers every call with `code` and records what it was handed.
struct MockTransport {
    handle: u16,
    code: u32,
    incoming: CanMsg,
    incoming_fd: CanFdMsg,
    written: RefCell<Vec<CanMsg>>,
    written_fd: RefCell<Vec<CanFdMsg>>,
    handles_seen: RefCell<Vec<u16>>,
}

impl MockTransport {
    fn new(code: u32) -> MockTransport {
        MockTransport {
            handle: 0x51,
            code,
            incoming: CanMsg { id: 0x321, msg_type: 0x02, len: 3, data: [4, 5, 6, 0, 0, 0, 0, 0] },
            incoming_fd: CanFdMsg { id: 0x12, msg_type: 0x04, dlc: 9, data: [8; 64] },
            written: RefCell::new(Vec::new()),
            written_fd: RefCell::new(Vec::new()),
            handles_seen: RefCell::new(Vec::new()),
        }
    }
}

impl Socket for MockTransport {
    fn handle(&self) -> u16 {
        self.handle
    }
}

impl HasRecvCan for MockTransport {
    fn read(&self, handle: u16, msg: &mut CanMsg, timestamp: Option<&mut Timestamp>) -> u32 {
        self.handles_seen.borrow_mut().push(handle);
        *msg = self.incoming;
        if let Some(ts) = timestamp {
            *ts = Timestamp { millis: 1000, millis_overflow: 1, micros: 250 };
        }
        self.code
    }
}

impl HasRecvCanFd for MockTransport {
    fn read_fd(&self, handle: u16, msg: &mut CanFdMsg, timestamp: Option<&mut u64>) -> u32 {
        self.handles_seen.borrow_mut().push(handle);
        *msg = self.incoming_fd;
        if let Some(ts) = timestamp {
            *ts = 123_456;
        }
        self.code
    }
}

impl HasSendCan for MockTransport {
    fn write(&self, handle: u16, msg: &mut CanMsg) -> u32 {
        self.handles_seen.borrow_mut().push(handle);
        self.written.borrow_mut().push(*msg);
        self.code
    }
}

impl HasSendCanFd for MockTransport {
    fn write_fd(&self, handle: u16, msg: &mut CanFdMsg) -> u32 {
        self.handles_seen.borrow_mut().push(handle);
        self.written_fd.borrow_mut().push(*msg);
        self.code
    }
}

#[test]
fn send_standard_frame_end_to_end() {
    let transport = MockTransport::new(0);
    let frame = CanFrame::new(0x123, MessageType::Standard, &[0, 1, 2]).unwrap();
    assert_eq!(transport.send(frame), Ok(()));
    let written = transport.written.borrow();
    assert_eq!(written.len(), 1);
    assert_eq!(written[0].id, 0x123);
    assert_eq!(written[0].msg_type, 0x00);
    assert_eq!(written[0].len, 3);
    assert_eq!(written[0].data, [0, 1, 2, 0, 0, 0, 0, 0]);
    assert_eq!(*transport.handles_seen.borrow(), vec![0x51]);
}

#[test]
fn send_reports_driver_error() {
    let transport = MockTransport::new(0x00080);
    let frame = CanFrame::new(0x1, MessageType::Extended, &[]).unwrap();
    assert_eq!(transport.send(frame), Err(CanError::QXmtFull));
    let unknown = MockTransport::new(0x7);
    assert_eq!(unknown.send(frame), Err(CanError::Unknown));
}

#[test]
fn send_fd_hands_over_the_frame() {
    let transport = MockTransport::new(0);
    let frame = CanFdFrame::new(0x99, MessageType::Extended, &[1u8; 20], true, true).unwrap();
    assert_eq!(transport.send_fd(frame), Ok(()));
    let written = transport.written_fd.borrow();
    assert_eq!(written[0].id, 0x99);
    assert_eq!(written[0].dlc, 11);
    assert_eq!(written[0].msg_type, 0x02 | 0x04 | 0x08);
    let failing = MockTransport::new(0x00010);
    assert_eq!(failing.send_fd(frame), Err(CanError::BusOff));
}

#[test]
fn recv_returns_frame_and_timestamp() {
    let transport = MockTransport::new(0);
    let (frame, ts) = transport.recv().unwrap();
    assert_eq!(frame.can_id(), 0x321);
    assert!(frame.is_extended_frame());
    assert_eq!(frame.data(), &[4, 5, 6]);
    assert_eq!(ts, Timestamp { millis: 1000, millis_overflow: 1, micros: 250 });
    let only = transport.recv_frame().unwrap();
    assert_eq!(only, frame);
}

#[test]
fn recv_reports_driver_error() {
    let transport = MockTransport::new(0x00020);
    assert_eq!(transport.recv().unwrap_err(), CanError::QrcvEmpty);
    assert_eq!(transport.recv_frame().unwrap_err(), CanError::QrcvEmpty);
}

#[test]
fn recv_rejects_overlong_length_field() {
    let mut transport = MockTransport::new(0);
    transport.incoming.len = 12;
    assert_eq!(transport.recv_frame().unwrap_err(), CanError::IllData);
    let msg = CanMsg { id: 0, msg_type: 0, len: 9, data: [0; 8] };
    assert_eq!(received_frame(0, msg).unwrap_err(), CanError::IllData);
    assert_eq!(received_frame(0x00200, msg).unwrap_err(), CanError::NoDriver);
}

#[test]
fn recv_fd_returns_frame_and_timestamp() {
    let transport = MockTransport::new(0);
    let (frame, ts) = transport.recv_fd().unwrap();
    assert_eq!(ts, 123_456);
    assert_eq!(frame.can_id(), 0x12);
    assert!(frame.is_fd_frame());
    assert_eq!(frame.len(), 12);
    assert_eq!(frame.data(), &[8u8; 12]);
    assert_eq!(transport.recv_fd_frame().unwrap(), frame);
    let failing = MockTransport::new(0x01400);
    assert_eq!(failing.recv_fd().unwrap_err(), CanError::IllHw);
    assert_eq!(failing.recv_fd_frame().unwrap_err(), CanError::IllHw);
}

struct MockBus {
    channel: u16,
    code: u32,
    baud_seen: RefCell<Option<(u16, u16)>>,
}

impl Bus for MockBus {
    fn channel(&self) -> u16 {
        self.channel
    }

    fn initialize(&self, channel: u16, baud_code: u16) -> u32 {
        *self.baud_seen.borrow_mut() = Some((channel, baud_code));
        self.code
    }
}

#[test]
fn open_initialises_the_channel() {
    let bus = MockBus { channel: 0x51, code: 0, baud_seen: RefCell::new(None) };
    let socket = CanSocket::open(&bus, Baudrate::Baud500K).unwrap();
    assert_eq!(socket.handle(), 0x51);
    assert_eq!(*bus.baud_seen.borrow(), Some((0x51, 0x001C)));
    let busy = MockBus { channel: 0x52, code: 0x00400, baud_seen: RefCell::new(None) };
    assert_eq!(CanSocket::open(&busy, Baudrate::Baud1M).unwrap_err(), CanError::HwInUse);
    assert_eq!(CanSocket::opened(0x53, 0x5).unwrap_err(), CanError::Unknown);
    assert_eq!(CanSocket::opened(0x53, 0).unwrap().handle(), 0x53);
}

impl Bus for &MockBus {
    fn channel(&self) -> u16 {
        (**self).channel()
    }

    fn initialize(&self, channel: u16, baud_code: u16) -> u32 {
        (**self).initialize(channel, baud_code)
    }
}
