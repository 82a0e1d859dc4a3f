use vstd::prelude::*;

use crate::baudrate::Baudrate;
use crate::error::{spec_status_result, status_result, CanError};
use crate::fd_frame::{CanFdFrame, CanFdMsg};
use crate::frame::{CanFrame, CanMsg};

verus! {

/// Capture time of a received classical frame.
#[derive(Debug, PartialEq, Eq, Structural, Clone, Copy)]
pub struct Timestamp {
    pub millis: u32,
    pub millis_overflow: u16,
    pub micros: u16,
}

impl Default for Timestamp {
    fn default() -> (r: Timestamp)
        ensures
            r == (Timestamp { millis: 0, millis_overflow: 0, micros: 0 }),
    {
        Timestamp { millis: 0, millis_overflow: 0, micros: 0 }
    }
}

/// A hardware channel that can be opened: it names its channel and runs the
/// driver's initialisation, which answers with a native status code.
pub trait Bus {
    fn channel(&self) -> u16;

    fn initialize(&self, channel: u16, baud_code: u16) -> u32;
}

/// A transport known to the driver by a handle.
pub trait Socket {
    fn handle(&self) -> u16;
}

/// An opened channel.
#[derive(Debug, PartialEq, Eq, Structural)]
pub struct CanSocket {
    handle: u16,
}

impl CanSocket {
    pub closed spec fn spec_handle(&self) -> u16 {
        self.handle
    }

    /// Initialises `bus` at `baud` and opens a socket on its channel.
    pub fn open<T: Bus>(bus: T, baud: Baudrate) -> (r: Result<CanSocket, CanError>) {
        let handle = bus.channel();
        let code = bus.initialize(handle, u16::from(baud));
        Self::opened(handle, code)
    }

    /// The outcome of initialising channel `handle`, given the driver's status code.
    pub fn opened(handle: u16, code: u32) -> (r: Result<CanSocket, CanError>)
        ensures
            match spec_status_result(code) {
                Ok(()) => r matches Ok(s) && s.spec_handle() == handle,
                Err(e) => r == Err::<CanSocket, CanError>(e),
            },
    {
        match status_result(code) {
            Ok(()) => Ok(CanSocket { handle }),
            Err(e) => Err(e),
        }
    }
}

impl Socket for CanSocket {
    fn handle(&self) -> u16 {
        self.handle
    }
}

/// Declares that a transport receives classical frames, through the driver's read entry.
pub trait HasRecvCan: Socket {
    fn read(&self, handle: u16, msg: &mut CanMsg, timestamp: Option<&mut Timestamp>) -> u32;
}

/// Declares that a transport receives FD frames, through the driver's FD read entry.
pub trait HasRecvCanFd: Socket {
    fn read_fd(&self, handle: u16, msg: &mut CanFdMsg, timestamp: Option<&mut u64>) -> u32;
}

/// Declares that a transport sends classical frames, through the driver's write entry.
pub trait HasSendCan: Socket {
    fn write(&self, handle: u16, msg: &mut CanMsg) -> u32;
}

/// Declares that a transport sends FD frames, through the driver's FD write entry.
pub trait HasSendCanFd: Socket {
    fn write_fd(&self, handle: u16, msg: &mut CanFdMsg) -> u32;
}

/// Receiving classical frames, provided for every transport that declares `HasRecvCan`.
pub trait RecvCan {
    fn recv(&self) -> Result<(CanFrame, Timestamp), CanError>;

    fn recv_frame(&self) -> Result<CanFrame, CanError>;
}

/// Receiving FD frames, provided for every transport that declares `HasRecvCanFd`.
pub trait RecvCanFd {
    fn recv_fd(&self) -> Result<(CanFdFrame, u64), CanError>;

    fn recv_fd_frame(&self) -> Result<CanFdFrame, CanError>;
}

/// Sending classical frames, provided for every transport that declares `HasSendCan`.
pub trait SendCan {
    fn send(&self, frame: CanFrame) -> Result<(), CanError>;
}

/// Sending FD frames, provided for every transport that declares `HasSendCanFd`.
pub trait SendCanFd {
    fn send_fd(&self, frame: CanFdFrame) -> Result<(), CanError>;
}

/// The frame a classical read produced, given its status code and the buffer
/// it filled. A buffer whose length field exceeds eight bytes is reported as
/// `CanError::IllData`.
pub fn received_frame(code: u32, msg: CanMsg) -> (r: Result<CanFrame, CanError>)
    ensures
        match spec_status_result(code) {
            Ok(()) => match r {
                Ok(f) => {
                    &&& msg.len <= 8
                    &&& f.spec_id() == msg.id
                    &&& f.spec_msg_type() == msg.msg_type
                    &&& f.spec_len() == msg.len
                    &&& f.spec_buffer() == msg.data@
                },
                Err(e) => msg.len > 8 && e == CanError::IllData,
            },
            Err(e) => r == Err::<CanFrame, CanError>(e),
        },
{
    match status_result(code) {
        Ok(()) => match CanFrame::from_msg(msg) {
            Some(frame) => Ok(frame),
            None => Err(CanError::IllData),
        },
        Err(e) => Err(e),
    }
}

/// The frame an FD read produced, given its status code and the buffer it filled.
pub fn received_fd_frame(code: u32, msg: CanFdMsg) -> (r: Result<CanFdFrame, CanError>)
    ensures
        match spec_status_result(code) {
            Ok(()) => match r {
                Ok(f) => {
                    &&& f.spec_id() == msg.id
                    &&& f.spec_msg_type() == msg.msg_type
                    &&& f.spec_dlc() == msg.dlc
                    &&& f.spec_buffer() == msg.data@
                },
                Err(_) => false,
            },
            Err(e) => r == Err::<CanFdFrame, CanError>(e),
        },
{
    match status_result(code) {
        Ok(()) => Ok(CanFdFrame::from_msg(msg)),
        Err(e) => Err(e),
    }
}

impl<T: HasRecvCan> RecvCan for T {
    fn recv(&self) -> Result<(CanFrame, Timestamp), CanError> {
        let mut msg = CanFrame::default().msg();
        let mut timestamp = Timestamp::default();
        let code = self.read(self.handle(), &mut msg, Some(&mut timestamp));
        match received_frame(code, msg) {
            Ok(frame) => Ok((frame, timestamp)),
            Err(e) => Err(e),
        }
    }

    fn recv_frame(&self) -> Result<CanFrame, CanError> {
        let mut msg = CanFrame::default().msg();
        let code = self.read(self.handle(), &mut msg, None);
        received_frame(code, msg)
    }
}

impl<T: HasRecvCanFd> RecvCanFd for T {
    fn recv_fd(&self) -> Result<(CanFdFrame, u64), CanError> {
        let mut msg = CanFdFrame::default().msg();
        let mut timestamp: u64 = 0;
        let code = self.read_fd(self.handle(), &mut msg, Some(&mut timestamp));
        match received_fd_frame(code, msg) {
            Ok(frame) => Ok((frame, timestamp)),
            Err(e) => Err(e),
        }
    }

    fn recv_fd_frame(&self) -> Result<CanFdFrame, CanError> {
        let mut msg = CanFdFrame::default().msg();
        let code = self.read_fd(self.handle(), &mut msg, None);
        received_fd_frame(code, msg)
    }
}

impl<T: HasSendCan> SendCan for T {
    fn send(&self, frame: CanFrame) -> Result<(), CanError> {
        let mut msg = frame.msg();
        let code = self.write(self.handle(), &mut msg);
        status_result(code)
    }
}

impl<T: HasSendCanFd> SendCanFd for T {
    fn send_fd(&self, frame: CanFdFrame) -> Result<(), CanError> {
        let mut msg = frame.msg();
        let code = self.write_fd(self.handle(), &mut msg);
        status_result(code)
    }
}

} // verus!
