//! CAN and CAN-FD frame model, bit-timing validation, native status mapping
//! and capability-based send/receive over transports.

pub mod baudrate;
pub mod error;
pub mod fd_frame;
pub mod frame;
pub mod socket;
pub mod timing;

pub use baudrate::Baudrate;
pub use error::{status_result, CanError, CanStatus};
pub use fd_frame::{CanFdFrame, CanFdMsg};
pub use frame::{CanFrame, CanMsg, FrameConstructionError, MessageType, EXTENDED_MASK, STANDARD_MASK};
pub use socket::{
    received_fd_frame, received_frame, Bus, CanSocket, HasRecvCan, HasRecvCanFd, HasSendCan,
    HasSendCanFd, RecvCan, RecvCanFd, SendCan, SendCanFd, Socket, Timestamp,
};
pub use timing::{
    can_timing_boundaries, canfd_timing_boundaries, CanBitTiming, CanFdBitTiming,
    FdTimingBoundaries, TimingBoundaries, TimingError,
};
