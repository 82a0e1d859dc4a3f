use vstd::prelude::*;
use vstd::std_specs::cmp::PartialEqSpec;

use crate::frame::{
    id_mask, prefix_equal, type_flag, zero_padded, MessageType, FrameConstructionError,
    EXTENDED_MASK, MESSAGE_BRS, MESSAGE_ECHO, MESSAGE_ERRFRAME, MESSAGE_EXTENDED, MESSAGE_FD,
    MESSAGE_STANDARD, STANDARD_MASK,
};

verus! {

/// Size of the data buffer of an FD frame, the largest payload it carries.
pub const MAX_FD_DATA_LENGTH: usize = 64;

/// The data-length code of a payload length: lengths round up to the next
/// representable one; anything beyond 64 gets the largest code.
pub open spec fn dlc_of_len(len: int) -> u8 {
    if len <= 8 {
        len as u8
    } else if len <= 12 {
        9
    } else if len <= 16 {
        10
    } else if len <= 20 {
        11
    } else if len <= 24 {
        12
    } else if len <= 32 {
        13
    } else if len <= 48 {
        14
    } else {
        15
    }
}

/// The payload length that a data-length code stands for; codes above 15 read as 64.
pub open spec fn len_of_dlc(dlc: u8) -> nat {
    if dlc <= 8 {
        dlc as nat
    } else if dlc == 9 {
        12
    } else if dlc == 10 {
        16
    } else if dlc == 11 {
        20
    } else if dlc == 12 {
        24
    } else if dlc == 13 {
        32
    } else if dlc == 14 {
        48
    } else {
        64
    }
}

/// The payload lengths that a data-length code can express exactly.
pub open spec fn is_fd_length(n: int) -> bool {
    ||| 0 <= n <= 8
    ||| n == 12
    ||| n == 16
    ||| n == 20
    ||| n == 24
    ||| n == 32
    ||| n == 48
    ||| n == 64
}

/// Message-type flags of an FD frame: the mode flag with the FD and bit-rate-switch bits.
pub open spec fn fd_type_flags(msg_type: MessageType, fd: bool, brs: bool) -> u8 {
    type_flag(msg_type) | (if fd {
        MESSAGE_FD
    } else {
        0u8
    }) | (if brs {
        MESSAGE_BRS
    } else {
        0u8
    })
}

/// Native layout of an FD frame, as the driver reads and writes it.
#[derive(Debug, Clone, Copy)]
pub struct CanFdMsg {
    pub id: u32,
    pub msg_type: u8,
    pub dlc: u8,
    pub data: [u8; 64],
}

/// A CAN-FD frame: a data-length code and a 64-byte buffer whose first
/// `len_of_dlc(dlc)` bytes are meaningful.
#[derive(Debug, Clone, Copy)]
pub struct CanFdFrame {
    frame: CanFdMsg,
}

impl CanFdFrame {
    pub closed spec fn spec_id(self) -> u32 {
        self.frame.id
    }

    pub closed spec fn spec_msg_type(self) -> u8 {
        self.frame.msg_type
    }

    pub closed spec fn spec_dlc(self) -> u8 {
        self.frame.dlc
    }

    /// The whole 64-byte buffer, padding included.
    pub closed spec fn spec_buffer(self) -> Seq<u8> {
        self.frame.data@
    }

    pub open spec fn spec_len(self) -> nat {
        len_of_dlc(self.spec_dlc())
    }

    /// The meaningful bytes.
    pub open spec fn spec_data(self) -> Seq<u8> {
        self.spec_buffer().subrange(0, self.spec_len() as int)
    }

    pub open spec fn spec_is_standard(self) -> bool {
        self.spec_msg_type() & MESSAGE_STANDARD != 0
    }

    /// The identifier as read back: masked by the mode the flags give now.
    pub open spec fn spec_can_id(self) -> u32 {
        if self.spec_is_standard() {
            self.spec_id() & STANDARD_MASK
        } else {
            self.spec_id() & EXTENDED_MASK
        }
    }

    /// `self` is what `new(can_id, msg_type, data, fd, brs)` builds.
    pub open spec fn constructed(
        self,
        can_id: u32,
        msg_type: MessageType,
        data: Seq<u8>,
        fd: bool,
        brs: bool,
    ) -> bool {
        &&& data.len() <= 64
        &&& self.spec_id() == can_id & id_mask(msg_type)
        &&& self.spec_msg_type() == fd_type_flags(msg_type, fd, brs)
        &&& self.spec_dlc() == dlc_of_len(data.len() as int)
        &&& self.spec_buffer() == zero_padded(data, 64)
    }

    pub fn new(can_id: u32, msg_type: MessageType, data: &[u8], fd: bool, brs: bool) -> (r: Result<
        CanFdFrame,
        FrameConstructionError,
    >)
        ensures
            match r {
                Ok(f) => f.constructed(can_id, msg_type, data@, fd, brs),
                Err(e) => data@.len() > 64 && e == FrameConstructionError::TooMuchData,
            },
    {
        if data.len() > MAX_FD_DATA_LENGTH {
            return Err(FrameConstructionError::TooMuchData);
        }
        let mut frame_data: [u8; 64] = [0u8; 64];
        let mut i: usize = 0;
        while i < data.len()
            invariant
                i <= data@.len() <= 64,
                forall|k: int| 0 <= k < i ==> frame_data@[k] == data@[k],
                forall|k: int| i <= k < 64 ==> frame_data@[k] == 0,
            decreases data@.len() - i,
        {
            frame_data[i] = data[i];
            i = i + 1;
        }
        assert(frame_data@ =~= zero_padded(data@, 64));
        let (id, mode_flag) = match msg_type {
            MessageType::Standard => (can_id & STANDARD_MASK, MESSAGE_STANDARD),
            MessageType::Extended => (can_id & EXTENDED_MASK, MESSAGE_EXTENDED),
        };
        let fd_flag: u8 = if fd {
            MESSAGE_FD
        } else {
            0
        };
        let brs_flag: u8 = if brs {
            MESSAGE_BRS
        } else {
            0
        };
        Ok(
            CanFdFrame {
                frame: CanFdMsg {
                    id,
                    msg_type: mode_flag | fd_flag | brs_flag,
                    dlc: Self::calc_dlc(data.len()),
                    data: frame_data,
                },
            },
        )
    }

    /// Reads the standard flag; that flag is the zero value, so this is an
    /// independent bit test and not the negation of `is_extended_frame`.
    pub fn is_standard_frame(&self) -> (r: bool)
        ensures
            r == self.spec_is_standard(),
    {
        self.frame.msg_type & MESSAGE_STANDARD != 0
    }

    pub fn is_extended_frame(&self) -> (r: bool)
        ensures
            r == (self.spec_msg_type() & MESSAGE_EXTENDED != 0),
    {
        self.frame.msg_type & MESSAGE_EXTENDED != 0
    }

    pub fn is_error_frame(&self) -> (r: bool)
        ensures
            r == (self.spec_msg_type() & MESSAGE_ERRFRAME != 0),
    {
        self.frame.msg_type & MESSAGE_ERRFRAME != 0
    }

    pub fn is_echo_frame(&self) -> (r: bool)
        ensures
            r == (self.spec_msg_type() & MESSAGE_ECHO != 0),
    {
        self.frame.msg_type & MESSAGE_ECHO != 0
    }

    pub fn is_fd_frame(&self) -> (r: bool)
        ensures
            r == (self.spec_msg_type() & MESSAGE_FD != 0),
    {
        self.frame.msg_type & MESSAGE_FD != 0
    }

    pub fn can_id(&self) -> (r: u32)
        ensures
            r == self.spec_can_id(),
    {
        if self.is_standard_frame() {
            self.frame.id & STANDARD_MASK
        } else {
            self.frame.id & EXTENDED_MASK
        }
    }

    pub fn dlc(&self) -> (r: u8)
        ensures
            r == self.spec_dlc(),
    {
        self.frame.dlc
    }

    pub fn data(&self) -> (r: &[u8])
        ensures
            r@ == self.spec_data(),
    {
        let len = self.len();
        &self.frame.data[0..len]
    }

    pub fn mut_data(&mut self) -> (r: &mut [u8])
        ensures
            r@ == old(self).spec_data(),
            final(self).spec_id() == old(self).spec_id(),
            final(self).spec_msg_type() == old(self).spec_msg_type(),
            final(self).spec_dlc() == old(self).spec_dlc(),
            final(self).spec_buffer() == final(r)@ + old(self).spec_buffer().subrange(
                old(self).spec_len() as int,
                64,
            ),
    {
        let len = self.len();
        let (head, _tail) = self.frame.data.split_at_mut(len);
        head
    }

    /// The data-length code for a payload of `len` bytes.
    pub fn calc_dlc(len: usize) -> (r: u8)
        ensures
            r == dlc_of_len(len as int),
    {
        if len <= 8 {
            len as u8
        } else if len <= 12 {
            9
        } else if len <= 16 {
            10
        } else if len <= 20 {
            11
        } else if len <= 24 {
            12
        } else if len <= 32 {
            13
        } else if len <= 48 {
            14
        } else {
            15
        }
    }

    /// The number of meaningful bytes, decoded from the data-length code.
    pub fn len(&self) -> (r: usize)
        ensures
            r == self.spec_len(),
            r <= 64,
    {
        let dlc = self.frame.dlc;
        if dlc <= 8 {
            dlc as usize
        } else if dlc == 9 {
            12
        } else if dlc == 10 {
            16
        } else if dlc == 11 {
            20
        } else if dlc == 12 {
            24
        } else if dlc == 13 {
            32
        } else if dlc == 14 {
            48
        } else {
            64
        }
    }

    pub fn is_empty(&self) -> (r: bool)
        ensures
            r == (self.spec_len() == 0),
    {
        self.len() == 0
    }

    /// The frame as the driver lays it out.
    pub fn msg(&self) -> (r: CanFdMsg)
        ensures
            r.id == self.spec_id(),
            r.msg_type == self.spec_msg_type(),
            r.dlc == self.spec_dlc(),
            r.data@ == self.spec_buffer(),
    {
        self.frame
    }

    /// A frame from its native layout.
    pub fn from_msg(msg: CanFdMsg) -> (r: CanFdFrame)
        ensures
            r.spec_id() == msg.id,
            r.spec_msg_type() == msg.msg_type,
            r.spec_dlc() == msg.dlc,
            r.spec_buffer() == msg.data@,
    {
        CanFdFrame { frame: msg }
    }
}

impl Default for CanFdFrame {
    fn default() -> (r: CanFdFrame)
        ensures
            r.constructed(0, MessageType::Standard, Seq::empty(), false, false),
    {
        let data: [u8; 64] = [0u8; 64];
        assert(data@ =~= zero_padded(Seq::empty(), 64));
        assert(0u32 & STANDARD_MASK == 0) by (bit_vector);
        assert(0u8 | 0u8 | 0u8 == 0u8) by (bit_vector);
        CanFdFrame { frame: CanFdMsg { id: 0, msg_type: MESSAGE_STANDARD, dlc: 0, data } }
    }
}

impl PartialEq for CanFdFrame {
    /// Identifier, data-length code, flags and the meaningful bytes; padding is not compared.
    fn eq(&self, other: &CanFdFrame) -> (r: bool) {
        if self.frame.id != other.frame.id {
            return false;
        }
        if self.frame.dlc != other.frame.dlc {
            return false;
        }
        if self.frame.msg_type != other.frame.msg_type {
            return false;
        }
        let len = self.len();
        prefix_equal(self.frame.data.as_slice(), other.frame.data.as_slice(), len)
    }
}

impl vstd::std_specs::cmp::PartialEqSpecImpl for CanFdFrame {
    open spec fn obeys_eq_spec() -> bool {
        true
    }

    open spec fn eq_spec(&self, other: &CanFdFrame) -> bool {
        &&& self.spec_id() == other.spec_id()
        &&& self.spec_dlc() == other.spec_dlc()
        &&& self.spec_msg_type() == other.spec_msg_type()
        &&& self.spec_data() == other.spec_data()
    }
}

/// Encoding a length in `0..=64` and decoding the code gives the length back
/// when a code expresses it exactly, and otherwise the smallest expressible
/// length above it.
pub proof fn lemma_dlc_round_trip(n: int)
    requires
        0 <= n <= 64,
    ensures
        is_fd_length(n) ==> len_of_dlc(dlc_of_len(n)) == n,
        len_of_dlc(dlc_of_len(n)) >= n,
        is_fd_length(len_of_dlc(dlc_of_len(n)) as int),
        forall|m: int| is_fd_length(m) && m >= n ==> len_of_dlc(dlc_of_len(n)) <= m,
{
}

/// A constructed FD frame holds the payload it was given, followed by zero
/// bytes up to the decoded length of its data-length code.
pub proof fn lemma_fd_payload(
    f: CanFdFrame,
    can_id: u32,
    msg_type: MessageType,
    data: Seq<u8>,
    fd: bool,
    brs: bool,
)
    requires
        f.constructed(can_id, msg_type, data, fd, brs),
    ensures
        f.spec_len() == len_of_dlc(dlc_of_len(data.len() as int)),
        f.spec_data() == zero_padded(data, f.spec_len()),
{
    lemma_dlc_round_trip(data.len() as int);
    assert(f.spec_data() =~= zero_padded(data, f.spec_len()));
}

/// The identifier read back from a constructed FD frame is the given
/// identifier masked to 11 bits in standard mode and to 29 bits in extended mode.
pub proof fn lemma_fd_identifier_masked(
    f: CanFdFrame,
    can_id: u32,
    msg_type: MessageType,
    data: Seq<u8>,
    fd: bool,
    brs: bool,
)
    requires
        f.constructed(can_id, msg_type, data, fd, brs),
    ensures
        f.spec_can_id() == can_id & id_mask(msg_type),
{
    let t = f.spec_msg_type();
    assert(t & 0u8 == 0u8) by (bit_vector);
    assert((can_id & 0x7FFu32) & 0x1FFF_FFFFu32 == can_id & 0x7FFu32) by (bit_vector);
    assert((can_id & 0x1FFF_FFFFu32) & 0x1FFF_FFFFu32 == can_id & 0x1FFF_FFFFu32) by (bit_vector);
}

/// FD frame equality looks at identifier, data-length code, flags and the
/// meaningful bytes only: bytes past the decoded length never matter, and
/// frames that differ in identifier, code or flags are unequal whatever their data.
pub proof fn lemma_fd_eq_ignores_padding(a: CanFdFrame, b: CanFdFrame)
    ensures
        a.eq_spec(&b) <==> {
            &&& a.spec_id() == b.spec_id()
            &&& a.spec_dlc() == b.spec_dlc()
            &&& a.spec_msg_type() == b.spec_msg_type()
            &&& forall|i: int| 0 <= i < a.spec_len() ==> a.spec_buffer()[i] == b.spec_buffer()[i]
        },
{
    if a.spec_dlc() == b.spec_dlc() && forall|i: int|
        0 <= i < a.spec_len() ==> a.spec_buffer()[i] == b.spec_buffer()[i] {
        assert(a.spec_data() =~= b.spec_data());
    }
    if a.eq_spec(&b) {
        assert forall|i: int| 0 <= i < a.spec_len() implies a.spec_buffer()[i]
            == b.spec_buffer()[i] by {
            assert(a.spec_data()[i] == b.spec_data()[i]);
        }
    }
}

} // verus!
