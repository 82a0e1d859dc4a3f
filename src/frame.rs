use vstd::prelude::*;
use vstd::std_specs::cmp::PartialEqSpec;

verus! {

/// Mask applied to identifiers of standard (11-bit) frames.
pub const STANDARD_MASK: u32 = 0x07FF;

/// Mask applied to identifiers of extended (29-bit) frames.
pub const EXTENDED_MASK: u32 = 0x1FFF_FFFF;

/// Size of the data buffer of a classical frame, the largest payload it carries.
pub const MAX_DATA_LENGTH: usize = 8;

/// Message-type flag bits of the native frame layout.
pub const MESSAGE_STANDARD: u8 = 0x00;
pub const MESSAGE_EXTENDED: u8 = 0x02;
pub const MESSAGE_FD: u8 = 0x04;
pub const MESSAGE_BRS: u8 = 0x08;
pub const MESSAGE_ECHO: u8 = 0x20;
pub const MESSAGE_ERRFRAME: u8 = 0x40;

/// Addressing mode of a frame identifier.
#[derive(Debug, PartialEq, Eq, Structural, Clone, Copy)]
pub enum MessageType {
    Standard,
    Extended,
}

/// Why a frame could not be built.
#[derive(Debug, PartialEq, Eq, Structural, Clone, Copy)]
pub enum FrameConstructionError {
    /// The payload is longer than the frame's buffer.
    TooMuchData,
    /// The identifier does not fit the addressing mode. Construction masks
    /// identifiers instead, so it never reports this; callers that check
    /// identifiers themselves may.
    CanIdMessageTypeMismatch,
}

impl FrameConstructionError {
    /// A description of the error for people.
    pub fn message(&self) -> (r: &'static str)
        ensures
            r@ == match self {
                FrameConstructionError::TooMuchData => "Too much data for frame"@,
                FrameConstructionError::CanIdMessageTypeMismatch => "CAN ID does not match message type"@,
            },
    {
        match self {
            FrameConstructionError::TooMuchData => "Too much data for frame",
            FrameConstructionError::CanIdMessageTypeMismatch => "CAN ID does not match message type",
        }
    }
}

/// The identifier mask that belongs to an addressing mode.
pub open spec fn id_mask(msg_type: MessageType) -> u32 {
    match msg_type {
        MessageType::Standard => STANDARD_MASK,
        MessageType::Extended => EXTENDED_MASK,
    }
}

/// The message-type flag that belongs to an addressing mode.
pub open spec fn type_flag(msg_type: MessageType) -> u8 {
    match msg_type {
        MessageType::Standard => MESSAGE_STANDARD,
        MessageType::Extended => MESSAGE_EXTENDED,
    }
}

/// `data` followed by zero bytes up to `size`.
pub open spec fn zero_padded(data: Seq<u8>, size: nat) -> Seq<u8> {
    data + Seq::new((size - data.len()) as nat, |_i: int| 0u8)
}

/// Native layout of a classical frame, as the driver reads and writes it.
#[derive(Debug, Clone, Copy)]
pub struct CanMsg {
    pub id: u32,
    pub msg_type: u8,
    pub len: u8,
    pub data: [u8; 8],
}

/// A classical CAN frame: up to eight meaningful bytes in an eight-byte buffer.
#[derive(Debug, Clone, Copy)]
pub struct CanFrame {
    frame: CanMsg,
}

impl CanFrame {
    #[verifier::type_invariant]
    spec fn inv(self) -> bool {
        self.frame.len <= 8
    }

    /// The stored identifier, before the read-time mask.
    pub closed spec fn spec_id(self) -> u32 {
        self.frame.id
    }

    pub closed spec fn spec_msg_type(self) -> u8 {
        self.frame.msg_type
    }

    pub closed spec fn spec_len(self) -> u8 {
        self.frame.len
    }

    /// The whole eight-byte buffer, padding included.
    pub closed spec fn spec_buffer(self) -> Seq<u8> {
        self.frame.data@
    }

    /// The meaningful bytes.
    pub open spec fn spec_data(self) -> Seq<u8> {
        self.spec_buffer().subrange(0, self.spec_len() as int)
    }

    pub open spec fn spec_is_extended(self) -> bool {
        self.spec_msg_type() & MESSAGE_EXTENDED != 0
    }

    /// The identifier as read back: masked by the mode the flags give now.
    pub open spec fn spec_can_id(self) -> u32 {
        if self.spec_is_extended() {
            self.spec_id() & EXTENDED_MASK
        } else {
            self.spec_id() & STANDARD_MASK
        }
    }

    /// `self` is what `new(can_id, msg_type, data)` builds.
    pub open spec fn constructed(self, can_id: u32, msg_type: MessageType, data: Seq<u8>) -> bool {
        &&& data.len() <= 8
        &&& self.spec_id() == can_id & id_mask(msg_type)
        &&& self.spec_msg_type() == type_flag(msg_type)
        &&& self.spec_len() == data.len()
        &&& self.spec_buffer() == zero_padded(data, 8)
    }

    pub fn new(can_id: u32, msg_type: MessageType, data: &[u8]) -> (r: Result<
        CanFrame,
        FrameConstructionError,
    >)
        ensures
            match r {
                Ok(f) => f.constructed(can_id, msg_type, data@),
                Err(e) => data@.len() > 8 && e == FrameConstructionError::TooMuchData,
            },
    {
        if data.len() > MAX_DATA_LENGTH {
            return Err(FrameConstructionError::TooMuchData);
        }
        let mut frame_data: [u8; 8] = [0u8; 8];
        let mut i: usize = 0;
        while i < data.len()
            invariant
                i <= data@.len() <= 8,
                forall|k: int| 0 <= k < i ==> frame_data@[k] == data@[k],
                forall|k: int| i <= k < 8 ==> frame_data@[k] == 0,
            decreases data@.len() - i,
        {
            frame_data[i] = data[i];
            i = i + 1;
        }
        assert(frame_data@ =~= zero_padded(data@, 8));
        let (id, flag) = match msg_type {
            MessageType::Standard => (can_id & STANDARD_MASK, MESSAGE_STANDARD),
            MessageType::Extended => (can_id & EXTENDED_MASK, MESSAGE_EXTENDED),
        };
        Ok(CanFrame { frame: CanMsg { id, msg_type: flag, len: data.len() as u8, data: frame_data } })
    }

    pub fn data(&self) -> (r: &[u8])
        ensures
            r@ == self.spec_data(),
    {
        proof {
            use_type_invariant(self);
        }
        &self.frame.data[0..self.frame.len as usize]
    }

    pub fn mut_data(&mut self) -> (r: &mut [u8])
        ensures
            r@ == old(self).spec_data(),
            final(self).spec_id() == old(self).spec_id(),
            final(self).spec_msg_type() == old(self).spec_msg_type(),
            final(self).spec_len() == old(self).spec_len(),
            final(self).spec_data() == final(r)@,
            final(self).spec_buffer() == final(r)@ + old(self).spec_buffer().subrange(
                old(self).spec_len() as int,
                8,
            ),
    {
        proof {
            use_type_invariant(&*self);
        }
        let len = self.frame.len as usize;
        let (head, _tail) = self.frame.data.split_at_mut(len);
        head
    }

    pub fn is_standard_frame(&self) -> (r: bool)
        ensures
            r == !self.spec_is_extended(),
    {
        // the standard flag is zero, so a frame is standard when it is not extended
        !self.is_extended_frame()
    }

    pub fn is_extended_frame(&self) -> (r: bool)
        ensures
            r == self.spec_is_extended(),
    {
        self.frame.msg_type & MESSAGE_EXTENDED != 0
    }

    pub fn is_error_frame(&self) -> (r: bool)
        ensures
            r == (self.spec_msg_type() & MESSAGE_ERRFRAME != 0),
    {
        self.frame.msg_type & MESSAGE_ERRFRAME != 0
    }

    pub fn is_echo_frame(&self) -> (r: bool)
        ensures
            r == (self.spec_msg_type() & MESSAGE_ECHO != 0),
    {
        self.frame.msg_type & MESSAGE_ECHO != 0
    }

    pub fn can_id(&self) -> (r: u32)
        ensures
            r == self.spec_can_id(),
    {
        if self.is_standard_frame() {
            self.frame.id & STANDARD_MASK
        } else {
            self.frame.id & EXTENDED_MASK
        }
    }

    /// The number of meaningful bytes.
    pub fn dlc(&self) -> (r: u8)
        ensures
            r == self.spec_len(),
            r <= 8,
    {
        proof {
            use_type_invariant(self);
        }
        self.frame.len
    }

    /// The frame as the driver lays it out.
    pub fn msg(&self) -> (r: CanMsg)
        ensures
            r.id == self.spec_id(),
            r.msg_type == self.spec_msg_type(),
            r.len == self.spec_len(),
            r.data@ == self.spec_buffer(),
    {
        self.frame
    }

    /// A frame from its native layout; `None` when the length field exceeds the buffer.
    pub fn from_msg(msg: CanMsg) -> (r: Option<CanFrame>)
        ensures
            match r {
                Some(f) => {
                    &&& msg.len <= 8
                    &&& f.spec_id() == msg.id
                    &&& f.spec_msg_type() == msg.msg_type
                    &&& f.spec_len() == msg.len
                    &&& f.spec_buffer() == msg.data@
                },
                None => msg.len > 8,
            },
    {
        if msg.len > 8 {
            None
        } else {
            Some(CanFrame { frame: msg })
        }
    }
}

impl Default for CanFrame {
    fn default() -> (r: CanFrame)
        ensures
            r.constructed(0, MessageType::Standard, Seq::empty()),
    {
        let data: [u8; 8] = [0u8; 8];
        assert(data@ =~= zero_padded(Seq::empty(), 8));
        assert(0u32 & STANDARD_MASK == 0) by (bit_vector);
        CanFrame { frame: CanMsg { id: 0, msg_type: MESSAGE_STANDARD, len: 0, data } }
    }
}

/// Bytes `0..len` of `a` and `b` agree.
pub(crate) fn prefix_equal(a: &[u8], b: &[u8], len: usize) -> (r: bool)
    requires
        len <= a@.len(),
        len <= b@.len(),
    ensures
        r == (a@.subrange(0, len as int) == b@.subrange(0, len as int)),
{
    let mut i: usize = 0;
    while i < len
        invariant
            i <= len <= a@.len(),
            len <= b@.len(),
            a@.subrange(0, i as int) == b@.subrange(0, i as int),
        decreases len - i,
    {
        if a[i] != b[i] {
            assert(a@.subrange(0, len as int)[i as int] != b@.subrange(0, len as int)[i as int]);
            return false;
        }
        assert(a@.subrange(0, i + 1) =~= a@.subrange(0, i as int).push(a@[i as int]));
        assert(b@.subrange(0, i + 1) =~= b@.subrange(0, i as int).push(b@[i as int]));
        i = i + 1;
    }
    true
}

impl PartialEq for CanFrame {
    /// Identifier, length, flags and the meaningful bytes; padding is not compared.
    fn eq(&self, other: &CanFrame) -> (r: bool) {
        proof {
            use_type_invariant(self);
            use_type_invariant(other);
        }
        if self.frame.id != other.frame.id {
            return false;
        }
        if self.frame.len != other.frame.len {
            return false;
        }
        if self.frame.msg_type != other.frame.msg_type {
            return false;
        }
        prefix_equal(self.frame.data.as_slice(), other.frame.data.as_slice(), self.frame.len as usize)
    }
}

impl vstd::std_specs::cmp::PartialEqSpecImpl for CanFrame {
    open spec fn obeys_eq_spec() -> bool {
        true
    }

    open spec fn eq_spec(&self, other: &CanFrame) -> bool {
        &&& self.spec_id() == other.spec_id()
        &&& self.spec_len() == other.spec_len()
        &&& self.spec_msg_type() == other.spec_msg_type()
        &&& self.spec_data() == other.spec_data()
    }
}

/// A constructed frame carries exactly the payload it was given: its
/// meaningful bytes are the payload and its length is the payload's length.
pub proof fn lemma_payload_round_trip(f: CanFrame, can_id: u32, msg_type: MessageType, data: Seq<u8>)
    requires
        f.constructed(can_id, msg_type, data),
    ensures
        f.spec_data() == data,
        f.spec_len() == data.len(),
{
    assert(f.spec_data() =~= data);
}

/// The identifier read back from a constructed frame is the given identifier
/// masked to 11 bits in standard mode and to 29 bits in extended mode.
pub proof fn lemma_identifier_masked(f: CanFrame, can_id: u32, msg_type: MessageType, data: Seq<u8>)
    requires
        f.constructed(can_id, msg_type, data),
    ensures
        f.spec_can_id() == can_id & id_mask(msg_type),
        f.spec_is_extended() == (msg_type == MessageType::Extended),
{
    assert((can_id & 0x7FFu32) & 0x7FFu32 == can_id & 0x7FFu32) by (bit_vector);
    assert((can_id & 0x1FFF_FFFFu32) & 0x1FFF_FFFFu32 == can_id & 0x1FFF_FFFFu32) by (bit_vector);
    assert(0u8 & 2u8 == 0u8) by (bit_vector);
    assert(2u8 & 2u8 == 2u8) by (bit_vector);
}

/// Frame equality looks at identifier, length, flags and the meaningful bytes
/// only: bytes past the length never matter, and frames that differ in
/// identifier, length or flags are unequal whatever their data.
pub proof fn lemma_eq_ignores_padding(a: CanFrame, b: CanFrame)
    requires
        a.spec_len() <= 8,
    ensures
        a.eq_spec(&b) <==> {
            &&& a.spec_id() == b.spec_id()
            &&& a.spec_len() == b.spec_len()
            &&& a.spec_msg_type() == b.spec_msg_type()
            &&& forall|i: int| 0 <= i < a.spec_len() ==> a.spec_buffer()[i] == b.spec_buffer()[i]
        },
{
    if a.spec_len() == b.spec_len() && forall|i: int|
        0 <= i < a.spec_len() ==> a.spec_buffer()[i] == b.spec_buffer()[i] {
        assert(a.spec_data() =~= b.spec_data());
    }
    if a.eq_spec(&b) {
        assert forall|i: int| 0 <= i < a.spec_len() implies a.spec_buffer()[i]
            == b.spec_buffer()[i] by {
            assert(a.spec_data()[i] == b.spec_data()[i]);
        }
    }
}

} // verus!
