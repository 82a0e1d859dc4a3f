use vstd::prelude::*;

verus! {

/// The standard bit rates, each with the code the driver takes for it.
#[derive(Debug, PartialEq, Eq, Structural, Clone, Copy)]
pub enum Baudrate {
    Baud1M,
    Baud800K,
    Baud500K,
    Baud250K,
    Baud125K,
    Baud100K,
    Baud95K,
    Baud83K,
    Baud50K,
    Baud47K,
    Baud33K,
    Baud20K,
    Baud10K,
    Baud5K,
}

/// The driver's code for a bit rate.
pub open spec fn baud_code(b: Baudrate) -> u16 {
    match b {
        Baudrate::Baud1M => 0x0014,
        Baudrate::Baud800K => 0x0016,
        Baudrate::Baud500K => 0x001C,
        Baudrate::Baud250K => 0x011C,
        Baudrate::Baud125K => 0x031C,
        Baudrate::Baud100K => 0x432F,
        Baudrate::Baud95K => 0xC34E,
        Baudrate::Baud83K => 0x852B,
        Baudrate::Baud50K => 0x472F,
        Baudrate::Baud47K => 0x1414,
        Baudrate::Baud33K => 0x8B2F,
        Baudrate::Baud20K => 0x532F,
        Baudrate::Baud10K => 0x672F,
        Baudrate::Baud5K => 0x7F7F,
    }
}

/// Distinct bit rates have distinct codes.
pub proof fn lemma_baud_code_injective(a: Baudrate, b: Baudrate)
    ensures
        baud_code(a) == baud_code(b) ==> a == b,
{
}

impl From<Baudrate> for u16 {
    fn from(value: Baudrate) -> (r: u16) {
        match value {
            Baudrate::Baud1M => 0x0014,
            Baudrate::Baud800K => 0x0016,
            Baudrate::Baud500K => 0x001C,
            Baudrate::Baud250K => 0x011C,
            Baudrate::Baud125K => 0x031C,
            Baudrate::Baud100K => 0x432F,
            Baudrate::Baud95K => 0xC34E,
            Baudrate::Baud83K => 0x852B,
            Baudrate::Baud50K => 0x472F,
            Baudrate::Baud47K => 0x1414,
            Baudrate::Baud33K => 0x8B2F,
            Baudrate::Baud20K => 0x532F,
            Baudrate::Baud10K => 0x672F,
            Baudrate::Baud5K => 0x7F7F,
        }
    }
}

impl vstd::std_specs::convert::FromSpecImpl<Baudrate> for u16 {
    open spec fn obeys_from_spec() -> bool {
        true
    }

    open spec fn from_spec(v: Baudrate) -> u16 {
        baud_code(v)
    }
}

} // verus!
