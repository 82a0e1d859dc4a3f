use vstd::prelude::*;

verus! {

/// Native status codes of the driver.
pub const ERROR_OK: u32 = 0x00000;
pub const ERROR_XMTFULL: u32 = 0x00001;
pub const ERROR_OVERRUN: u32 = 0x00002;
pub const ERROR_BUSLIGHT: u32 = 0x00004;
pub const ERROR_BUSHEAVY: u32 = 0x00008;
pub const ERROR_BUSOFF: u32 = 0x00010;
pub const ERROR_ANYBUSERR: u32 = 0x4001C;
pub const ERROR_QRCVEMPTY: u32 = 0x00020;
pub const ERROR_QOVERRUN: u32 = 0x00040;
pub const ERROR_QXMTFULL: u32 = 0x00080;
pub const ERROR_REGTEST: u32 = 0x00100;
pub const ERROR_NODRIVER: u32 = 0x00200;
pub const ERROR_HWINUSE: u32 = 0x00400;
pub const ERROR_NETINUSE: u32 = 0x00800;
pub const ERROR_ILLHW: u32 = 0x01400;
pub const ERROR_ILLNET: u32 = 0x01800;
pub const ERROR_ILLCLIENT: u32 = 0x01C00;
pub const ERROR_RESOURCE: u32 = 0x02000;
pub const ERROR_ILLPARAMTYPE: u32 = 0x04000;
pub const ERROR_ILLPARAMVAL: u32 = 0x08000;
pub const ERROR_UNKNOWN: u32 = 0x10000;
pub const ERROR_ILLDATA: u32 = 0x20000;
pub const ERROR_BUSPASSIVE: u32 = 0x40000;
pub const ERROR_ILLMODE: u32 = 0x80000;
pub const ERROR_CAUTION: u32 = 0x2000000;
pub const ERROR_INITIALIZE: u32 = 0x4000000;
pub const ERROR_ILLOPERATION: u32 = 0x8000000;

/// A failure reported by the driver. `Unknown` also stands for every code
/// that names none of the others.
#[derive(Debug, PartialEq, Eq, Structural, Clone, Copy)]
pub enum CanError {
    XmtFull,
    Overrun,
    BusLight,
    BusHeavy,
    BusOff,
    AnyBusErr,
    QrcvEmpty,
    QOverrun,
    QXmtFull,
    RegTest,
    NoDriver,
    HwInUse,
    NetInUse,
    IllHw,
    IllNet,
    IllClient,
    Resource,
    IllParamType,
    IllParamVal,
    Unknown,
    IllData,
    BusPassive,
    IllMode,
    Caution,
    Initialize,
    IllOperation,
}

/// The native code that reports an error.
pub open spec fn error_code(e: CanError) -> u32 {
    match e {
        CanError::XmtFull => ERROR_XMTFULL,
        CanError::Overrun => ERROR_OVERRUN,
        CanError::BusLight => ERROR_BUSLIGHT,
        CanError::BusHeavy => ERROR_BUSHEAVY,
        CanError::BusOff => ERROR_BUSOFF,
        CanError::AnyBusErr => ERROR_ANYBUSERR,
        CanError::QrcvEmpty => ERROR_QRCVEMPTY,
        CanError::QOverrun => ERROR_QOVERRUN,
        CanError::QXmtFull => ERROR_QXMTFULL,
        CanError::RegTest => ERROR_REGTEST,
        CanError::NoDriver => ERROR_NODRIVER,
        CanError::HwInUse => ERROR_HWINUSE,
        CanError::NetInUse => ERROR_NETINUSE,
        CanError::IllHw => ERROR_ILLHW,
        CanError::IllNet => ERROR_ILLNET,
        CanError::IllClient => ERROR_ILLCLIENT,
        CanError::Resource => ERROR_RESOURCE,
        CanError::IllParamType => ERROR_ILLPARAMTYPE,
        CanError::IllParamVal => ERROR_ILLPARAMVAL,
        CanError::Unknown => ERROR_UNKNOWN,
        CanError::IllData => ERROR_ILLDATA,
        CanError::BusPassive => ERROR_BUSPASSIVE,
        CanError::IllMode => ERROR_ILLMODE,
        CanError::Caution => ERROR_CAUTION,
        CanError::Initialize => ERROR_INITIALIZE,
        CanError::IllOperation => ERROR_ILLOPERATION,
    }
}

/// A status code the driver documents: success or one of the errors.
#[derive(Debug, PartialEq, Eq, Structural, Clone, Copy)]
pub enum CanStatus {
    Success,
    Failure(CanError),
}

/// The error a native code names, if any.
pub open spec fn error_of_code(code: u32) -> Option<CanError> {
    if code == ERROR_XMTFULL {
        Some(CanError::XmtFull)
    } else if code == ERROR_OVERRUN {
        Some(CanError::Overrun)
    } else if code == ERROR_BUSLIGHT {
        Some(CanError::BusLight)
    } else if code == ERROR_BUSHEAVY {
        Some(CanError::BusHeavy)
    } else if code == ERROR_BUSOFF {
        Some(CanError::BusOff)
    } else if code == ERROR_ANYBUSERR {
        Some(CanError::AnyBusErr)
    } else if code == ERROR_QRCVEMPTY {
        Some(CanError::QrcvEmpty)
    } else if code == ERROR_QOVERRUN {
        Some(CanError::QOverrun)
    } else if code == ERROR_QXMTFULL {
        Some(CanError::QXmtFull)
    } else if code == ERROR_REGTEST {
        Some(CanError::RegTest)
    } else if code == ERROR_NODRIVER {
        Some(CanError::NoDriver)
    } else if code == ERROR_HWINUSE {
        Some(CanError::HwInUse)
    } else if code == ERROR_NETINUSE {
        Some(CanError::NetInUse)
    } else if code == ERROR_ILLHW {
        Some(CanError::IllHw)
    } else if code == ERROR_ILLNET {
        Some(CanError::IllNet)
    } else if code == ERROR_ILLCLIENT {
        Some(CanError::IllClient)
    } else if code == ERROR_RESOURCE {
        Some(CanError::Resource)
    } else if code == ERROR_ILLPARAMTYPE {
        Some(CanError::IllParamType)
    } else if code == ERROR_ILLPARAMVAL {
        Some(CanError::IllParamVal)
    } else if code == ERROR_UNKNOWN {
        Some(CanError::Unknown)
    } else if code == ERROR_ILLDATA {
        Some(CanError::IllData)
    } else if code == ERROR_BUSPASSIVE {
        Some(CanError::BusPassive)
    } else if code == ERROR_ILLMODE {
        Some(CanError::IllMode)
    } else if code == ERROR_CAUTION {
        Some(CanError::Caution)
    } else if code == ERROR_INITIALIZE {
        Some(CanError::Initialize)
    } else if code == ERROR_ILLOPERATION {
        Some(CanError::IllOperation)
    } else {
        None
    }
}

/// What a native code means, where it means anything.
pub open spec fn spec_status(code: u32) -> Option<CanStatus> {
    if code == ERROR_OK {
        Some(CanStatus::Success)
    } else {
        match error_of_code(code) {
            Some(e) => Some(CanStatus::Failure(e)),
            None => None,
        }
    }
}

/// The result an operation reports for a native code: unrecognised codes
/// become `CanError::Unknown`.
pub open spec fn spec_status_result(code: u32) -> Result<(), CanError> {
    match spec_status(code) {
        Some(CanStatus::Success) => Ok(()),
        Some(CanStatus::Failure(e)) => Err(e),
        None => Err(CanError::Unknown),
    }
}

/// Distinct errors have distinct codes, and none is the success code.
pub proof fn lemma_error_code_injective(a: CanError, b: CanError)
    ensures
        error_code(a) == error_code(b) ==> a == b,
        error_code(a) != ERROR_OK,
{
}

impl CanStatus {
    /// Decodes a native status code; `None` for a code the driver does not document.
    pub fn from_code(code: u32) -> (r: Option<CanStatus>)
        ensures
            r == spec_status(code),
    {
        let e = if code == ERROR_OK {
            return Some(CanStatus::Success);
        } else if code == ERROR_XMTFULL {
            CanError::XmtFull
        } else if code == ERROR_OVERRUN {
            CanError::Overrun
        } else if code == ERROR_BUSLIGHT {
            CanError::BusLight
        } else if code == ERROR_BUSHEAVY {
            CanError::BusHeavy
        } else if code == ERROR_BUSOFF {
            CanError::BusOff
        } else if code == ERROR_ANYBUSERR {
            CanError::AnyBusErr
        } else if code == ERROR_QRCVEMPTY {
            CanError::QrcvEmpty
        } else if code == ERROR_QOVERRUN {
            CanError::QOverrun
        } else if code == ERROR_QXMTFULL {
            CanError::QXmtFull
        } else if code == ERROR_REGTEST {
            CanError::RegTest
        } else if code == ERROR_NODRIVER {
            CanError::NoDriver
        } else if code == ERROR_HWINUSE {
            CanError::HwInUse
        } else if code == ERROR_NETINUSE {
            CanError::NetInUse
        } else if code == ERROR_ILLHW {
            CanError::IllHw
        } else if code == ERROR_ILLNET {
            CanError::IllNet
        } else if code == ERROR_ILLCLIENT {
            CanError::IllClient
        } else if code == ERROR_RESOURCE {
            CanError::Resource
        } else if code == ERROR_ILLPARAMTYPE {
            CanError::IllParamType
        } else if code == ERROR_ILLPARAMVAL {
            CanError::IllParamVal
        } else if code == ERROR_UNKNOWN {
            CanError::Unknown
        } else if code == ERROR_ILLDATA {
            CanError::IllData
        } else if code == ERROR_BUSPASSIVE {
            CanError::BusPassive
        } else if code == ERROR_ILLMODE {
            CanError::IllMode
        } else if code == ERROR_CAUTION {
            CanError::Caution
        } else if code == ERROR_INITIALIZE {
            CanError::Initialize
        } else if code == ERROR_ILLOPERATION {
            CanError::IllOperation
        } else {
            return None;
        };
        Some(CanStatus::Failure(e))
    }
}

/// Interprets the status code of a native call: success, the error it
/// names, or `CanError::Unknown` for a code that names none.
pub fn status_result(code: u32) -> (r: Result<(), CanError>)
    ensures
        r == spec_status_result(code),
{
    match CanStatus::from_code(code) {
        Some(CanStatus::Success) => Ok(()),
        Some(CanStatus::Failure(err)) => Err(err),
        None => Err(CanError::Unknown),
    }
}

/// Every native code has exactly one meaning: success for the success code
/// alone, the error a code names for each error's code, and `Unknown` for
/// every code that names nothing.
pub proof fn lemma_status_total(code: u32)
    ensures
        spec_status_result(code) is Ok <==> code == ERROR_OK,
        forall|e: CanError| #[trigger] error_code(e) == code ==> spec_status_result(code) == Err::<
            (),
            CanError,
        >(e),
        spec_status_result(code) matches Err(e) ==> error_code(e) == code || e == CanError::Unknown,
        (code != ERROR_OK && forall|e: CanError| error_code(e) != code) ==> spec_status_result(code)
            == Err::<(), CanError>(CanError::Unknown),
{
    if let Some(e) = error_of_code(code) {
        assert(error_code(e) == code);
    }
    assert forall|e: CanError| #[trigger] error_code(e) == code implies error_of_code(code) == Some(
        e,
    ) by {
        match e {
            CanError::XmtFull => {},
            CanError::Overrun => {},
            CanError::BusLight => {},
            CanError::BusHeavy => {},
            CanError::BusOff => {},
            CanError::AnyBusErr => {},
            CanError::QrcvEmpty => {},
            CanError::QOverrun => {},
            CanError::QXmtFull => {},
            CanError::RegTest => {},
            CanError::NoDriver => {},
            CanError::HwInUse => {},
            CanError::NetInUse => {},
            CanError::IllHw => {},
            CanError::IllNet => {},
            CanError::IllClient => {},
            CanError::Resource => {},
            CanError::IllParamType => {},
            CanError::IllParamVal => {},
            CanError::Unknown => {},
            CanError::IllData => {},
            CanError::BusPassive => {},
            CanError::IllMode => {},
            CanError::Caution => {},
            CanError::Initialize => {},
            CanError::IllOperation => {},
        }
    }
}

} // verus!
