//! The status words of errors that the device's cryptography and I/O layers
//! report.

use vstd::prelude::*;

use crate::status::{status_code, StatusWord};

verus! {

/// An error of the device's elliptic-curve cryptography.
#[derive(Clone, Copy, Debug, PartialEq, Eq, Structural)]
pub enum CxError {
    Carry,
    Locked,
    Unlocked,
    NotLocked,
    NotUnlocked,
    InternalError,
    InvalidParameterSize,
    InvalidParameterValue,
    InvalidParameter,
    NotInvertible,
    Overflow,
    MemoryFull,
    NoResidue,
    PointAtInfinity,
    InvalidPoint,
    InvalidCurve,
    GenericError,
}

/// The position of a cryptography error in the device's list of them.
pub open spec fn cx_error_index(e: CxError) -> u16 {
    match e {
        CxError::Carry => 0,
        CxError::Locked => 1,
        CxError::Unlocked => 2,
        CxError::NotLocked => 3,
        CxError::NotUnlocked => 4,
        CxError::InternalError => 5,
        CxError::InvalidParameterSize => 6,
        CxError::InvalidParameterValue => 7,
        CxError::InvalidParameter => 8,
        CxError::NotInvertible => 9,
        CxError::Overflow => 10,
        CxError::MemoryFull => 11,
        CxError::NoResidue => 12,
        CxError::PointAtInfinity => 13,
        CxError::InvalidPoint => 14,
        CxError::InvalidCurve => 15,
        CxError::GenericError => 16,
    }
}

/// The status word of a cryptography error: the ECC status of the same
/// name, `0xB100` and the error's position.
pub fn cx_err_to_status(e: CxError) -> (r: StatusWord)
    ensures
        status_code(r) == 0xB100 + cx_error_index(e),
{
    match e {
        CxError::Carry => StatusWord::EccCarry,
        CxError::Locked => StatusWord::EccLocked,
        CxError::Unlocked => StatusWord::EccUnlocked,
        CxError::NotLocked => StatusWord::EccNotLocked,
        CxError::NotUnlocked => StatusWord::EccNotUnlocked,
        CxError::InternalError => StatusWord::EccInternalError,
        CxError::InvalidParameterSize => StatusWord::EccInvalidParameterSize,
        CxError::InvalidParameterValue => StatusWord::EccInvalidParameterValue,
        CxError::InvalidParameter => StatusWord::EccInvalidParameter,
        CxError::NotInvertible => StatusWord::EccNotInvertible,
        CxError::Overflow => StatusWord::EccOverflow,
        CxError::MemoryFull => StatusWord::EccMemoryFull,
        CxError::NoResidue => StatusWord::EccNoResidue,
        CxError::PointAtInfinity => StatusWord::EccPointAtInfinity,
        CxError::InvalidPoint => StatusWord::EccInvalidPoint,
        CxError::InvalidCurve => StatusWord::EccInvalidCurve,
        CxError::GenericError => StatusWord::EccGenericError,
    }
}

/// A status of the device's I/O layer.
#[derive(Clone, Copy, Debug, PartialEq, Eq, Structural)]
pub enum IoStatus {
    Success,
    BadCla,
    NothingReceived,
    BadIns,
    BadP1P2,
    BadLen,
    UserCancelled,
    Unknown,
    Panic,
    DeviceLocked,
}

/// The standard code of an I/O status.
pub open spec fn io_status_code(e: IoStatus) -> u16 {
    match e {
        IoStatus::Success => 0x9000,
        IoStatus::BadCla => 0x6E00,
        IoStatus::NothingReceived => 0x6982,
        IoStatus::BadIns => 0x6E01,
        IoStatus::BadP1P2 => 0x6E02,
        IoStatus::BadLen => 0x6E03,
        IoStatus::UserCancelled => 0x6985,
        IoStatus::Unknown => 0x6D00,
        IoStatus::Panic => 0xE000,
        IoStatus::DeviceLocked => 0x5515,
    }
}

/// The status word of an I/O status: the one with the same code.
pub fn sdk_err_to_status(e: IoStatus) -> (r: StatusWord)
    ensures
        status_code(r) == io_status_code(e),
{
    match e {
        IoStatus::Success => StatusWord::Success,
        IoStatus::BadCla => StatusWord::ClaNotSupported,
        IoStatus::NothingReceived => StatusWord::NothingReceived,
        IoStatus::BadIns => StatusWord::InsNotSupported,
        IoStatus::BadP1P2 => StatusWord::WrongP1P2,
        IoStatus::BadLen => StatusWord::WrongApduLength,
        IoStatus::UserCancelled => StatusWord::Deny,
        IoStatus::Unknown => StatusWord::Unknown,
        IoStatus::Panic => StatusWord::Panic,
        IoStatus::DeviceLocked => StatusWord::DeviceLocked,
    }
}

} // verus!
