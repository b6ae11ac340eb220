//! Application status words: the two-byte codes sent back to the host.

use vstd::prelude::*;

verus! {

/// Application status words.
#[derive(Clone, Copy, Debug, PartialEq, Eq, Structural)]
pub enum StatusWord {
    /// Success (0x9000).
    Success,
    /// Nothing received (0x6982).
    NothingReceived,
    /// User cancelled (0x6985).
    Deny,
    /// CLA not supported (0x6E00).
    ClaNotSupported,
    /// Instruction not supported (0x6E01).
    InsNotSupported,
    /// Wrong P1/P2 parameters (0x6E02).
    WrongP1P2,
    /// Wrong APDU length (0x6E03).
    WrongApduLength,
    /// Unknown (0x6D00).
    Unknown,
    /// Panic (0xE000).
    Panic,
    /// Device locked (0x5515).
    DeviceLocked,
    /// Transaction display failed (0xB000).
    TxDisplayFail,
    /// Transaction lock time value is invalid (0xB001).
    TxLockTimeInvalid,
    /// Transaction wrong length (0xB002).
    TxWrongLength,
    /// Hashing failed (0xB003).
    TxHashFail,
    /// Address encoding failed (0xB004).
    TxAddressFail,
    /// Different instruction than expected (0xB005).
    WrongInstruction,
    /// Key derivation failed (0xB006).
    KeyDeriveFail,
    /// Orders V0 not supported (0xB007).
    OrdersV0NotSupported,
    /// Wrong context (0xB008).
    WrongContext,
    /// Deserialization failed (0xB009).
    DeserializeFail,
    /// Invalid input UTXO (0xB00A).
    TxInvalidInputUtxo,
    /// Numeric operation failed (0xB00B).
    TxNumericOperationFail,
    /// Tx fee underflow (0xB00C).
    TxFeeUnderflow,
    /// Invalid data (0xB00D).
    InvalidData,
    /// Nothing to sign (0xB00E).
    NothingToSign,
    /// Transaction already finished (0xB00F).
    TxAlreadyFinished,
    /// Invalid path (0xB010).
    InvalidPath,
    /// Invalid uncompressed public key (0xB011).
    InvalidUncompressedPublicKey,
    /// Max buffer length exceeded (0xB012).
    MaxBufferLenExceeded,
    /// Different input commitment hash (0xB013).
    DifferentInputCommitmentHash,
    /// Invalid timestamp (0xB014).
    InvalidTimestamp,
    /// Signature for FillOrder input requested (0xB015).
    FillOrderSigRequested,
    /// Transaction has zero inputs (0xB016).
    TxWithZeroInputs,
    /// ECC Carry (0xB100).
    EccCarry,
    /// ECC Locked (0xB101).
    EccLocked,
    /// ECC Unlocked (0xB102).
    EccUnlocked,
    /// ECC Not Locked (0xB103).
    EccNotLocked,
    /// ECC Not Unlocked (0xB104).
    EccNotUnlocked,
    /// ECC Internal Error (0xB105).
    EccInternalError,
    /// ECC Invalid Parameter Size (0xB106).
    EccInvalidParameterSize,
    /// ECC Invalid Parameter Value (0xB107).
    EccInvalidParameterValue,
    /// ECC Invalid Parameter (0xB108).
    EccInvalidParameter,
    /// ECC Not Invertible (0xB109).
    EccNotInvertible,
    /// ECC Overflow (0xB10A).
    EccOverflow,
    /// ECC Memory Full (0xB10B).
    EccMemoryFull,
    /// ECC No Residue (0xB10C).
    EccNoResidue,
    /// ECC Point At Infinity (0xB10D).
    EccPointAtInfinity,
    /// ECC Invalid Point (0xB10E).
    EccInvalidPoint,
    /// ECC Invalid Curve (0xB10F).
    EccInvalidCurve,
    /// ECC Generic Error (0xB110).
    EccGenericError,
}

/// The two-byte code of a status word.
pub open spec fn status_code(sw: StatusWord) -> u16 {
    match sw {
        StatusWord::Success => 0x9000u16,
        StatusWord::NothingReceived => 0x6982u16,
        StatusWord::Deny => 0x6985u16,
        StatusWord::ClaNotSupported => 0x6E00u16,
        StatusWord::InsNotSupported => 0x6E01u16,
        StatusWord::WrongP1P2 => 0x6E02u16,
        StatusWord::WrongApduLength => 0x6E03u16,
        StatusWord::Unknown => 0x6D00u16,
        StatusWord::Panic => 0xE000u16,
        StatusWord::DeviceLocked => 0x5515u16,
        StatusWord::TxDisplayFail => 0xB000u16,
        StatusWord::TxLockTimeInvalid => 0xB001u16,
        StatusWord::TxWrongLength => 0xB002u16,
        StatusWord::TxHashFail => 0xB003u16,
        StatusWord::TxAddressFail => 0xB004u16,
        StatusWord::WrongInstruction => 0xB005u16,
        StatusWord::KeyDeriveFail => 0xB006u16,
        StatusWord::OrdersV0NotSupported => 0xB007u16,
        StatusWord::WrongContext => 0xB008u16,
        StatusWord::DeserializeFail => 0xB009u16,
        StatusWord::TxInvalidInputUtxo => 0xB00Au16,
        StatusWord::TxNumericOperationFail => 0xB00Bu16,
        StatusWord::TxFeeUnderflow => 0xB00Cu16,
        StatusWord::InvalidData => 0xB00Du16,
        StatusWord::NothingToSign => 0xB00Eu16,
        StatusWord::TxAlreadyFinished => 0xB00Fu16,
        StatusWord::InvalidPath => 0xB010u16,
        StatusWord::InvalidUncompressedPublicKey => 0xB011u16,
        StatusWord::MaxBufferLenExceeded => 0xB012u16,
        StatusWord::DifferentInputCommitmentHash => 0xB013u16,
        StatusWord::InvalidTimestamp => 0xB014u16,
        StatusWord::FillOrderSigRequested => 0xB015u16,
        StatusWord::TxWithZeroInputs => 0xB016u16,
        StatusWord::EccCarry => 0xB100u16,
        StatusWord::EccLocked => 0xB101u16,
        StatusWord::EccUnlocked => 0xB102u16,
        StatusWord::EccNotLocked => 0xB103u16,
        StatusWord::EccNotUnlocked => 0xB104u16,
        StatusWord::EccInternalError => 0xB105u16,
        StatusWord::EccInvalidParameterSize => 0xB106u16,
        StatusWord::EccInvalidParameterValue => 0xB107u16,
        StatusWord::EccInvalidParameter => 0xB108u16,
        StatusWord::EccNotInvertible => 0xB109u16,
        StatusWord::EccOverflow => 0xB10Au16,
        StatusWord::EccMemoryFull => 0xB10Bu16,
        StatusWord::EccNoResidue => 0xB10Cu16,
        StatusWord::EccPointAtInfinity => 0xB10Du16,
        StatusWord::EccInvalidPoint => 0xB10Eu16,
        StatusWord::EccInvalidCurve => 0xB10Fu16,
        StatusWord::EccGenericError => 0xB110u16,
    }
}

/// The status word that a two-byte code names, if any.
pub open spec fn status_from_code(code: u16) -> Option<StatusWord> {
    if code == 0x9000u16 {
        Some(StatusWord::Success)
    } else if code == 0x6982u16 {
        Some(StatusWord::NothingReceived)
    } else if code == 0x6985u16 {
        Some(StatusWord::Deny)
    } else if code == 0x6E00u16 {
        Some(StatusWord::ClaNotSupported)
    } else if code == 0x6E01u16 {
        Some(StatusWord::InsNotSupported)
    } else if code == 0x6E02u16 {
        Some(StatusWord::WrongP1P2)
    } else if code == 0x6E03u16 {
        Some(StatusWord::WrongApduLength)
    } else if code == 0x6D00u16 {
        Some(StatusWord::Unknown)
    } else if code == 0xE000u16 {
        Some(StatusWord::Panic)
    } else if code == 0x5515u16 {
        Some(StatusWord::DeviceLocked)
    } else if code == 0xB000u16 {
        Some(StatusWord::TxDisplayFail)
    } else if code == 0xB001u16 {
        Some(StatusWord::TxLockTimeInvalid)
    } else if code == 0xB002u16 {
        Some(StatusWord::TxWrongLength)
    } else if code == 0xB003u16 {
        Some(StatusWord::TxHashFail)
    } else if code == 0xB004u16 {
        Some(StatusWord::TxAddressFail)
    } else if code == 0xB005u16 {
        Some(StatusWord::WrongInstruction)
    } else if code == 0xB006u16 {
        Some(StatusWord::KeyDeriveFail)
    } else if code == 0xB007u16 {
        Some(StatusWord::OrdersV0NotSupported)
    } else if code == 0xB008u16 {
        Some(StatusWord::WrongContext)
    } else if code == 0xB009u16 {
        Some(StatusWord::DeserializeFail)
    } else if code == 0xB00Au16 {
        Some(StatusWord::TxInvalidInputUtxo)
    } else if code == 0xB00Bu16 {
        Some(StatusWord::TxNumericOperationFail)
    } else if code == 0xB00Cu16 {
        Some(StatusWord::TxFeeUnderflow)
    } else if code == 0xB00Du16 {
        Some(StatusWord::InvalidData)
    } else if code == 0xB00Eu16 {
        Some(StatusWord::NothingToSign)
    } else if code == 0xB00Fu16 {
        Some(StatusWord::TxAlreadyFinished)
    } else if code == 0xB010u16 {
        Some(StatusWord::InvalidPath)
    } else if code == 0xB011u16 {
        Some(StatusWord::InvalidUncompressedPublicKey)
    } else if code == 0xB012u16 {
        Some(StatusWord::MaxBufferLenExceeded)
    } else if code == 0xB013u16 {
        Some(StatusWord::DifferentInputCommitmentHash)
    } else if code == 0xB014u16 {
        Some(StatusWord::InvalidTimestamp)
    } else if code == 0xB015u16 {
        Some(StatusWord::FillOrderSigRequested)
    } else if code == 0xB016u16 {
        Some(StatusWord::TxWithZeroInputs)
    } else if code == 0xB100u16 {
        Some(StatusWord::EccCarry)
    } else if code == 0xB101u16 {
        Some(StatusWord::EccLocked)
    } else if code == 0xB102u16 {
        Some(StatusWord::EccUnlocked)
    } else if code == 0xB103u16 {
        Some(StatusWord::EccNotLocked)
    } else if code == 0xB104u16 {
        Some(StatusWord::EccNotUnlocked)
    } else if code == 0xB105u16 {
        Some(StatusWord::EccInternalError)
    } else if code == 0xB106u16 {
        Some(StatusWord::EccInvalidParameterSize)
    } else if code == 0xB107u16 {
        Some(StatusWord::EccInvalidParameterValue)
    } else if code == 0xB108u16 {
        Some(StatusWord::EccInvalidParameter)
    } else if code == 0xB109u16 {
        Some(StatusWord::EccNotInvertible)
    } else if code == 0xB10Au16 {
        Some(StatusWord::EccOverflow)
    } else if code == 0xB10Bu16 {
        Some(StatusWord::EccMemoryFull)
    } else if code == 0xB10Cu16 {
        Some(StatusWord::EccNoResidue)
    } else if code == 0xB10Du16 {
        Some(StatusWord::EccPointAtInfinity)
    } else if code == 0xB10Eu16 {
        Some(StatusWord::EccInvalidPoint)
    } else if code == 0xB10Fu16 {
        Some(StatusWord::EccInvalidCurve)
    } else if code == 0xB110u16 {
        Some(StatusWord::EccGenericError)
    } else {
        None
    }
}

impl StatusWord {
    /// The two-byte code sent to the host.
    pub fn code(self) -> (c: u16)
        ensures
            c == status_code(self),
    {
        match self {
            StatusWord::Success => 0x9000,
            StatusWord::NothingReceived => 0x6982,
            StatusWord::Deny => 0x6985,
            StatusWord::ClaNotSupported => 0x6E00,
            StatusWord::InsNotSupported => 0x6E01,
            StatusWord::WrongP1P2 => 0x6E02,
            StatusWord::WrongApduLength => 0x6E03,
            StatusWord::Unknown => 0x6D00,
            StatusWord::Panic => 0xE000,
            StatusWord::DeviceLocked => 0x5515,
            StatusWord::TxDisplayFail => 0xB000,
            StatusWord::TxLockTimeInvalid => 0xB001,
            StatusWord::TxWrongLength => 0xB002,
            StatusWord::TxHashFail => 0xB003,
            StatusWord::TxAddressFail => 0xB004,
            StatusWord::WrongInstruction => 0xB005,
            StatusWord::KeyDeriveFail => 0xB006,
            StatusWord::OrdersV0NotSupported => 0xB007,
            StatusWord::WrongContext => 0xB008,
            StatusWord::DeserializeFail => 0xB009,
            StatusWord::TxInvalidInputUtxo => 0xB00A,
            StatusWord::TxNumericOperationFail => 0xB00B,
            StatusWord::TxFeeUnderflow => 0xB00C,
            StatusWord::InvalidData => 0xB00D,
            StatusWord::NothingToSign => 0xB00E,
            StatusWord::TxAlreadyFinished => 0xB00F,
            StatusWord::InvalidPath => 0xB010,
            StatusWord::InvalidUncompressedPublicKey => 0xB011,
            StatusWord::MaxBufferLenExceeded => 0xB012,
            StatusWord::DifferentInputCommitmentHash => 0xB013,
            StatusWord::InvalidTimestamp => 0xB014,
            StatusWord::FillOrderSigRequested => 0xB015,
            StatusWord::TxWithZeroInputs => 0xB016,
            StatusWord::EccCarry => 0xB100,
            StatusWord::EccLocked => 0xB101,
            StatusWord::EccUnlocked => 0xB102,
            StatusWord::EccNotLocked => 0xB103,
            StatusWord::EccNotUnlocked => 0xB104,
            StatusWord::EccInternalError => 0xB105,
            StatusWord::EccInvalidParameterSize => 0xB106,
            StatusWord::EccInvalidParameterValue => 0xB107,
            StatusWord::EccInvalidParameter => 0xB108,
            StatusWord::EccNotInvertible => 0xB109,
            StatusWord::EccOverflow => 0xB10A,
            StatusWord::EccMemoryFull => 0xB10B,
            StatusWord::EccNoResidue => 0xB10C,
            StatusWord::EccPointAtInfinity => 0xB10D,
            StatusWord::EccInvalidPoint => 0xB10E,
            StatusWord::EccInvalidCurve => 0xB10F,
            StatusWord::EccGenericError => 0xB110,
        }
    }

    /// The status word with the given code, if the code names one.
    pub fn from_code(code: u16) -> (r: Option<StatusWord>)
        ensures
            r == status_from_code(code),
    {
        match code {
            0x9000 => Some(StatusWord::Success),
            0x6982 => Some(StatusWord::NothingReceived),
            0x6985 => Some(StatusWord::Deny),
            0x6E00 => Some(StatusWord::ClaNotSupported),
            0x6E01 => Some(StatusWord::InsNotSupported),
            0x6E02 => Some(StatusWord::WrongP1P2),
            0x6E03 => Some(StatusWord::WrongApduLength),
            0x6D00 => Some(StatusWord::Unknown),
            0xE000 => Some(StatusWord::Panic),
            0x5515 => Some(StatusWord::DeviceLocked),
            0xB000 => Some(StatusWord::TxDisplayFail),
            0xB001 => Some(StatusWord::TxLockTimeInvalid),
            0xB002 => Some(StatusWord::TxWrongLength),
            0xB003 => Some(StatusWord::TxHashFail),
            0xB004 => Some(StatusWord::TxAddressFail),
            0xB005 => Some(StatusWord::WrongInstruction),
            0xB006 => Some(StatusWord::KeyDeriveFail),
            0xB007 => Some(StatusWord::OrdersV0NotSupported),
            0xB008 => Some(StatusWord::WrongContext),
            0xB009 => Some(StatusWord::DeserializeFail),
            0xB00A => Some(StatusWord::TxInvalidInputUtxo),
            0xB00B => Some(StatusWord::TxNumericOperationFail),
            0xB00C => Some(StatusWord::TxFeeUnderflow),
            0xB00D => Some(StatusWord::InvalidData),
            0xB00E => Some(StatusWord::NothingToSign),
            0xB00F => Some(StatusWord::TxAlreadyFinished),
            0xB010 => Some(StatusWord::InvalidPath),
            0xB011 => Some(StatusWord::InvalidUncompressedPublicKey),
            0xB012 => Some(StatusWord::MaxBufferLenExceeded),
            0xB013 => Some(StatusWord::DifferentInputCommitmentHash),
            0xB014 => Some(StatusWord::InvalidTimestamp),
            0xB015 => Some(StatusWord::FillOrderSigRequested),
            0xB016 => Some(StatusWord::TxWithZeroInputs),
            0xB100 => Some(StatusWord::EccCarry),
            0xB101 => Some(StatusWord::EccLocked),
            0xB102 => Some(StatusWord::EccUnlocked),
            0xB103 => Some(StatusWord::EccNotLocked),
            0xB104 => Some(StatusWord::EccNotUnlocked),
            0xB105 => Some(StatusWord::EccInternalError),
            0xB106 => Some(StatusWord::EccInvalidParameterSize),
            0xB107 => Some(StatusWord::EccInvalidParameterValue),
            0xB108 => Some(StatusWord::EccInvalidParameter),
            0xB109 => Some(StatusWord::EccNotInvertible),
            0xB10A => Some(StatusWord::EccOverflow),
            0xB10B => Some(StatusWord::EccMemoryFull),
            0xB10C => Some(StatusWord::EccNoResidue),
            0xB10D => Some(StatusWord::EccPointAtInfinity),
            0xB10E => Some(StatusWord::EccInvalidPoint),
            0xB10F => Some(StatusWord::EccInvalidCurve),
            0xB110 => Some(StatusWord::EccGenericError),
            _ => None,
        }
    }

    /// A short human-readable description of the status word.
    pub fn description(self) -> (r: &'static str)
        ensures
            r@ == spec_description(self),
    {
        match self {
            StatusWord::Success => "Success",
            StatusWord::NothingReceived => "Nothing received",
            StatusWord::Deny => "User cancelled",
            StatusWord::ClaNotSupported => "CLA not supported",
            StatusWord::InsNotSupported => "Instruction not supported",
            StatusWord::WrongP1P2 => "Wrong P1/P2 parameters",
            StatusWord::WrongApduLength => "Wrong APDU length",
            StatusWord::Unknown => "Unknown",
            StatusWord::Panic => "Panic",
            StatusWord::DeviceLocked => "Device locked",
            StatusWord::TxDisplayFail => "Transaction display failed",
            StatusWord::TxLockTimeInvalid => "Transaction lock time value is invalid",
            StatusWord::TxWrongLength => "Transaction wrong length",
            StatusWord::TxHashFail => "Hashing failed",
            StatusWord::TxAddressFail => "Address encoding failed",
            StatusWord::WrongInstruction => "Different instruction than expected",
            StatusWord::KeyDeriveFail => "Key derivation failed",
            StatusWord::OrdersV0NotSupported => "Orders V0 not supported",
            StatusWord::WrongContext => "Wrong context",
            StatusWord::DeserializeFail => "Deserialization failed",
            StatusWord::TxInvalidInputUtxo => "Invalid input UTXO",
            StatusWord::TxNumericOperationFail => "Numeric operation failed",
            StatusWord::TxFeeUnderflow => "Tx fee underflow",
            StatusWord::InvalidData => "Invalid data",
            StatusWord::NothingToSign => "Nothing to sign",
            StatusWord::TxAlreadyFinished => "Transaction already finished",
            StatusWord::InvalidPath => "Invalid path",
            StatusWord::InvalidUncompressedPublicKey => "Invalid uncompressed public key",
            StatusWord::MaxBufferLenExceeded => "Max buffer length exceeded",
            StatusWord::DifferentInputCommitmentHash => "Different input commitment hash",
            StatusWord::InvalidTimestamp => "Invalid timestamp",
            StatusWord::FillOrderSigRequested => "Signature for FillOrder input requested",
            StatusWord::TxWithZeroInputs => "Transaction has zero inputs",
            StatusWord::EccCarry => "ECC Carry",
            StatusWord::EccLocked => "ECC Locked",
            StatusWord::EccUnlocked => "ECC Unlocked",
            StatusWord::EccNotLocked => "ECC Not Locked",
            StatusWord::EccNotUnlocked => "ECC Not Unlocked",
            StatusWord::EccInternalError => "ECC Internal Error",
            StatusWord::EccInvalidParameterSize => "ECC Invalid Parameter Size",
            StatusWord::EccInvalidParameterValue => "ECC Invalid Parameter Value",
            StatusWord::EccInvalidParameter => "ECC Invalid Parameter",
            StatusWord::EccNotInvertible => "ECC Not Invertible",
            StatusWord::EccOverflow => "ECC Overflow",
            StatusWord::EccMemoryFull => "ECC Memory Full",
            StatusWord::EccNoResidue => "ECC No Residue",
            StatusWord::EccPointAtInfinity => "ECC Point At Infinity",
            StatusWord::EccInvalidPoint => "ECC Invalid Point",
            StatusWord::EccInvalidCurve => "ECC Invalid Curve",
            StatusWord::EccGenericError => "ECC Generic Error",
        }
    }
}

/// The description of a status word.
pub open spec fn spec_description(sw: StatusWord) -> Seq<char> {
    match sw {
        StatusWord::Success => "Success"@,
        StatusWord::NothingReceived => "Nothing received"@,
        StatusWord::Deny => "User cancelled"@,
        StatusWord::ClaNotSupported => "CLA not supported"@,
        StatusWord::InsNotSupported => "Instruction not supported"@,
        StatusWord::WrongP1P2 => "Wrong P1/P2 parameters"@,
        StatusWord::WrongApduLength => "Wrong APDU length"@,
        StatusWord::Unknown => "Unknown"@,
        StatusWord::Panic => "Panic"@,
        StatusWord::DeviceLocked => "Device locked"@,
        StatusWord::TxDisplayFail => "Transaction display failed"@,
        StatusWord::TxLockTimeInvalid => "Transaction lock time value is invalid"@,
        StatusWord::TxWrongLength => "Transaction wrong length"@,
        StatusWord::TxHashFail => "Hashing failed"@,
        StatusWord::TxAddressFail => "Address encoding failed"@,
        StatusWord::WrongInstruction => "Different instruction than expected"@,
        StatusWord::KeyDeriveFail => "Key derivation failed"@,
        StatusWord::OrdersV0NotSupported => "Orders V0 not supported"@,
        StatusWord::WrongContext => "Wrong context"@,
        StatusWord::DeserializeFail => "Deserialization failed"@,
        StatusWord::TxInvalidInputUtxo => "Invalid input UTXO"@,
        StatusWord::TxNumericOperationFail => "Numeric operation failed"@,
        StatusWord::TxFeeUnderflow => "Tx fee underflow"@,
        StatusWord::InvalidData => "Invalid data"@,
        StatusWord::NothingToSign => "Nothing to sign"@,
        StatusWord::TxAlreadyFinished => "Transaction already finished"@,
        StatusWord::InvalidPath => "Invalid path"@,
        StatusWord::InvalidUncompressedPublicKey => "Invalid uncompressed public key"@,
        StatusWord::MaxBufferLenExceeded => "Max buffer length exceeded"@,
        StatusWord::DifferentInputCommitmentHash => "Different input commitment hash"@,
        StatusWord::InvalidTimestamp => "Invalid timestamp"@,
        StatusWord::FillOrderSigRequested => "Signature for FillOrder input requested"@,
        StatusWord::TxWithZeroInputs => "Transaction has zero inputs"@,
        StatusWord::EccCarry => "ECC Carry"@,
        StatusWord::EccLocked => "ECC Locked"@,
        StatusWord::EccUnlocked => "ECC Unlocked"@,
        StatusWord::EccNotLocked => "ECC Not Locked"@,
        StatusWord::EccNotUnlocked => "ECC Not Unlocked"@,
        StatusWord::EccInternalError => "ECC Internal Error"@,
        StatusWord::EccInvalidParameterSize => "ECC Invalid Parameter Size"@,
        StatusWord::EccInvalidParameterValue => "ECC Invalid Parameter Value"@,
        StatusWord::EccInvalidParameter => "ECC Invalid Parameter"@,
        StatusWord::EccNotInvertible => "ECC Not Invertible"@,
        StatusWord::EccOverflow => "ECC Overflow"@,
        StatusWord::EccMemoryFull => "ECC Memory Full"@,
        StatusWord::EccNoResidue => "ECC No Residue"@,
        StatusWord::EccPointAtInfinity => "ECC Point At Infinity"@,
        StatusWord::EccInvalidPoint => "ECC Invalid Point"@,
        StatusWord::EccInvalidCurve => "ECC Invalid Curve"@,
        StatusWord::EccGenericError => "ECC Generic Error"@,
    }
}

/// Reading back the code of a status word gives the same status word.
pub proof fn lemma_status_code_roundtrip(sw: StatusWord)
    ensures
        status_from_code(status_code(sw)) == Some(sw),
{
}

/// A code that names a status word is that status word's code.
pub proof fn lemma_status_code_injective(code: u16)
    ensures
        status_from_code(code) matches Some(sw) ==> status_code(sw) == code,
{
}

} // verus!
