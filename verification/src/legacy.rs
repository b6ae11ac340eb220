//! Messages of the first protocol version (before `GET_PUB_KEY` took its
//! current form), kept for hosts that still speak it, and the version
//! number of the application.

use vstd::prelude::*;
use vstd::string::StrSliceExecFns;

use crate::derivation::DERIV_PATH_BIP44_ITEM;
use crate::errors::{cx_error_index, CxError};
use crate::messages::{AddrType, Bip32Path, InputAddressPath};
use crate::primitives::{spec_coin_path, CoinType, H256};
use crate::sign_message::spec_compressed_key;

verus! {

/// The status words of the first protocol version.
#[derive(Clone, Copy, Debug, PartialEq, Eq, Structural)]
pub enum StatusWord {
    /// Success (0x9000).
    Success,
    /// The user refused (0x6985).
    Deny,
    /// Class not supported (0x6E00).
    ClaNotSupported,
    /// Wrong parameter bytes (0x6E02).
    WrongP1P2,
    /// Instruction not supported (0x6E01).
    InsNotSupported,
    /// Wrong APDU length (0x6E03).
    WrongApduLength,
    /// A transaction could not be shown (0xB000).
    TxDisplayFail,
    /// An address could not be shown (0xB001).
    AddrDisplayFail,
    /// Wrong transaction length (0xB002).
    TxWrongLength,
    /// A transaction could not be parsed (0xB003).
    TxParsingFail,
    /// Hashing failed (0xB004).
    TxHashFail,
    /// Address encoding failed (0xB005).
    TxAddressFail,
    /// Signing failed (0xB006).
    TxSignFail,
    /// Key derivation failed (0xB007).
    KeyDeriveFail,
    /// The version could not be parsed (0xB008).
    VersionParsingFail,
    /// A request that the current state does not take (0xB009).
    WrongContext,
    /// A request could not be decoded (0xB00A).
    DeserializeFail,
    /// An input spends an output it cannot (0xB00B).
    TxInvalidInputUtxo,
    /// An amount over- or underflowed (0xB00C).
    TxNumericOperationFail,
    /// An input kind that is not supported (0xB00D).
    TxUnsupportedInput,
    /// A token of the first token version (0xB00E).
    TxInvalidTokenV0,
    /// An input's path is not a signing path of the network (0xB00F).
    TxInvalidInputPath,
    /// No input to sign (0xB010).
    NothingToSign,
    /// Signing is over (0xB011).
    TxAlreadyFinished,
    /// A path the application does not take (0xB012).
    InvalidPath,
    /// A key that is not an uncompressed key (0xB013).
    InvalidUncompressedPublicKey,
    /// An instruction longer than the buffer (0xB014).
    MaxBufferLenExceeded,
    /// The cryptography error `Carry` (0xB100).
    EccCarry,
    /// The cryptography error `Locked` (0xB101).
    EccLocked,
    /// The cryptography error `Unlocked` (0xB102).
    EccUnlocked,
    /// The cryptography error `NotLocked` (0xB103).
    EccNotLocked,
    /// The cryptography error `NotUnlocked` (0xB104).
    EccNotUnlocked,
    /// The cryptography error `InternalError` (0xB105).
    EccInternalError,
    /// The cryptography error `InvalidParameterSize` (0xB106).
    EccInvalidParameterSize,
    /// The cryptography error `InvalidParameterValue` (0xB107).
    EccInvalidParameterValue,
    /// The cryptography error `InvalidParameter` (0xB108).
    EccInvalidParameter,
    /// The cryptography error `NotInvertible` (0xB109).
    EccNotInvertible,
    /// The cryptography error `Overflow` (0xB10A).
    EccOverflow,
    /// The cryptography error `MemoryFull` (0xB10B).
    EccMemoryFull,
    /// The cryptography error `NoResidue` (0xB10C).
    EccNoResidue,
    /// The cryptography error `PointAtInfinity` (0xB10D).
    EccPointAtInfinity,
    /// The cryptography error `InvalidPoint` (0xB10E).
    EccInvalidPoint,
    /// The cryptography error `InvalidCurve` (0xB10F).
    EccInvalidCurve,
    /// The cryptography error `GenericError` (0xB110).
    EccGenericError,
}

/// The code of a status word of the first protocol version.
pub open spec fn spec_status_code(sw: StatusWord) -> u16 {
    match sw {
        StatusWord::Success => 0x9000u16,
        StatusWord::Deny => 0x6985u16,
        StatusWord::ClaNotSupported => 0x6E00u16,
        StatusWord::WrongP1P2 => 0x6E02u16,
        StatusWord::InsNotSupported => 0x6E01u16,
        StatusWord::WrongApduLength => 0x6E03u16,
        StatusWord::TxDisplayFail => 0xB000u16,
        StatusWord::AddrDisplayFail => 0xB001u16,
        StatusWord::TxWrongLength => 0xB002u16,
        StatusWord::TxParsingFail => 0xB003u16,
        StatusWord::TxHashFail => 0xB004u16,
        StatusWord::TxAddressFail => 0xB005u16,
        StatusWord::TxSignFail => 0xB006u16,
        StatusWord::KeyDeriveFail => 0xB007u16,
        StatusWord::VersionParsingFail => 0xB008u16,
        StatusWord::WrongContext => 0xB009u16,
        StatusWord::DeserializeFail => 0xB00Au16,
        StatusWord::TxInvalidInputUtxo => 0xB00Bu16,
        StatusWord::TxNumericOperationFail => 0xB00Cu16,
        StatusWord::TxUnsupportedInput => 0xB00Du16,
        StatusWord::TxInvalidTokenV0 => 0xB00Eu16,
        StatusWord::TxInvalidInputPath => 0xB00Fu16,
        StatusWord::NothingToSign => 0xB010u16,
        StatusWord::TxAlreadyFinished => 0xB011u16,
        StatusWord::InvalidPath => 0xB012u16,
        StatusWord::InvalidUncompressedPublicKey => 0xB013u16,
        StatusWord::MaxBufferLenExceeded => 0xB014u16,
        StatusWord::EccCarry => 0xB100u16,
        StatusWord::EccLocked => 0xB101u16,
        StatusWord::EccUnlocked => 0xB102u16,
        StatusWord::EccNotLocked => 0xB103u16,
        StatusWord::EccNotUnlocked => 0xB104u16,
        StatusWord::EccInternalError => 0xB105u16,
        StatusWord::EccInvalidParameterSize => 0xB106u16,
        StatusWord::EccInvalidParameterValue => 0xB107u16,
        StatusWord::EccInvalidParameter => 0xB108u16,
        StatusWord::EccNotInvertible => 0xB109u16,
        StatusWord::EccOverflow => 0xB10Au16,
        StatusWord::EccMemoryFull => 0xB10Bu16,
        StatusWord::EccNoResidue => 0xB10Cu16,
        StatusWord::EccPointAtInfinity => 0xB10Du16,
        StatusWord::EccInvalidPoint => 0xB10Eu16,
        StatusWord::EccInvalidCurve => 0xB10Fu16,
        StatusWord::EccGenericError => 0xB110u16,
    }
}

impl StatusWord {
    /// The code the device answers with.
    pub fn code(&self) -> (r: u16)
        ensures
            r == spec_status_code(*self),
    {
        match self {
            StatusWord::Success => 0x9000,
            StatusWord::Deny => 0x6985,
            StatusWord::ClaNotSupported => 0x6E00,
            StatusWord::WrongP1P2 => 0x6E02,
            StatusWord::InsNotSupported => 0x6E01,
            StatusWord::WrongApduLength => 0x6E03,
            StatusWord::TxDisplayFail => 0xB000,
            StatusWord::AddrDisplayFail => 0xB001,
            StatusWord::TxWrongLength => 0xB002,
            StatusWord::TxParsingFail => 0xB003,
            StatusWord::TxHashFail => 0xB004,
            StatusWord::TxAddressFail => 0xB005,
            StatusWord::TxSignFail => 0xB006,
            StatusWord::KeyDeriveFail => 0xB007,
            StatusWord::VersionParsingFail => 0xB008,
            StatusWord::WrongContext => 0xB009,
            StatusWord::DeserializeFail => 0xB00A,
            StatusWord::TxInvalidInputUtxo => 0xB00B,
            StatusWord::TxNumericOperationFail => 0xB00C,
            StatusWord::TxUnsupportedInput => 0xB00D,
            StatusWord::TxInvalidTokenV0 => 0xB00E,
            StatusWord::TxInvalidInputPath => 0xB00F,
            StatusWord::NothingToSign => 0xB010,
            StatusWord::TxAlreadyFinished => 0xB011,
            StatusWord::InvalidPath => 0xB012,
            StatusWord::InvalidUncompressedPublicKey => 0xB013,
            StatusWord::MaxBufferLenExceeded => 0xB014,
            StatusWord::EccCarry => 0xB100,
            StatusWord::EccLocked => 0xB101,
            StatusWord::EccUnlocked => 0xB102,
            StatusWord::EccNotLocked => 0xB103,
            StatusWord::EccNotUnlocked => 0xB104,
            StatusWord::EccInternalError => 0xB105,
            StatusWord::EccInvalidParameterSize => 0xB106,
            StatusWord::EccInvalidParameterValue => 0xB107,
            StatusWord::EccInvalidParameter => 0xB108,
            StatusWord::EccNotInvertible => 0xB109,
            StatusWord::EccOverflow => 0xB10A,
            StatusWord::EccMemoryFull => 0xB10B,
            StatusWord::EccNoResidue => 0xB10C,
            StatusWord::EccPointAtInfinity => 0xB10D,
            StatusWord::EccInvalidPoint => 0xB10E,
            StatusWord::EccInvalidCurve => 0xB10F,
            StatusWord::EccGenericError => 0xB110,
        }
    }
}

/// The status word of a wrong parameter byte.
pub fn from_wrong_p1p2(_e: WrongP1P2) -> (r: StatusWord)
    ensures
        r == StatusWord::WrongP1P2,
{
    StatusWord::WrongP1P2
}

/// The status word of a cryptography error: the error's own one.
pub fn from_cx_error(e: CxError) -> (r: StatusWord)
    ensures
        spec_status_code(r) == 0xB100 + cx_error_index(e),
{
    match e {
        CxError::Carry => StatusWord::EccCarry,
        CxError::Locked => StatusWord::EccLocked,
        CxError::Unlocked => StatusWord::EccUnlocked,
        CxError::NotLocked => StatusWord::EccNotLocked,
        CxError::NotUnlocked => StatusWord::EccNotUnlocked,
        CxError::InternalError => StatusWord::EccInternalError,
        CxError::InvalidParameterSize => StatusWord::EccInvalidParameterSize,
        CxError::InvalidParameterValue => StatusWord::EccInvalidParameterValue,
        CxError::InvalidParameter => StatusWord::EccInvalidParameter,
        CxError::NotInvertible => StatusWord::EccNotInvertible,
        CxError::Overflow => StatusWord::EccOverflow,
        CxError::MemoryFull => StatusWord::EccMemoryFull,
        CxError::NoResidue => StatusWord::EccNoResidue,
        CxError::PointAtInfinity => StatusWord::EccPointAtInfinity,
        CxError::InvalidPoint => StatusWord::EccInvalidPoint,
        CxError::InvalidCurve => StatusWord::EccInvalidCurve,
        CxError::GenericError => StatusWord::EccGenericError,
    }
}

/// Compresses an uncompressed public key `04 || x || y`; `AddrDisplayFail`
/// unless it starts with `04`.
pub fn compress_public_key(uncompressed_key: &[u8; 65]) -> (r: Result<[u8; 33], StatusWord>)
    ensures
        r is Ok <==> uncompressed_key@[0] == 4,
        r matches Ok(k) ==> k@ == spec_compressed_key(uncompressed_key@),
        r is Err ==> r == Err::<[u8; 33], StatusWord>(StatusWord::AddrDisplayFail),
{
    match crate::sign_message::compress_public_key(uncompressed_key) {
        Ok(k) => Ok(k.0),
        Err(_) => Err(StatusWord::AddrDisplayFail),
    }
}

/// The instruction codes of the first protocol version.
pub struct Ins {}

impl Ins {
    pub const PUB_KEY: u8 = 0x00;
    pub const SIGN_TX: u8 = 0x01;
    pub const SIGN_MSG: u8 = 0x02;
}

/// A parameter byte that is not one of those an instruction takes.
#[derive(Clone, Copy, Debug, PartialEq, Eq, Structural)]
pub struct WrongP1P2;

/// The error for an unknown parameter byte.
pub fn wrong_p1p2(_value: u8) -> (r: WrongP1P2)
    ensures
        r == WrongP1P2,
{
    WrongP1P2
}

/// Parameter 1 of the public key instruction: whether to show the address.
#[derive(Clone, Copy, Debug, PartialEq, Eq, Structural)]
pub enum PubKeyP1 {
    NoDisplayAddress,
    DisplayAddress,
}

impl PubKeyP1 {
    /// Reads parameter 1; any byte but 0 and 1 is wrong.
    pub fn from_u8(value: u8) -> (r: Result<PubKeyP1, WrongP1P2>)
        ensures
            value == 0 ==> r == Ok::<PubKeyP1, WrongP1P2>(PubKeyP1::NoDisplayAddress),
            value == 1 ==> r == Ok::<PubKeyP1, WrongP1P2>(PubKeyP1::DisplayAddress),
            value > 1 ==> r is Err,
    {
        match value {
            0 => Ok(PubKeyP1::NoDisplayAddress),
            1 => Ok(PubKeyP1::DisplayAddress),
            _ => Err(wrong_p1p2(value)),
        }
    }

    /// Whether the address is to be shown.
    pub fn display(&self) -> (r: bool)
        ensures
            r == (*self == PubKeyP1::DisplayAddress),
    {
        match self {
            PubKeyP1::DisplayAddress => true,
            PubKeyP1::NoDisplayAddress => false,
        }
    }
}

/// Parameter 1 of the signing instructions: the first request or a next one.
#[derive(Clone, Copy, Debug, PartialEq, Eq, Structural)]
pub enum SignP1 {
    Start,
    Next,
}

impl SignP1 {
    /// Reads parameter 1; any byte but 0 and 1 is wrong.
    pub fn from_u8(value: u8) -> (r: Result<SignP1, WrongP1P2>)
        ensures
            value == 0 ==> r == Ok::<SignP1, WrongP1P2>(SignP1::Start),
            value == 1 ==> r == Ok::<SignP1, WrongP1P2>(SignP1::Next),
            value > 1 ==> r is Err,
    {
        match value {
            0 => Ok(SignP1::Start),
            1 => Ok(SignP1::Next),
            _ => Err(wrong_p1p2(value)),
        }
    }
}

/// Request of a public key.
#[derive(Clone, Debug)]
pub struct PublicKeyReq {
    pub coin_type: CoinType,
    pub path: Bip32Path,
}

/// Request to sign a message.
#[derive(Clone, Debug)]
pub struct SignMessageReq {
    pub coin: CoinType,
    pub addr_type: AddrType,
    pub path: Bip32Path,
}

/// The first request of signing a transaction.
#[derive(Clone, Copy, Debug)]
pub struct TxMetadataReq {
    pub coin: CoinType,
    pub version: u8,
    pub num_inputs: u32,
    pub num_outputs: u32,
}

/// A pre-release tag of a version.
#[derive(Clone, Copy, Debug, PartialEq, Eq)]
pub enum Prerelease {
    Alpha,
    Beta,
}

/// The version of the application.
#[derive(Clone, Debug)]
pub struct GetVersionRespones {
    pub major: u8,
    pub minor: u8,
    pub patch: u8,
    pub prerelease_id: Option<Prerelease>,
    pub build_metadata: Vec<u8>,
}

/// A public key and its chain code.
#[derive(Clone, Copy, Debug)]
pub struct GetPublicKeyRespones {
    pub public_key: [u8; 65],
    pub chain_code: [u8; 32],
}

/// A signature of an input, with its multisig index.
#[derive(Clone, Copy, Debug)]
pub struct Signature {
    pub signature: [u8; 64],
    pub multisig_idx: Option<u32>,
}

/// A signature of a message.
#[derive(Clone, Copy, Debug)]
pub struct MsgSignature {
    pub signature: [u8; 64],
}

/// What comes after an output: the next output, or, after the last, the
/// approval of the transaction whose hash is given.
#[derive(Clone, Copy, Debug, PartialEq, Eq)]
pub enum NextTxOutputParsingState {
    Output(u32),
    CompleteNotApproved { inp_idx: u32, sighash: H256 },
}

/// An input to sign: the varying part of its path, the input and the
/// multisig key.
#[derive(Clone, Copy, Debug)]
pub struct InputCompressed {
    pub path: [u32; 3],
    pub input_idx: u32,
    pub multisig_idx: Option<u32>,
}

impl InputCompressed {
    /// The input to sign with an address path: five indices, the first 44
    /// (hardened), the second the network's coin type; else
    /// `TxInvalidInputPath`. The last three indices are kept.
    pub fn new(addr: &InputAddressPath, input_idx: u32, coin: CoinType) -> (r: Result<
        InputCompressed,
        StatusWord,
    >)
        ensures
            r is Ok <==> addr.path.0@.len() == 5 && addr.path.0@[0] == DERIV_PATH_BIP44_ITEM
                && addr.path.0@[1] == spec_coin_path(coin),
            r matches Ok(c) ==> c.path@ == addr.path.0@.subrange(2, 5) && c.input_idx
                == input_idx && c.multisig_idx == addr.multisig_idx,
            r is Err ==> r == Err::<InputCompressed, StatusWord>(StatusWord::TxInvalidInputPath),
    {
        let path = &addr.path.0;
        if path.len() != 5 {
            return Err(StatusWord::TxInvalidInputPath);
        }
        if path[0] != DERIV_PATH_BIP44_ITEM {
            return Err(StatusWord::TxInvalidInputPath);
        }
        if path[1] != coin.bip44_coin_type() {
            return Err(StatusWord::TxInvalidInputPath);
        }
        let p = [path[2], path[3], path[4]];
        assert(p@ =~= path@.subrange(2, 5));
        Ok(InputCompressed { path: p, input_idx, multisig_idx: addr.multisig_idx })
    }
}

/// The value of decimal digits.
pub open spec fn spec_digits_value(d: Seq<char>) -> nat
    decreases d.len(),
{
    if d.len() == 0 {
        0
    } else {
        spec_digits_value(d.drop_last()) * 10 + ((d.last() as nat) - 48) as nat
    }
}

/// A decimal digit.
pub open spec fn spec_is_digit(c: char) -> bool {
    '0' <= c <= '9'
}

/// The digits of a number without an optional `+` before them.
pub open spec fn spec_strip_plus(p: Seq<char>) -> Seq<char> {
    if p.len() > 0 && p[0] == '+' {
        p.drop_first()
    } else {
        p
    }
}

/// A `u8` written as decimal digits.
pub open spec fn spec_parse_digits(d: Seq<char>) -> Option<u8> {
    if d.len() == 0 || exists|i: int| 0 <= i < d.len() && !spec_is_digit(#[trigger] d[i]) {
        None
    } else if spec_digits_value(d) > 255 {
        None
    } else {
        Some(spec_digits_value(d) as u8)
    }
}

/// A `u8` written in decimal, with an optional `+` before it and any number
/// of leading zeros.
pub open spec fn spec_parse_u8(p: Seq<char>) -> Option<u8> {
    spec_parse_digits(spec_strip_plus(p))
}

/// Whether `end` ends the field that starts at `from`: the first dot at or
/// after `from`, or the end of the string when there is none.
pub open spec fn spec_field_end(s: Seq<char>, from: int, end: int) -> bool {
    &&& from <= end <= s.len()
    &&& forall|j: int| from <= j < end ==> s[j] != '.'
    &&& end == s.len() || s[end] == '.'
}

/// The ends of the first three fields of a version.
pub open spec fn spec_version_ends(s: Seq<char>, e1: int, e2: int, e3: int) -> bool {
    &&& spec_field_end(s, 0, e1)
    &&& e1 < s.len()
    &&& spec_field_end(s, e1 + 1, e2)
    &&& e2 < s.len()
    &&& spec_field_end(s, e2 + 1, e3)
}

/// Major, minor and patch numbers of a version `major.minor.patch`; more
/// fields after them are ignored.
pub open spec fn spec_version(s: Seq<char>) -> Option<(u8, u8, u8)> {
    if exists|e1: int, e2: int, e3: int|
        #[trigger] spec_version_ends(s, e1, e2, e3) {
        let (e1, e2, e3) = choose|e1: int, e2: int, e3: int|
            #[trigger] spec_version_ends(s, e1, e2, e3);
        match (
            spec_parse_u8(s.subrange(0, e1)),
            spec_parse_u8(s.subrange(e1 + 1, e2)),
            spec_parse_u8(s.subrange(e2 + 1, e3)),
        ) {
            (Some(a), Some(b), Some(c)) => Some((a, b, c)),
            _ => None,
        }
    } else {
        None
    }
}

/// The end of the field of `s` that starts at `from`.
fn field_end(s: &str, from: usize, n: usize) -> (r: usize)
    requires
        n == s@.len(),
        from <= n,
    ensures
        spec_field_end(s@, from as int, r as int),
{
    let mut i = from;
    while i < n
        invariant
            n == s@.len(),
            from <= i <= n,
            forall|j: int| from <= j < i ==> s@[j] != '.',
        decreases n - i,
    {
        if s.get_char(i) == '.' {
            return i;
        }
        i += 1;
    }
    i
}

/// The number of at most 256 that stands for a value: values above 255 are
/// all 256.
spec fn capped(v: nat) -> nat {
    if v >= 256 {
        256
    } else {
        v
    }
}

/// Parses the characters of `s` from `from` to `to` as a `u8`.
fn parse_u8_range(s: &str, from: usize, to: usize) -> (r: Option<u8>)
    requires
        from <= to <= s@.len(),
    ensures
        r == spec_parse_u8(s@.subrange(from as int, to as int)),
{
    let ghost p = s@.subrange(from as int, to as int);
    let mut i = from;
    if i < to && s.get_char(i) == '+' {
        i += 1;
    }
    let start = i;
    let ghost d = s@.subrange(start as int, to as int);
    assert(d =~= spec_strip_plus(p));
    if i == to {
        return None;
    }
    let mut acc: u32 = 0;
    while i < to
        invariant
            from <= start <= i <= to <= s@.len(),
            d == s@.subrange(start as int, to as int),
            p == s@.subrange(from as int, to as int),
            d == spec_strip_plus(p),
            d.len() > 0,
            forall|j: int| start <= j < i ==> spec_is_digit(#[trigger] s@[j]),
            acc == capped(spec_digits_value(s@.subrange(start as int, i as int))),
        decreases to - i,
    {
        let c = s.get_char(i);
        if c < '0' || c > '9' {
            proof {
                let k = i - start;
                assert(0 <= k < d.len());
                assert(d[k] == c);
                assert(!spec_is_digit(d[k]));
                assert(exists|k: int| 0 <= k < d.len() && !spec_is_digit(#[trigger] d[k]));
                assert(spec_parse_digits(d) is None);
            }
            return None;
        }
        let dv: u32 = (c as u32) - 48;
        proof {
            let pre = s@.subrange(start as int, i as int);
            let next = s@.subrange(start as int, i + 1);
            assert(next.drop_last() =~= pre);
            assert(spec_digits_value(next) == spec_digits_value(pre) * 10 + dv);
        }
        if acc < 256 {
            acc = acc * 10 + dv;
            if acc > 256 {
                acc = 256;
            }
        }
        i += 1;
    }
    proof {
        assert(s@.subrange(start as int, i as int) =~= d);
        assert forall|k: int| 0 <= k < d.len() implies spec_is_digit(#[trigger] d[k]) by {
            assert(d[k] == s@[start + k]);
        }
    }
    if acc > 255 {
        None
    } else {
        Some(acc as u8)
    }
}

/// Reads `major.minor.patch` (each a `u8`; further fields are ignored).
pub fn parse_version_string(input: &str) -> (r: Option<(u8, u8, u8)>)
    ensures
        r == spec_version(input@),
{
    let n = input.unicode_len();
    let e1 = field_end(input, 0, n);
    if e1 == n {
        proof {
            lemma_no_version(input@, e1 as int, 0);
        }
        return None;
    }
    let e2 = field_end(input, e1 + 1, n);
    if e2 == n {
        proof {
            lemma_no_version(input@, e1 as int, e2 as int);
        }
        return None;
    }
    let e3 = field_end(input, e2 + 1, n);
    proof {
        lemma_field_ends_unique(input@, e1 as int, e2 as int, e3 as int);
    }
    let a = parse_u8_range(input, 0, e1);
    let b = parse_u8_range(input, e1 + 1, e2);
    let c = parse_u8_range(input, e2 + 1, e3);
    match (a, b, c) {
        (Some(a), Some(b), Some(c)) => Some((a, b, c)),
        _ => None,
    }
}

/// A field has one end.
proof fn lemma_field_end_unique(s: Seq<char>, from: int, e: int, f: int)
    requires
        spec_field_end(s, from, e),
        spec_field_end(s, from, f),
    ensures
        e == f,
{
    if e < f {
        assert(s[e] != '.');
    } else if f < e {
        assert(s[f] != '.');
    }
}

/// The three field ends found are those the version's definition chooses.
proof fn lemma_field_ends_unique(s: Seq<char>, e1: int, e2: int, e3: int)
    requires
        spec_field_end(s, 0, e1),
        e1 < s.len(),
        spec_field_end(s, e1 + 1, e2),
        e2 < s.len(),
        spec_field_end(s, e2 + 1, e3),
    ensures
        spec_version(s) == (match (
            spec_parse_u8(s.subrange(0, e1)),
            spec_parse_u8(s.subrange(e1 + 1, e2)),
            spec_parse_u8(s.subrange(e2 + 1, e3)),
        ) {
            (Some(a), Some(b), Some(c)) => Some((a, b, c)),
            _ => None,
        }),
{
    assert(spec_version_ends(s, e1, e2, e3));
    let (f1, f2, f3) = choose|f1: int, f2: int, f3: int|
        #[trigger] spec_version_ends(s, f1, f2, f3);
    lemma_field_end_unique(s, 0, e1, f1);
    lemma_field_end_unique(s, e1 + 1, e2, f2);
    lemma_field_end_unique(s, e2 + 1, e3, f3);
}

/// Without a second or third field there is no version.
proof fn lemma_no_version(s: Seq<char>, e1: int, e2: int)
    requires
        spec_field_end(s, 0, e1),
        e1 == s.len() || (spec_field_end(s, e1 + 1, e2) && e2 == s.len()),
    ensures
        spec_version(s) is None,
{
    if exists|f1: int, f2: int, f3: int|
        #[trigger] spec_version_ends(s, f1, f2, f3) {
        let (f1, f2, f3) = choose|f1: int, f2: int, f3: int|
            #[trigger] spec_version_ends(s, f1, f2, f3);
        lemma_field_end_unique(s, 0, e1, f1);
        if e1 < s.len() {
            lemma_field_end_unique(s, e1 + 1, e2, f2);
        }
    }
}

} // verus!
