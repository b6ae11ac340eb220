//! The messages exchanged with the host: instruction codes, parameter bytes,
//! requests and responses.

use vstd::prelude::*;

use crate::codec::{spec_le_bytes, u32_to_le_bytes};
use crate::primitives::{
    push_bytes, AccountCommand, AccountOutPoint, Amount, CoinType, OrderAccountCommand, OutputValue,
    SighashInputCommitment, TxInput, TxOutput, UtxoOutPoint,
};
use crate::status::StatusWord;

verus! {

/// The class byte of every APDU of the application.
pub const APDU_CLASS: u8 = 0xE1;

/// The largest data part of one APDU.
pub const MAX_APDU_DATA_LEN: usize = 255;

/// Parameter 2 of the last (or only) chunk of an instruction.
pub const P2_DONE: u8 = 0x00;

/// Parameter 2 of a chunk that more chunks follow.
pub const P2_MORE: u8 = 0x80;

/// The instruction codes.
pub struct Ins {}

impl Ins {
    pub const GET_PUB_KEY: u8 = 0x00;
    pub const SIGN_TX: u8 = 0x01;
    pub const SIGN_MSG: u8 = 0x02;
    pub const PING: u8 = 0x03;
}

/// Parameter 1 of `GET_PUB_KEY`: whether to show the address.
#[derive(Clone, Copy, Debug, PartialEq, Eq, Structural)]
pub enum GetPubKeyP1 {
    NoDisplayAddress,
    DisplayAddress,
}

impl GetPubKeyP1 {
    /// Reads parameter 1; any other byte than 0 and 1 is `WrongP1P2`.
    pub fn from_u8(value: u8) -> (r: Result<GetPubKeyP1, StatusWord>)
        ensures
            value == 0 ==> r == Ok::<GetPubKeyP1, StatusWord>(GetPubKeyP1::NoDisplayAddress),
            value == 1 ==> r == Ok::<GetPubKeyP1, StatusWord>(GetPubKeyP1::DisplayAddress),
            value > 1 ==> r == Err::<GetPubKeyP1, StatusWord>(StatusWord::WrongP1P2),
    {
        match value {
            0 => Ok(GetPubKeyP1::NoDisplayAddress),
            1 => Ok(GetPubKeyP1::DisplayAddress),
            _ => Err(StatusWord::WrongP1P2),
        }
    }

    /// The byte of the parameter.
    pub fn to_u8(self) -> (r: u8)
        ensures
            r == (if self == GetPubKeyP1::DisplayAddress { 1u8 } else { 0u8 }),
    {
        match self {
            GetPubKeyP1::NoDisplayAddress => 0,
            GetPubKeyP1::DisplayAddress => 1,
        }
    }

    /// Whether the address is to be shown on the device.
    pub fn display(&self) -> (r: bool)
        ensures
            r == (*self == GetPubKeyP1::DisplayAddress),
    {
        match self {
            GetPubKeyP1::DisplayAddress => true,
            GetPubKeyP1::NoDisplayAddress => false,
        }
    }
}

/// Parameter 1 of `SIGN_TX`.
#[derive(Clone, Copy, Debug, PartialEq, Eq, Structural)]
pub enum SignTxP1 {
    Start,
    Next,
}

impl SignTxP1 {
    /// Reads parameter 1; any other byte than 0 and 1 is `WrongP1P2`.
    pub fn from_u8(value: u8) -> (r: Result<SignTxP1, StatusWord>)
        ensures
            value == 0 ==> r == Ok::<SignTxP1, StatusWord>(SignTxP1::Start),
            value == 1 ==> r == Ok::<SignTxP1, StatusWord>(SignTxP1::Next),
            value > 1 ==> r == Err::<SignTxP1, StatusWord>(StatusWord::WrongP1P2),
    {
        match value {
            0 => Ok(SignTxP1::Start),
            1 => Ok(SignTxP1::Next),
            _ => Err(StatusWord::WrongP1P2),
        }
    }

    /// The byte of the parameter.
    pub fn to_u8(self) -> (r: u8)
        ensures
            r == (if self == SignTxP1::Next { 1u8 } else { 0u8 }),
    {
        match self {
            SignTxP1::Start => 0,
            SignTxP1::Next => 1,
        }
    }
}

/// Parameter 1 of `SIGN_MSG`.
#[derive(Clone, Copy, Debug, PartialEq, Eq, Structural)]
pub enum SignMsgP1 {
    Start,
    Next,
}

impl SignMsgP1 {
    /// Reads parameter 1; any other byte than 0 and 1 is `WrongP1P2`.
    pub fn from_u8(value: u8) -> (r: Result<SignMsgP1, StatusWord>)
        ensures
            value == 0 ==> r == Ok::<SignMsgP1, StatusWord>(SignMsgP1::Start),
            value == 1 ==> r == Ok::<SignMsgP1, StatusWord>(SignMsgP1::Next),
            value > 1 ==> r == Err::<SignMsgP1, StatusWord>(StatusWord::WrongP1P2),
    {
        match value {
            0 => Ok(SignMsgP1::Start),
            1 => Ok(SignMsgP1::Next),
            _ => Err(StatusWord::WrongP1P2),
        }
    }

    /// The byte of the parameter.
    pub fn to_u8(self) -> (r: u8)
        ensures
            r == (if self == SignMsgP1::Next { 1u8 } else { 0u8 }),
    {
        match self {
            SignMsgP1::Start => 0,
            SignMsgP1::Next => 1,
        }
    }
}

/// Parameter 1 of `PING`, which must be zero.
#[derive(Clone, Copy, Debug, PartialEq, Eq, Structural)]
pub enum PingP1 {
    Dummy,
}

impl PingP1 {
    /// Reads parameter 1; any other byte than 0 is `WrongP1P2`.
    pub fn from_u8(value: u8) -> (r: Result<PingP1, StatusWord>)
        ensures
            value == 0 ==> r == Ok::<PingP1, StatusWord>(PingP1::Dummy),
            value != 0 ==> r == Err::<PingP1, StatusWord>(StatusWord::WrongP1P2),
    {
        if value == 0 {
            Ok(PingP1::Dummy)
        } else {
            Err(StatusWord::WrongP1P2)
        }
    }

    /// The byte of the parameter.
    pub fn to_u8(self) -> (r: u8)
        ensures
            r == 0,
    {
        0
    }
}

/// The kind of address that a message signature is shown for.
#[derive(Clone, Copy, Debug, PartialEq, Eq, Structural)]
pub enum AddrType {
    PublicKey,
    PublicKeyHash,
}

impl AddrType {
    /// Reads an address type byte.
    pub fn from_u8(value: u8) -> (r: Option<AddrType>)
        ensures
            value == 0 ==> r == Some(AddrType::PublicKey),
            value == 1 ==> r == Some(AddrType::PublicKeyHash),
            value > 1 ==> r is None,
    {
        match value {
            0 => Some(AddrType::PublicKey),
            1 => Some(AddrType::PublicKeyHash),
            _ => None,
        }
    }

    /// The byte of the address type.
    pub fn to_u8(self) -> (r: u8)
        ensures
            r == (if self == AddrType::PublicKeyHash { 1u8 } else { 0u8 }),
    {
        match self {
            AddrType::PublicKey => 0,
            AddrType::PublicKeyHash => 1,
        }
    }
}

/// A BIP32 derivation path.
#[derive(Clone, Debug)]
pub struct Bip32Path(pub Vec<u32>);

impl Bip32Path {
    /// The indices of the path.
    pub fn as_ref(&self) -> (r: &[u32])
        ensures
            r@ == self.0@,
    {
        self.0.as_slice()
    }
}

/// A derivation path that an input is to be signed with.
#[derive(Clone, Debug)]
pub struct InputAddressPath {
    pub path: Bip32Path,
    pub multisig_idx: Option<u32>,
}

/// Request of `GET_PUB_KEY`.
#[derive(Clone, Debug)]
pub struct GetPubKeyReq {
    pub coin_type: CoinType,
    pub path: Bip32Path,
}

/// Request that starts `SIGN_MSG`.
#[derive(Clone, Debug)]
pub struct SignMessageStartReq {
    pub coin: CoinType,
    pub addr_type: AddrType,
    pub path: Bip32Path,
}

/// The version of a transaction.
#[derive(Clone, Copy, Debug, PartialEq, Eq, Structural)]
pub enum TransactionVersion {
    V1,
}

/// Request that starts `SIGN_TX`.
#[derive(Clone, Copy, Debug)]
pub struct SignTxStartReq {
    pub coin: CoinType,
    pub version: TransactionVersion,
    pub num_inputs: u32,
    pub num_outputs: u32,
}

/// The amounts of an order that a signature commits to.
#[derive(Clone, Copy, Debug, PartialEq, Eq)]
pub struct AdditionalOrderInfo {
    pub initially_asked: OutputValue,
    pub initially_given: OutputValue,
    pub ask_balance: Amount,
    pub give_balance: Amount,
}

/// The UTXO that an input spends, sent along with the input.
#[derive(Clone, Debug, PartialEq, Eq)]
pub enum AdditionalUtxoInfo {
    Utxo(TxOutput),
    UtxoWithPoolData { utxo: TxOutput, staker_balance: Amount },
}

/// A transaction input together with what its signature commits to.
#[derive(Clone, Debug, PartialEq, Eq)]
pub enum TxInputWithAdditionalInfo {
    Utxo(UtxoOutPoint, AdditionalUtxoInfo),
    Account(AccountOutPoint),
    AccountCommand(u64, AccountCommand),
    OrderAccountCommand(OrderAccountCommand, AdditionalOrderInfo),
}

/// The commitment that the UTXO information of an input stands for.
pub open spec fn spec_utxo_commitment(info: AdditionalUtxoInfo) -> SighashInputCommitment {
    match info {
        AdditionalUtxoInfo::Utxo(output) => SighashInputCommitment::Utxo(output),
        AdditionalUtxoInfo::UtxoWithPoolData { utxo, staker_balance } =>
            SighashInputCommitment::ProduceBlockFromStakeUtxo { utxo, staker_balance },
    }
}

/// The input and commitment that an input with its additional information stands for.
pub open spec fn spec_input_and_commitment(inp: TxInputWithAdditionalInfo) -> (
    TxInput,
    SighashInputCommitment,
) {
    match inp {
        TxInputWithAdditionalInfo::Utxo(utxo, info) => (
            TxInput::Utxo(utxo),
            spec_utxo_commitment(info),
        ),
        TxInputWithAdditionalInfo::Account(acc) => (
            TxInput::Account(acc),
            SighashInputCommitment::Empty,
        ),
        TxInputWithAdditionalInfo::AccountCommand(nonce, cmd) => (
            TxInput::AccountCommand(nonce, cmd),
            SighashInputCommitment::Empty,
        ),
        TxInputWithAdditionalInfo::OrderAccountCommand(cmd, info) => (
            TxInput::OrderAccountCommand(cmd),
            match cmd {
                OrderAccountCommand::FillOrder(_, _) => SighashInputCommitment::FillOrderAccountCommand {
                    initially_asked: info.initially_asked,
                    initially_given: info.initially_given,
                },
                OrderAccountCommand::ConcludeOrder(_) => SighashInputCommitment::ConcludeOrderAccountCommand {
                    initially_asked: info.initially_asked,
                    initially_given: info.initially_given,
                    ask_balance: info.ask_balance,
                    give_balance: info.give_balance,
                },
                OrderAccountCommand::FreezeOrder(_) => SighashInputCommitment::Empty,
            },
        ),
    }
}

impl AdditionalUtxoInfo {
    /// The commitment that this UTXO information stands for.
    pub fn into_commitment(self) -> (r: SighashInputCommitment)
        ensures
            r == spec_utxo_commitment(self),
    {
        match self {
            AdditionalUtxoInfo::Utxo(output) => SighashInputCommitment::Utxo(output),
            AdditionalUtxoInfo::UtxoWithPoolData { utxo, staker_balance } =>
                SighashInputCommitment::ProduceBlockFromStakeUtxo { utxo, staker_balance },
        }
    }
}

impl TxInputWithAdditionalInfo {
    /// Splits the input into the transaction input and the commitment that its
    /// signature makes.
    pub fn into_input_and_commitment(self) -> (r: (TxInput, SighashInputCommitment))
        ensures
            r == spec_input_and_commitment(self),
    {
        match self {
            TxInputWithAdditionalInfo::Utxo(utxo, info) => (
                TxInput::Utxo(utxo),
                info.into_commitment(),
            ),
            TxInputWithAdditionalInfo::Account(acc) => (
                TxInput::Account(acc),
                SighashInputCommitment::Empty,
            ),
            TxInputWithAdditionalInfo::AccountCommand(nonce, cmd) => (
                TxInput::AccountCommand(nonce, cmd),
                SighashInputCommitment::Empty,
            ),
            TxInputWithAdditionalInfo::OrderAccountCommand(cmd, info) => {
                let commitment = match cmd {
                    OrderAccountCommand::FillOrder(_, _) =>
                        SighashInputCommitment::FillOrderAccountCommand {
                            initially_asked: info.initially_asked,
                            initially_given: info.initially_given,
                        },
                    OrderAccountCommand::ConcludeOrder(_) =>
                        SighashInputCommitment::ConcludeOrderAccountCommand {
                            initially_asked: info.initially_asked,
                            initially_given: info.initially_given,
                            ask_balance: info.ask_balance,
                            give_balance: info.give_balance,
                        },
                    OrderAccountCommand::FreezeOrder(_) => SighashInputCommitment::Empty,
                };
                (TxInput::OrderAccountCommand(cmd), commitment)
            },
        }
    }
}

/// An input of a transaction to sign, with the paths of the keys to sign it with.
#[derive(Clone, Debug)]
pub struct TxInputData {
    pub addresses: Vec<InputAddressPath>,
    pub input: TxInputWithAdditionalInfo,
}

/// The commitment of an input, sent again in the second pass over the inputs.
#[derive(Clone, Debug)]
pub struct TxInputCommitmentData {
    pub commitment: SighashInputCommitment,
}

/// An output of a transaction to sign.
#[derive(Clone, Debug)]
pub struct TxOutputData {
    pub output: TxOutput,
}

/// A request that continues `SIGN_TX`.
#[derive(Clone, Debug)]
pub enum SignTxNextReq {
    ProcessInput(Box<TxInputData>),
    ProcessInputCommitment(Box<TxInputCommitmentData>),
    ProcessOutput(Box<TxOutputData>),
    ReturnNextSignature,
}

/// An uncompressed secp256k1 public key.
#[derive(Clone, Copy, Debug)]
pub struct UncompressedSecp256k1PublicKey(pub [u8; 65]);

/// A BIP32 chain code.
#[derive(Clone, Copy, Debug)]
pub struct ChainCode(pub [u8; 32]);

/// Response of `GET_PUB_KEY`.
#[derive(Clone, Copy, Debug)]
pub struct PublicKeyResponse {
    pub public_key: UncompressedSecp256k1PublicKey,
    pub chain_code: ChainCode,
}

/// A Schnorr signature.
#[derive(Clone, Copy, Debug)]
pub struct Signature(pub [u8; 64]);

/// One signature of a transaction input.
#[derive(Clone, Copy, Debug)]
pub struct TxInputSignatureResponse {
    pub signature: Signature,
    pub input_idx: u32,
    pub multisig_idx: Option<u32>,
    pub has_next: bool,
}

/// The signature of a message.
#[derive(Clone, Copy, Debug)]
pub struct MsgSignatureResponse {
    pub signature: Signature,
}

/// A successful answer to the host.
#[derive(Clone, Copy, Debug)]
pub enum Response {
    ExpectingNextChunk,
    PublicKey(PublicKeyResponse),
    TxSetup,
    TxNext,
    TxInputSignature(TxInputSignatureResponse),
    MessageSetup,
    MessageSignature(MsgSignatureResponse),
    Pong,
}

/// The SCALE encoding of a bool.
pub open spec fn spec_encode_bool(b: bool) -> Seq<u8> {
    if b {
        seq![1u8]
    } else {
        seq![0u8]
    }
}

/// The SCALE encoding of an optional `u32`: `0`, or `1` and the number.
pub open spec fn spec_encode_option_u32(v: Option<u32>) -> Seq<u8> {
    match v {
        None => seq![0u8],
        Some(n) => seq![1u8] + spec_le_bytes(n as nat, 4),
    }
}

/// The encoding of a transaction input's signature: the signature, the
/// input index, the multisig index and whether more follow.
pub open spec fn spec_encode_tx_input_signature(r: TxInputSignatureResponse) -> Seq<u8> {
    r.signature.0@ + spec_le_bytes(r.input_idx as nat, 4) + spec_encode_option_u32(
        r.multisig_idx,
    ) + spec_encode_bool(r.has_next)
}

/// The encoding of an answer: the variant's index, then its fields.
pub open spec fn spec_encode_response(r: Response) -> Seq<u8> {
    match r {
        Response::ExpectingNextChunk => seq![0u8],
        Response::PublicKey(pk) => seq![1u8] + pk.public_key.0@ + pk.chain_code.0@,
        Response::TxSetup => seq![2u8],
        Response::TxNext => seq![3u8],
        Response::TxInputSignature(s) => seq![4u8] + spec_encode_tx_input_signature(s),
        Response::MessageSetup => seq![5u8],
        Response::MessageSignature(s) => seq![6u8] + s.signature.0@,
        Response::Pong => seq![7u8],
    }
}

impl Response {
    /// The SCALE encoding of the answer, as the host decodes it.
    pub fn encode(&self) -> (r: Vec<u8>)
        ensures
            r@ == spec_encode_response(*self),
    {
        let mut out: Vec<u8> = Vec::new();
        match self {
            Response::ExpectingNextChunk => out.push(0),
            Response::PublicKey(pk) => {
                out.push(1);
                push_bytes(&mut out, &pk.public_key.0);
                push_bytes(&mut out, &pk.chain_code.0);
            },
            Response::TxSetup => out.push(2),
            Response::TxNext => out.push(3),
            Response::TxInputSignature(s) => {
                out.push(4);
                push_bytes(&mut out, &s.signature.0);
                let idx = u32_to_le_bytes(s.input_idx);
                push_bytes(&mut out, &idx);
                match s.multisig_idx {
                    None => out.push(0),
                    Some(m) => {
                        out.push(1);
                        let mb = u32_to_le_bytes(m);
                        push_bytes(&mut out, &mb);
                    },
                }
                out.push(if s.has_next {
                    1
                } else {
                    0
                });
            },
            Response::MessageSetup => out.push(5),
            Response::MessageSignature(s) => {
                out.push(6);
                push_bytes(&mut out, &s.signature.0);
            },
            Response::Pong => out.push(7),
        }
        proof {
            assert(out@ =~= spec_encode_response(*self));
        }
        out
    }
}

/// The position of an answer's variant, which its encoding starts with.
pub open spec fn spec_response_index(r: Response) -> u8 {
    match r {
        Response::ExpectingNextChunk => 0,
        Response::PublicKey(_) => 1,
        Response::TxSetup => 2,
        Response::TxNext => 3,
        Response::TxInputSignature(_) => 4,
        Response::MessageSetup => 5,
        Response::MessageSignature(_) => 6,
        Response::Pong => 7,
    }
}

/// Every answer's encoding starts with the index of its variant, and has the
/// length of that variant's fields after it: none for the acknowledgements,
/// 97 bytes for a public key, 64 for a message signature, and 70 or 74 for an
/// input signature (without or with a multisig index).
pub proof fn lemma_response_framing(r: Response)
    ensures
        spec_encode_response(r).len() >= 1,
        spec_encode_response(r)[0] == spec_response_index(r),
        spec_encode_response(r).len() == 1 + match r {
            Response::PublicKey(_) => 97,
            Response::MessageSignature(_) => 64,
            Response::TxInputSignature(s) => if s.multisig_idx is Some {
                74nat
            } else {
                70nat
            },
            _ => 0nat,
        },
{
    reveal_with_fuel(spec_le_bytes, 5);
}

} // verus!
