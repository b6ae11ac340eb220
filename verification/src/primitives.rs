//! The blockchain data that the application reads: amounts, identifiers,
//! destinations, transaction inputs and outputs, and the coin (network) type
//! with its address prefixes.
//!
//! Identifiers, keys and destinations are encoded for addresses in the SCALE
//! layout: an enum is its variant index byte followed by its fields, and a
//! fixed-size byte array is its bytes.

use vstd::prelude::*;

verus! {

/// A 32-byte hash; it is also the representation of every kind of identifier.
#[derive(Clone, Copy, Debug, PartialEq, Eq)]
pub struct H256(pub [u8; 32]);

/// Identifier of a token (fungible or NFT).
pub type TokenId = H256;

/// Identifier of a staking pool.
pub type PoolId = H256;

/// Identifier of a delegation.
pub type DelegationId = H256;

/// Identifier of an order.
pub type OrderId = H256;

/// An amount of coins or tokens, in atoms.
#[derive(Clone, Copy, Debug, PartialEq, Eq)]
pub struct Amount {
    pub atoms: u128,
}

impl Amount {
    /// The zero amount.
    pub fn zero() -> (a: Amount)
        ensures
            a.atoms == 0,
    {
        Amount { atoms: 0 }
    }

    /// The amount with the given number of atoms.
    pub fn from_atoms(atoms: u128) -> (a: Amount)
        ensures
            a.atoms == atoms,
    {
        Amount { atoms }
    }

    /// The number of atoms of this amount.
    pub fn into_atoms(self) -> (atoms: u128)
        ensures
            atoms == self.atoms,
    {
        self.atoms
    }
}

/// The 20-byte hash of a public key.
#[derive(Clone, Copy, Debug, PartialEq, Eq)]
pub struct PublicKeyHash(pub [u8; 20]);

/// A compressed secp256k1 public key.
#[derive(Clone, Copy, Debug, PartialEq, Eq)]
pub struct Secp256k1PublicKey(pub [u8; 33]);

/// A public key.
#[derive(Clone, Copy, Debug, PartialEq, Eq)]
pub enum PublicKey {
    Secp256k1Schnorr(Secp256k1PublicKey),
}

/// A Schnorrkel public key.
#[derive(Clone, Copy, Debug, PartialEq, Eq)]
pub struct SchnorrkelPublicKey(pub [u8; 32]);

/// A VRF public key of a staking pool.
#[derive(Clone, Copy, Debug, PartialEq, Eq)]
pub enum VrfPublicKey {
    Schnorrkel(SchnorrkelPublicKey),
}

/// Who can spend an output.
#[derive(Clone, Copy, Debug, PartialEq, Eq)]
pub enum Destination {
    AnyoneCanSpend,
    PublicKeyHash(PublicKeyHash),
    PublicKey(PublicKey),
    ScriptHash(H256),
    ClassicMultisig(PublicKeyHash),
}

/// A value held by an output: coins or tokens.
#[derive(Clone, Copy, Debug, PartialEq, Eq)]
pub enum OutputValue {
    Coin(Amount),
    TokenV1(TokenId, Amount),
}

/// A time lock of an output.
#[derive(Clone, Copy, Debug, PartialEq, Eq)]
pub enum OutputTimeLock {
    UntilHeight(u64),
    UntilTime(u64),
    ForBlockCount(u64),
    ForSeconds(u64),
}

/// The data of a staking pool.
#[derive(Clone, Copy, Debug, PartialEq, Eq)]
pub struct StakePoolData {
    pub pledge: Amount,
    pub staker: Destination,
    pub vrf_public_key: VrfPublicKey,
    pub decommission_key: Destination,
    pub margin_ratio_per_thousand: u16,
    pub cost_per_block: Amount,
}

/// The total supply of a token.
#[derive(Clone, Copy, Debug, PartialEq, Eq)]
pub enum TokenTotalSupply {
    Fixed(Amount),
    Lockable,
    Unlimited,
}

/// Whether a token can be frozen.
#[derive(Clone, Copy, Debug, PartialEq, Eq)]
pub enum IsTokenFreezable {
    No,
    Yes,
}

/// Whether a frozen token can be unfrozen.
#[derive(Clone, Copy, Debug, PartialEq, Eq)]
pub enum IsTokenUnfreezable {
    No,
    Yes,
}

/// The data of a fungible token issuance.
#[derive(Clone, Debug, PartialEq, Eq)]
pub struct TokenIssuanceV1 {
    pub token_ticker: Vec<u8>,
    pub number_of_decimals: u8,
    pub metadata_uri: Vec<u8>,
    pub total_supply: TokenTotalSupply,
    pub authority: Destination,
    pub is_freezable: IsTokenFreezable,
}

/// A fungible token issuance.
#[derive(Clone, Debug, PartialEq, Eq)]
pub enum TokenIssuance {
    V1(TokenIssuanceV1),
}

/// The data of an NFT issuance.
#[derive(Clone, Debug, PartialEq, Eq)]
pub struct NftIssuanceV0 {
    pub creator: Option<PublicKey>,
    pub name: Vec<u8>,
    pub description: Vec<u8>,
    pub ticker: Vec<u8>,
    pub icon_uri: Vec<u8>,
    pub additional_metadata_uri: Vec<u8>,
    pub media_uri: Vec<u8>,
    pub media_hash: Vec<u8>,
}

/// An NFT issuance.
#[derive(Clone, Debug, PartialEq, Eq)]
pub enum NftIssuance {
    V0(NftIssuanceV0),
}

/// A hashed time-locked contract.
#[derive(Clone, Copy, Debug, PartialEq, Eq)]
pub struct HashedTimelockContract {
    pub secret_hash: [u8; 20],
    pub spend_key: Destination,
    pub refund_timelock: OutputTimeLock,
    pub refund_key: Destination,
}

/// The data of an order.
#[derive(Clone, Copy, Debug, PartialEq, Eq)]
pub struct OrderData {
    pub conclude_key: Destination,
    pub ask: OutputValue,
    pub give: OutputValue,
}

/// A transaction output.
#[derive(Clone, Debug, PartialEq, Eq)]
pub enum TxOutput {
    Transfer(OutputValue, Destination),
    LockThenTransfer(OutputValue, Destination, OutputTimeLock),
    Burn(OutputValue),
    CreateStakePool(PoolId, StakePoolData),
    ProduceBlockFromStake(Destination, PoolId),
    CreateDelegationId(Destination, PoolId),
    DelegateStaking(Amount, DelegationId),
    IssueFungibleToken(TokenIssuance),
    IssueNft(TokenId, NftIssuance, Destination),
    DataDeposit(Vec<u8>),
    Htlc(OutputValue, HashedTimelockContract),
    CreateOrder(OrderData),
}

/// The source of a UTXO: a transaction or a block reward.
#[derive(Clone, Copy, Debug, PartialEq, Eq)]
pub enum OutPointSourceId {
    Transaction(H256),
    BlockReward(H256),
}

/// A reference to a UTXO.
#[derive(Clone, Copy, Debug, PartialEq, Eq)]
pub struct UtxoOutPoint {
    pub source_id: OutPointSourceId,
    pub output_index: u32,
}

/// What an account input spends.
#[derive(Clone, Copy, Debug, PartialEq, Eq)]
pub enum AccountSpending {
    DelegationBalance(DelegationId, Amount),
}

/// An account input.
#[derive(Clone, Copy, Debug, PartialEq, Eq)]
pub struct AccountOutPoint {
    pub nonce: u64,
    pub spending: AccountSpending,
}

/// A command on a token or (old-style) order account.
#[derive(Clone, Debug, PartialEq, Eq)]
pub enum AccountCommand {
    MintTokens(TokenId, Amount),
    UnmintTokens(TokenId),
    LockTokenSupply(TokenId),
    FreezeToken(TokenId, IsTokenUnfreezable),
    UnfreezeToken(TokenId),
    ChangeTokenAuthority(TokenId, Destination),
    ConcludeOrder(OrderId),
    FillOrder(OrderId, Amount, Destination),
    ChangeTokenMetadataUri(TokenId, Vec<u8>),
}

/// A command on an order.
#[derive(Clone, Copy, Debug, PartialEq, Eq)]
pub enum OrderAccountCommand {
    FillOrder(OrderId, Amount),
    FreezeOrder(OrderId),
    ConcludeOrder(OrderId),
}

/// A transaction input.
#[derive(Clone, Debug, PartialEq, Eq)]
pub enum TxInput {
    Utxo(UtxoOutPoint),
    Account(AccountOutPoint),
    AccountCommand(u64, AccountCommand),
    OrderAccountCommand(OrderAccountCommand),
}

/// What a signature commits to about an input, besides the input itself.
#[derive(Clone, Debug, PartialEq, Eq)]
pub enum SighashInputCommitment {
    Empty,
    Utxo(TxOutput),
    ProduceBlockFromStakeUtxo { utxo: TxOutput, staker_balance: Amount },
    FillOrderAccountCommand { initially_asked: OutputValue, initially_given: OutputValue },
    ConcludeOrderAccountCommand {
        initially_asked: OutputValue,
        initially_given: OutputValue,
        ask_balance: Amount,
        give_balance: Amount,
    },
}

/// The network that coins belong to.
#[derive(Clone, Copy, Debug, PartialEq, Eq, Structural)]
pub enum CoinType {
    Mainnet,
    Testnet,
    Regtest,
    Signet,
}

/// The bit that marks a hardened BIP32 derivation index.
pub const HARDENED_BIT: u32 = 0x8000_0000;

/// The BIP44 coin type of a network.
pub open spec fn spec_coin_path(coin: CoinType) -> u32 {
    match coin {
        CoinType::Mainnet => 0x8000_4D4Cu32,
        _ => 0x8000_0001u32,
    }
}

/// The ticker of a network's coin.
pub open spec fn spec_coin_ticker(coin: CoinType) -> Seq<char> {
    match coin {
        CoinType::Mainnet => "ML"@,
        CoinType::Testnet => "TML"@,
        CoinType::Regtest => "RML"@,
        CoinType::Signet => "SML"@,
    }
}

/// The address prefix (bech32 human-readable part) of a destination.
pub open spec fn spec_address_prefix(coin: CoinType, dest: Destination) -> Seq<char> {
    match coin {
        CoinType::Mainnet => match dest {
            Destination::AnyoneCanSpend => "mxanyonecanspend"@,
            Destination::PublicKeyHash(_) => "mtc"@,
            Destination::PublicKey(_) => "mptc"@,
            Destination::ScriptHash(_) => "mstc"@,
            Destination::ClassicMultisig(_) => "mmtc"@,
        },
        CoinType::Testnet => match dest {
            Destination::AnyoneCanSpend => "txanyonecanspend"@,
            Destination::PublicKeyHash(_) => "tmt"@,
            Destination::PublicKey(_) => "tpmt"@,
            Destination::ScriptHash(_) => "tstc"@,
            Destination::ClassicMultisig(_) => "tmtc"@,
        },
        CoinType::Regtest => match dest {
            Destination::AnyoneCanSpend => "rxanyonecanspend"@,
            Destination::PublicKeyHash(_) => "rmt"@,
            Destination::PublicKey(_) => "rpmt"@,
            Destination::ScriptHash(_) => "rstc"@,
            Destination::ClassicMultisig(_) => "rmtc"@,
        },
        CoinType::Signet => match dest {
            Destination::AnyoneCanSpend => "sxanyonecanspend"@,
            Destination::PublicKeyHash(_) => "smt"@,
            Destination::PublicKey(_) => "spmt"@,
            Destination::ScriptHash(_) => "sstc"@,
            Destination::ClassicMultisig(_) => "smtc"@,
        },
    }
}

/// The prefix of staking pool id addresses.
pub open spec fn spec_pool_id_prefix(coin: CoinType) -> Seq<char> {
    match coin {
        CoinType::Mainnet => "mpool"@,
        CoinType::Testnet => "tpool"@,
        CoinType::Regtest => "rpool"@,
        CoinType::Signet => "spool"@,
    }
}

/// The prefix of delegation id addresses.
pub open spec fn spec_delegation_id_prefix(coin: CoinType) -> Seq<char> {
    match coin {
        CoinType::Mainnet => "mdelg"@,
        CoinType::Testnet => "tdelg"@,
        CoinType::Regtest => "rdelg"@,
        CoinType::Signet => "sdelg"@,
    }
}

/// The prefix of token id addresses.
pub open spec fn spec_token_id_prefix(coin: CoinType) -> Seq<char> {
    match coin {
        CoinType::Mainnet => "mmltk"@,
        CoinType::Testnet => "tmltk"@,
        CoinType::Regtest => "rmltk"@,
        CoinType::Signet => "smltk"@,
    }
}

/// The prefix of order id addresses.
pub open spec fn spec_order_id_prefix(coin: CoinType) -> Seq<char> {
    match coin {
        CoinType::Mainnet => "mordr"@,
        CoinType::Testnet => "tordr"@,
        CoinType::Regtest => "rordr"@,
        CoinType::Signet => "sordr"@,
    }
}

/// The prefix of VRF public key addresses.
pub open spec fn spec_vrf_public_key_prefix(coin: CoinType) -> Seq<char> {
    match coin {
        CoinType::Mainnet => "mvrfpk"@,
        CoinType::Testnet => "tvrfpk"@,
        CoinType::Regtest => "rvrfpk"@,
        CoinType::Signet => "svrfpk"@,
    }
}

/// The number of a network in the protocol (its encoding byte).
pub open spec fn spec_coin_type_code(coin: CoinType) -> u8 {
    match coin {
        CoinType::Mainnet => 0,
        CoinType::Testnet => 1,
        CoinType::Regtest => 2,
        CoinType::Signet => 3,
    }
}

impl CoinType {
    /// The network with the given protocol number, if there is one.
    pub fn from_u8(value: u8) -> (r: Option<CoinType>)
        ensures
            r matches Some(c) ==> spec_coin_type_code(c) == value,
            r is None <==> value > 3,
    {
        match value {
            0 => Some(CoinType::Mainnet),
            1 => Some(CoinType::Testnet),
            2 => Some(CoinType::Regtest),
            3 => Some(CoinType::Signet),
            _ => None,
        }
    }

    /// The protocol number of the network.
    pub fn to_u8(self) -> (r: u8)
        ensures
            r == spec_coin_type_code(self),
    {
        match self {
            CoinType::Mainnet => 0,
            CoinType::Testnet => 1,
            CoinType::Regtest => 2,
            CoinType::Signet => 3,
        }
    }

    /// The ticker of the network's coin.
    pub fn coin_ticker(&self) -> (r: &'static str)
        ensures
            r@ == spec_coin_ticker(*self),
    {
        match self {
            CoinType::Mainnet => "ML",
            CoinType::Testnet => "TML",
            CoinType::Regtest => "RML",
            CoinType::Signet => "SML",
        }
    }

    /// The BIP44 coin type (hardened) of the network.
    pub fn coin_path(&self) -> (r: u32)
        ensures
            r == spec_coin_path(*self),
    {
        match self {
            CoinType::Mainnet => 19788 + HARDENED_BIT,
            _ => 1 + HARDENED_BIT,
        }
    }

    /// The BIP44 coin type (hardened) of the network; the same as `coin_path`.
    pub fn bip44_coin_type(&self) -> (r: u32)
        ensures
            r == spec_coin_path(*self),
    {
        self.coin_path()
    }

    /// The number of decimals of the network's coin.
    pub fn coin_decimals(&self) -> (r: u8)
        ensures
            r == 11,
    {
        11
    }

    /// The address prefix of a destination on this network.
    pub fn address_prefix(&self, dest: &Destination) -> (r: &'static str)
        ensures
            r@ == spec_address_prefix(*self, *dest),
    {
        match self {
            CoinType::Mainnet => match dest {
                Destination::AnyoneCanSpend => "mxanyonecanspend",
                Destination::PublicKeyHash(_) => "mtc",
                Destination::PublicKey(_) => "mptc",
                Destination::ScriptHash(_) => "mstc",
                Destination::ClassicMultisig(_) => "mmtc",
            },
            CoinType::Testnet => match dest {
                Destination::AnyoneCanSpend => "txanyonecanspend",
                Destination::PublicKeyHash(_) => "tmt",
                Destination::PublicKey(_) => "tpmt",
                Destination::ScriptHash(_) => "tstc",
                Destination::ClassicMultisig(_) => "tmtc",
            },
            CoinType::Regtest => match dest {
                Destination::AnyoneCanSpend => "rxanyonecanspend",
                Destination::PublicKeyHash(_) => "rmt",
                Destination::PublicKey(_) => "rpmt",
                Destination::ScriptHash(_) => "rstc",
                Destination::ClassicMultisig(_) => "rmtc",
            },
            CoinType::Signet => match dest {
                Destination::AnyoneCanSpend => "sxanyonecanspend",
                Destination::PublicKeyHash(_) => "smt",
                Destination::PublicKey(_) => "spmt",
                Destination::ScriptHash(_) => "sstc",
                Destination::ClassicMultisig(_) => "smtc",
            },
        }
    }

    /// The prefix of staking pool id addresses on this network.
    pub fn pool_id_address_prefix(&self) -> (r: &'static str)
        ensures
            r@ == spec_pool_id_prefix(*self),
    {
        match self {
            CoinType::Mainnet => "mpool",
            CoinType::Testnet => "tpool",
            CoinType::Regtest => "rpool",
            CoinType::Signet => "spool",
        }
    }

    /// The prefix of delegation id addresses on this network.
    pub fn delegation_id_address_prefix(&self) -> (r: &'static str)
        ensures
            r@ == spec_delegation_id_prefix(*self),
    {
        match self {
            CoinType::Mainnet => "mdelg",
            CoinType::Testnet => "tdelg",
            CoinType::Regtest => "rdelg",
            CoinType::Signet => "sdelg",
        }
    }

    /// The prefix of token id addresses on this network.
    pub fn token_id_address_prefix(&self) -> (r: &'static str)
        ensures
            r@ == spec_token_id_prefix(*self),
    {
        match self {
            CoinType::Mainnet => "mmltk",
            CoinType::Testnet => "tmltk",
            CoinType::Regtest => "rmltk",
            CoinType::Signet => "smltk",
        }
    }

    /// The prefix of order id addresses on this network.
    pub fn order_id_address_prefix(&self) -> (r: &'static str)
        ensures
            r@ == spec_order_id_prefix(*self),
    {
        match self {
            CoinType::Mainnet => "mordr",
            CoinType::Testnet => "tordr",
            CoinType::Regtest => "rordr",
            CoinType::Signet => "sordr",
        }
    }

    /// The prefix of VRF public key addresses on this network.
    pub fn vrf_public_key_address_prefix(&self) -> (r: &'static str)
        ensures
            r@ == spec_vrf_public_key_prefix(*self),
    {
        match self {
            CoinType::Mainnet => "mvrfpk",
            CoinType::Testnet => "tvrfpk",
            CoinType::Regtest => "rvrfpk",
            CoinType::Signet => "svrfpk",
        }
    }
}

/// The encoding of a public key.
pub open spec fn spec_encode_public_key(pk: PublicKey) -> Seq<u8> {
    match pk {
        PublicKey::Secp256k1Schnorr(k) => seq![0u8] + k.0@,
    }
}

/// The encoding of a destination.
pub open spec fn spec_encode_destination(dest: Destination) -> Seq<u8> {
    match dest {
        Destination::AnyoneCanSpend => seq![0u8],
        Destination::PublicKeyHash(h) => seq![1u8] + h.0@,
        Destination::PublicKey(pk) => seq![2u8] + spec_encode_public_key(pk),
        Destination::ScriptHash(h) => seq![3u8] + h.0@,
        Destination::ClassicMultisig(h) => seq![4u8] + h.0@,
    }
}

/// The encoding of a VRF public key.
pub open spec fn spec_encode_vrf_public_key(key: VrfPublicKey) -> Seq<u8> {
    match key {
        VrfPublicKey::Schnorrkel(k) => seq![0u8] + k.0@,
    }
}

/// Appends `bytes` to `out`.
pub fn push_bytes(out: &mut Vec<u8>, bytes: &[u8])
    ensures
        final(out)@ == old(out)@ + bytes@,
{
    let mut i: usize = 0;
    while i < bytes.len()
        invariant
            i <= bytes@.len(),
            out@ == old(out)@ + bytes@.subrange(0, i as int),
        decreases bytes@.len() - i,
    {
        out.push(bytes[i]);
        i += 1;
        proof {
            assert(bytes@.subrange(0, i as int) =~= bytes@.subrange(0, (i - 1) as int).push(
                bytes@[i - 1],
            ));
        }
    }
    proof {
        assert(bytes@.subrange(0, bytes@.len() as int) =~= bytes@);
    }
}

/// Encodes a public key.
pub fn encode_public_key(pk: &PublicKey) -> (r: Vec<u8>)
    ensures
        r@ == spec_encode_public_key(*pk),
{
    let mut out: Vec<u8> = Vec::new();
    match pk {
        PublicKey::Secp256k1Schnorr(k) => {
            out.push(0);
            push_bytes(&mut out, &k.0);
        },
    }
    out
}

/// Encodes a destination.
pub fn encode_destination(dest: &Destination) -> (r: Vec<u8>)
    ensures
        r@ == spec_encode_destination(*dest),
{
    let mut out: Vec<u8> = Vec::new();
    match dest {
        Destination::AnyoneCanSpend => {
            out.push(0);
        },
        Destination::PublicKeyHash(h) => {
            out.push(1);
            push_bytes(&mut out, &h.0);
        },
        Destination::PublicKey(pk) => {
            out.push(2);
            let enc = encode_public_key(pk);
            push_bytes(&mut out, enc.as_slice());
        },
        Destination::ScriptHash(h) => {
            out.push(3);
            push_bytes(&mut out, &h.0);
        },
        Destination::ClassicMultisig(h) => {
            out.push(4);
            push_bytes(&mut out, &h.0);
        },
    }
    proof {
        assert(out@ =~= spec_encode_destination(*dest));
    }
    out
}

/// Encodes a VRF public key.
pub fn encode_vrf_public_key(key: &VrfPublicKey) -> (r: Vec<u8>)
    ensures
        r@ == spec_encode_vrf_public_key(*key),
{
    let mut out: Vec<u8> = Vec::new();
    match key {
        VrfPublicKey::Schnorrkel(k) => {
            out.push(0);
            push_bytes(&mut out, &k.0);
        },
    }
    out
}

} // verus!
