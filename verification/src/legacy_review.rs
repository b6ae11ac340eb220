//! The review screens of the first protocol version: each output as a
//! screen name and text, the fees, and a message to sign. Amounts of coins
//! are shown without the ticker after `Coins:`, token amounts in atoms after
//! the token's address; errors are status words of the first version.

use vstd::prelude::*;

use crate::legacy::StatusWord;
use crate::primitives::{
    spec_coin_ticker, spec_delegation_id_prefix, spec_encode_vrf_public_key, spec_pool_id_prefix,
    spec_token_id_prefix, spec_vrf_public_key_prefix, Amount, CoinType, Destination,
    HashedTimelockContract, IsTokenFreezable, NftIssuance, NftIssuanceV0, OrderData,
    OutputTimeLock, OutputValue, StakePoolData, TokenIssuance, TokenIssuanceV1,
    TokenTotalSupply, TxOutput, H256,
};
use crate::summary::{spec_input_fees, TxSummaryCollector};
use crate::text::{
    decimal, delegation_id_to_address, format_coin_amount, format_lock, pool_id_to_address,
    push_char, push_decimal, spec_ascii_chars, spec_bech32m, spec_coin_amount, spec_decimal,
    spec_format_lock, spec_hex, spec_to_address, to_address, token_id_to_address, vrf_to_address,
};
use crate::totals::CoinOrTokenId;

verus! {

/// A text result of the first version as characters.
pub open spec fn v1_text(r: Result<String, StatusWord>) -> Result<Seq<char>, StatusWord> {
    match r {
        Ok(s) => Ok(s@),
        Err(e) => Err(e),
    }
}

/// The text that `String::from_utf8_lossy` makes of bytes.
pub uninterp spec fn utf8_lossy_text(bytes: Seq<u8>) -> Seq<char>;

/// Every byte is an ASCII character.
pub open spec fn spec_all_ascii(bytes: Seq<u8>) -> bool {
    forall|i: int| 0 <= i < bytes.len() ==> #[trigger] bytes[i] < 0x80
}

/// Bytes as text, with each invalid UTF-8 sequence replaced.
///
/// Calls `String::from_utf8_lossy` and takes the owned text. The text is
/// named; the contract states, as its documentation gives, that valid UTF-8
/// such as ASCII comes back unchanged.
#[verifier::external_body]
fn utf8_lossy(bytes: &[u8]) -> (r: String)
    ensures
        r@ == utf8_lossy_text(bytes@),
        spec_all_ascii(bytes@) ==> r@ == spec_ascii_chars(bytes@),
{
    String::from_utf8_lossy(bytes).into_owned()
}

/// Bytes as lowercase hexadecimal.
///
/// Calls `hex::encode`, which writes two lowercase digits per byte, the high
/// half first.
#[verifier::external_body]
fn hex_string(data: &[u8]) -> (r: String)
    ensures
        r@ == spec_hex(data@),
{
    hex::encode(data)
}

/// The address of a destination; `TxAddressFail` where it cannot be made.
pub open spec fn spec_v1_address(dest: Destination, coin: CoinType) -> Result<Seq<char>, StatusWord> {
    match spec_to_address(dest, coin) {
        Ok(s) => Ok(s),
        Err(_) => Err(StatusWord::TxAddressFail),
    }
}

fn v1_address(dest: &Destination, coin: CoinType) -> (r: Result<String, StatusWord>)
    ensures
        v1_text(r) == spec_v1_address(*dest, coin),
{
    match to_address(dest, coin) {
        Ok(s) => Ok(s),
        Err(_) => Err(StatusWord::TxAddressFail),
    }
}

/// The address of an id under a prefix; `TxAddressFail` where it cannot be made.
pub open spec fn spec_v1_id(id: H256, hrp: Seq<char>) -> Result<Seq<char>, StatusWord> {
    match spec_bech32m(hrp, id.0@) {
        Ok(s) => Ok(s),
        Err(_) => Err(StatusWord::TxAddressFail),
    }
}

/// A time lock as text; `TxDisplayFail` for a time that cannot be shown.
pub open spec fn spec_v1_lock(lock: OutputTimeLock) -> Result<Seq<char>, StatusWord> {
    match spec_format_lock(lock) {
        Ok(s) => Ok(s),
        Err(_) => Err(StatusWord::TxDisplayFail),
    }
}

fn v1_lock(lock: &OutputTimeLock) -> (r: Result<String, StatusWord>)
    ensures
        v1_text(r) == spec_v1_lock(*lock),
{
    match format_lock(lock) {
        Ok(s) => Ok(s),
        Err(_) => Err(StatusWord::TxDisplayFail),
    }
}

/// An amount of coins: the atoms with the network's decimals.
pub open spec fn spec_v1_amount(a: Amount) -> Seq<char> {
    spec_coin_amount(a.atoms, 11)
}

/// A value: `Coins:` and the amount, or `Token:`, the token's address and
/// the atoms.
pub open spec fn spec_v1_value(value: OutputValue, coin: CoinType) -> Result<Seq<char>, StatusWord> {
    match value {
        OutputValue::Coin(a) => Ok("Coins: "@ + spec_v1_amount(a)),
        OutputValue::TokenV1(id, a) => match spec_v1_id(id, spec_token_id_prefix(coin)) {
            Ok(t) => Ok("Token: "@ + t + " "@ + spec_decimal(a.atoms as nat)),
            Err(e) => Err(e),
        },
    }
}

fn v1_value(value: &OutputValue, coin: CoinType) -> (r: Result<String, StatusWord>)
    ensures
        v1_text(r) == spec_v1_value(*value, coin),
{
    match value {
        OutputValue::Coin(a) => {
            let mut s = String::from_str("Coins: ");
            let t = format_coin_amount(*a, coin);
            s.append(t.as_str());
            Ok(s)
        },
        OutputValue::TokenV1(id, a) => {
            let t = match token_id_to_address(id, coin) {
                Ok(t) => t,
                Err(_) => return Err(StatusWord::TxAddressFail),
            };
            let mut s = String::from_str("Token: ");
            s.append(t.as_str());
            s.append(" ");
            push_decimal(&mut s, a.atoms);
            Ok(s)
        },
    }
}

/// The text of a staking pool's creation.
pub open spec fn spec_v1_stake_pool_text(pool_id: H256, data: StakePoolData, coin: CoinType) -> Result<
    Seq<char>,
    StatusWord,
> {
    match spec_v1_id(pool_id, spec_pool_id_prefix(coin)) {
        Err(e) => Err(e),
        Ok(pool) => match spec_v1_address(data.staker, coin) {
            Err(e) => Err(e),
            Ok(staker) => match spec_v1_address(data.decommission_key, coin) {
                Err(e) => Err(e),
                Ok(decommission) => match spec_bech32m(
                    spec_vrf_public_key_prefix(coin),
                    spec_encode_vrf_public_key(data.vrf_public_key),
                ) {
                    Err(_) => Err(StatusWord::TxAddressFail),
                    Ok(vrf) => Ok(
                        "Pool ID: "@ + pool + "\nStaker key: "@ + staker + "\nDecommission key: "@
                            + decommission + "\nVRF public key: "@ + vrf
                            + "\nMargin ratio per thousand: "@ + spec_decimal(
                            data.margin_ratio_per_thousand as nat,
                        ) + "\nCost per block: "@ + spec_v1_amount(data.cost_per_block)
                            + "\nPledge"@ + spec_v1_amount(data.pledge) + "\n"@,
                    ),
                },
            },
        },
    }
}

fn v1_stake_pool_text(pool_id: &H256, data: &StakePoolData, coin: CoinType) -> (r: Result<
    String,
    StatusWord,
>)
    ensures
        v1_text(r) == spec_v1_stake_pool_text(*pool_id, *data, coin),
{
    let pool = match pool_id_to_address(pool_id, coin) {
        Ok(t) => t,
        Err(_) => return Err(StatusWord::TxAddressFail),
    };
    let staker = v1_address(&data.staker, coin)?;
    let decommission = v1_address(&data.decommission_key, coin)?;
    let vrf = match vrf_to_address(&data.vrf_public_key, coin) {
        Ok(t) => t,
        Err(_) => return Err(StatusWord::TxAddressFail),
    };
    let mut s = String::from_str("Pool ID: ");
    s.append(pool.as_str());
    s.append("\nStaker key: ");
    s.append(staker.as_str());
    s.append("\nDecommission key: ");
    s.append(decommission.as_str());
    s.append("\nVRF public key: ");
    s.append(vrf.as_str());
    s.append("\nMargin ratio per thousand: ");
    push_decimal(&mut s, data.margin_ratio_per_thousand as u128);
    s.append("\nCost per block: ");
    let cost = format_coin_amount(data.cost_per_block, coin);
    s.append(cost.as_str());
    s.append("\nPledge");
    let pledge = format_coin_amount(data.pledge, coin);
    s.append(pledge.as_str());
    s.append("\n");
    Ok(s)
}

/// The total supply of a token: fixed supplies as an amount of coins.
pub open spec fn spec_v1_supply_text(supply: TokenTotalSupply) -> Seq<char> {
    match supply {
        TokenTotalSupply::Unlimited => "UNLIMITED"@,
        TokenTotalSupply::Lockable => "LOCKABLE"@,
        TokenTotalSupply::Fixed(a) => "FIXED "@ + spec_v1_amount(a),
    }
}

/// The text of a fungible token's issuance.
pub open spec fn spec_v1_token_text(data: TokenIssuanceV1, coin: CoinType) -> Result<
    Seq<char>,
    StatusWord,
> {
    match spec_v1_address(data.authority, coin) {
        Err(e) => Err(e),
        Ok(authority) => Ok(
            "Ticker: "@ + utf8_lossy_text(data.token_ticker@) + "\nAuthority: "@ + authority
                + "\nMetadata URI: "@ + utf8_lossy_text(data.metadata_uri@)
                + "\nTotal token supply: "@ + spec_v1_supply_text(data.total_supply)
                + "\nNumber of decimals: "@ + spec_decimal(data.number_of_decimals as nat)
                + "\nIs freezable: "@ + (if data.is_freezable == IsTokenFreezable::Yes {
                "Yes"@
            } else {
                "No"@
            }),
        ),
    }
}

fn v1_token_text(data: &TokenIssuanceV1, coin: CoinType) -> (r: Result<String, StatusWord>)
    ensures
        v1_text(r) == spec_v1_token_text(*data, coin),
{
    let ticker = utf8_lossy(data.token_ticker.as_slice());
    let uri = utf8_lossy(data.metadata_uri.as_slice());
    let authority = v1_address(&data.authority, coin)?;
    let mut s = String::from_str("Ticker: ");
    s.append(ticker.as_str());
    s.append("\nAuthority: ");
    s.append(authority.as_str());
    s.append("\nMetadata URI: ");
    s.append(uri.as_str());
    s.append("\nTotal token supply: ");
    let ghost before_supply = s@;
    match data.total_supply {
        TokenTotalSupply::Unlimited => s.append("UNLIMITED"),
        TokenTotalSupply::Lockable => s.append("LOCKABLE"),
        TokenTotalSupply::Fixed(a) => {
            s.append("FIXED ");
            let t = format_coin_amount(a, coin);
            s.append(t.as_str());
        },
    }
    assert(s@ == before_supply + spec_v1_supply_text(data.total_supply));
    s.append("\nNumber of decimals: ");
    push_decimal(&mut s, data.number_of_decimals as u128);
    s.append("\nIs freezable: ");
    let ghost before_freezable = s@;
    match data.is_freezable {
        IsTokenFreezable::Yes => s.append("Yes"),
        IsTokenFreezable::No => s.append("No"),
    }
    assert(s@ == before_freezable + (if data.is_freezable == IsTokenFreezable::Yes {
        "Yes"@
    } else {
        "No"@
    }));
    Ok(s)
}

/// The text of an NFT's issuance (its description and media hash are not shown).
pub open spec fn spec_v1_nft_text(data: NftIssuanceV0, destination: Destination, coin: CoinType) -> Result<
    Seq<char>,
    StatusWord,
> {
    let creator = match data.creator {
        None => Ok(Seq::empty()),
        Some(pk) => spec_v1_address(Destination::PublicKey(pk), coin),
    };
    match creator {
        Err(e) => Err(e),
        Ok(creator) => match spec_v1_address(destination, coin) {
            Err(e) => Err(e),
            Ok(address) => Ok(
                "Name: "@ + utf8_lossy_text(data.name@) + "\nCreator: "@ + creator + "\nTicker: "@
                    + utf8_lossy_text(data.ticker@) + "\nAddress: "@ + address + "\nIcon URI: "@
                    + utf8_lossy_text(data.icon_uri@) + "\nAdditional medatada URI: "@
                    + utf8_lossy_text(data.additional_metadata_uri@) + "\nMedia URI: "@
                    + utf8_lossy_text(data.media_uri@),
            ),
        },
    }
}

fn v1_nft_text(data: &NftIssuanceV0, destination: &Destination, coin: CoinType) -> (r: Result<
    String,
    StatusWord,
>)
    ensures
        v1_text(r) == spec_v1_nft_text(*data, *destination, coin),
{
    let creator = match data.creator {
        Some(pk) => v1_address(&Destination::PublicKey(pk), coin)?,
        None => String::new(),
    };
    let address = v1_address(destination, coin)?;
    let mut s = String::from_str("Name: ");
    let t = utf8_lossy(data.name.as_slice());
    s.append(t.as_str());
    s.append("\nCreator: ");
    s.append(creator.as_str());
    s.append("\nTicker: ");
    let t = utf8_lossy(data.ticker.as_slice());
    s.append(t.as_str());
    s.append("\nAddress: ");
    s.append(address.as_str());
    s.append("\nIcon URI: ");
    let t = utf8_lossy(data.icon_uri.as_slice());
    s.append(t.as_str());
    s.append("\nAdditional medatada URI: ");
    let t = utf8_lossy(data.additional_metadata_uri.as_slice());
    s.append(t.as_str());
    s.append("\nMedia URI: ");
    let t = utf8_lossy(data.media_uri.as_slice());
    s.append(t.as_str());
    Ok(s)
}

/// The text of a hashed time-locked contract.
pub open spec fn spec_v1_htlc_text(value: OutputValue, data: HashedTimelockContract, coin: CoinType) -> Result<
    Seq<char>,
    StatusWord,
> {
    match spec_v1_address(data.spend_key, coin) {
        Err(e) => Err(e),
        Ok(spend) => match spec_v1_address(data.refund_key, coin) {
            Err(e) => Err(e),
            Ok(refund) => match spec_v1_lock(data.refund_timelock) {
                Err(e) => Err(e),
                Ok(lock) => match spec_v1_value(value, coin) {
                    Err(e) => Err(e),
                    Ok(v) => Ok(
                        "Secret hash: "@ + spec_hex(data.secret_hash@) + "\nSpend key: "@ + spend
                            + "\nRefund key: "@ + refund + "\nRefund time lock: "@ + lock + "\n"@
                            + v,
                    ),
                },
            },
        },
    }
}

fn v1_htlc_text(value: &OutputValue, data: &HashedTimelockContract, coin: CoinType) -> (r: Result<
    String,
    StatusWord,
>)
    ensures
        v1_text(r) == spec_v1_htlc_text(*value, *data, coin),
{
    let secret = hex_string(&data.secret_hash);
    let spend = v1_address(&data.spend_key, coin)?;
    let refund = v1_address(&data.refund_key, coin)?;
    let lock = v1_lock(&data.refund_timelock)?;
    let v = v1_value(value, coin)?;
    let mut s = String::from_str("Secret hash: ");
    s.append(secret.as_str());
    s.append("\nSpend key: ");
    s.append(spend.as_str());
    s.append("\nRefund key: ");
    s.append(refund.as_str());
    s.append("\nRefund time lock: ");
    s.append(lock.as_str());
    s.append("\n");
    s.append(v.as_str());
    Ok(s)
}

/// The text of an order's creation.
pub open spec fn spec_v1_order_text(data: OrderData, coin: CoinType) -> Result<Seq<char>, StatusWord> {
    match spec_v1_value(data.ask, coin) {
        Err(e) => Err(e),
        Ok(ask) => match spec_v1_value(data.give, coin) {
            Err(e) => Err(e),
            Ok(give) => match spec_v1_address(data.conclude_key, coin) {
                Err(e) => Err(e),
                Ok(key) => Ok("Conclude key: "@ + key + "\nAsk: "@ + ask + "\nGive: "@ + give),
            },
        },
    }
}

fn v1_order_text(data: &OrderData, coin: CoinType) -> (r: Result<String, StatusWord>)
    ensures
        v1_text(r) == spec_v1_order_text(*data, coin),
{
    let ask = v1_value(&data.ask, coin)?;
    let give = v1_value(&data.give, coin)?;
    let key = v1_address(&data.conclude_key, coin)?;
    let mut s = String::from_str("Conclude key: ");
    s.append(key.as_str());
    s.append("\nAsk: ");
    s.append(ask.as_str());
    s.append("\nGive: ");
    s.append(give.as_str());
    Ok(s)
}

/// Prefixes a text result with a screen name.
pub open spec fn v1_named(name: Seq<char>, text: Result<Seq<char>, StatusWord>) -> Result<
    (Seq<char>, Seq<char>),
    StatusWord,
> {
    match text {
        Ok(t) => Ok((name, t)),
        Err(e) => Err(e),
    }
}

/// A screen result as characters.
pub open spec fn v1_screen(r: Result<(&str, String), StatusWord>) -> Result<
    (Seq<char>, Seq<char>),
    StatusWord,
> {
    match r {
        Ok((n, t)) => Ok((n@, t@)),
        Err(e) => Err(e),
    }
}

/// The screen of an output: its name and its text.
pub open spec fn spec_format_output(output: TxOutput, coin: CoinType) -> Result<
    (Seq<char>, Seq<char>),
    StatusWord,
> {
    match output {
        TxOutput::Transfer(value, destination) => v1_named(
            "Transfer"@,
            match spec_v1_address(destination, coin) {
                Err(e) => Err(e),
                Ok(a) => match spec_v1_value(value, coin) {
                    Err(e) => Err(e),
                    Ok(v) => Ok("Destination: "@ + a + "\n"@ + v + "\n"@),
                },
            },
        ),
        TxOutput::LockThenTransfer(value, destination, lock) => v1_named(
            "Lock then Transfer"@,
            match spec_v1_address(destination, coin) {
                Err(e) => Err(e),
                Ok(a) => match spec_v1_lock(lock) {
                    Err(e) => Err(e),
                    Ok(l) => match spec_v1_value(value, coin) {
                        Err(e) => Err(e),
                        Ok(v) => Ok("Destination: "@ + a + "\n"@ + l + "\n"@ + v + "\n"@),
                    },
                },
            },
        ),
        TxOutput::Burn(value) => v1_named("BURN"@, spec_v1_value(value, coin)),
        TxOutput::CreateStakePool(pool_id, data) => v1_named(
            "Create staking pool"@,
            spec_v1_stake_pool_text(pool_id, data, coin),
        ),
        TxOutput::ProduceBlockFromStake(destination, _) => v1_named(
            "Produce block from stake"@,
            match spec_v1_address(destination, coin) {
                Err(e) => Err(e),
                Ok(a) => Ok("New staker key: "@ + a),
            },
        ),
        TxOutput::CreateDelegationId(destination, pool_id) => v1_named(
            "Create delegation"@,
            match spec_v1_address(destination, coin) {
                Err(e) => Err(e),
                Ok(a) => match spec_v1_id(pool_id, spec_pool_id_prefix(coin)) {
                    Err(e) => Err(e),
                    Ok(p) => Ok("Address: "@ + a + "\nPoolId: "@ + p),
                },
            },
        ),
        TxOutput::DelegateStaking(amount, delegation_id) => v1_named(
            "Delegate staking"@,
            match spec_v1_id(delegation_id, spec_delegation_id_prefix(coin)) {
                Err(e) => Err(e),
                Ok(d) => Ok(d + "\n"@ + "Coins: "@ + spec_v1_amount(amount)),
            },
        ),
        TxOutput::IssueFungibleToken(TokenIssuance::V1(data)) => v1_named(
            "Issue fungible token"@,
            spec_v1_token_text(data, coin),
        ),
        TxOutput::IssueNft(_, NftIssuance::V0(data), destination) => v1_named(
            "Issue NFT token"@,
            spec_v1_nft_text(data, destination, coin),
        ),
        TxOutput::DataDeposit(data) => Ok(("Data deposit"@, spec_hex(data@))),
        TxOutput::Htlc(value, data) => v1_named("HTLC"@, spec_v1_htlc_text(value, data, coin)),
        TxOutput::CreateOrder(data) => v1_named("Create order"@, spec_v1_order_text(data, coin)),
    }
}

/// The screen of an output, as the first protocol version shows it.
pub fn format_output(output: &TxOutput, coin: CoinType) -> (r: Result<(&'static str, String), StatusWord>)
    ensures
        v1_screen(r) == spec_format_output(*output, coin),
{
    match output {
        TxOutput::Transfer(value, destination) => {
            let a = v1_address(destination, coin)?;
            let v = v1_value(value, coin)?;
            let mut s = String::from_str("Destination: ");
            s.append(a.as_str());
            s.append("\n");
            s.append(v.as_str());
            s.append("\n");
            Ok(("Transfer", s))
        },
        TxOutput::LockThenTransfer(value, destination, lock) => {
            let a = v1_address(destination, coin)?;
            let l = v1_lock(lock)?;
            let v = v1_value(value, coin)?;
            let mut s = String::from_str("Destination: ");
            s.append(a.as_str());
            s.append("\n");
            s.append(l.as_str());
            s.append("\n");
            s.append(v.as_str());
            s.append("\n");
            Ok(("Lock then Transfer", s))
        },
        TxOutput::Burn(value) => {
            let v = v1_value(value, coin)?;
            Ok(("BURN", v))
        },
        TxOutput::CreateStakePool(pool_id, data) => {
            let s = v1_stake_pool_text(pool_id, data, coin)?;
            Ok(("Create staking pool", s))
        },
        TxOutput::ProduceBlockFromStake(destination, _) => {
            let a = v1_address(destination, coin)?;
            let mut s = String::from_str("New staker key: ");
            s.append(a.as_str());
            Ok(("Produce block from stake", s))
        },
        TxOutput::CreateDelegationId(destination, pool_id) => {
            let a = v1_address(destination, coin)?;
            let p = match pool_id_to_address(pool_id, coin) {
                Ok(t) => t,
                Err(_) => return Err(StatusWord::TxAddressFail),
            };
            let mut s = String::from_str("Address: ");
            s.append(a.as_str());
            s.append("\nPoolId: ");
            s.append(p.as_str());
            Ok(("Create delegation", s))
        },
        TxOutput::DelegateStaking(amount, delegation_id) => {
            let mut s = match delegation_id_to_address(delegation_id, coin) {
                Ok(t) => t,
                Err(_) => return Err(StatusWord::TxAddressFail),
            };
            s.append("\n");
            s.append("Coins: ");
            let t = format_coin_amount(*amount, coin);
            s.append(t.as_str());
            Ok(("Delegate staking", s))
        },
        TxOutput::IssueFungibleToken(TokenIssuance::V1(data)) => {
            let s = v1_token_text(data, coin)?;
            Ok(("Issue fungible token", s))
        },
        TxOutput::IssueNft(_, NftIssuance::V0(data), destination) => {
            let s = v1_nft_text(data, destination, coin)?;
            Ok(("Issue NFT token", s))
        },
        TxOutput::DataDeposit(data) => {
            let s = hex_string(data.as_slice());
            Ok(("Data deposit", s))
        },
        TxOutput::Htlc(value, data) => {
            let s = v1_htlc_text(value, data, coin)?;
            Ok(("HTLC", s))
        },
        TxOutput::CreateOrder(data) => {
            let s = v1_order_text(data, coin)?;
            Ok(("Create order", s))
        },
    }
}

/// The line of one asset's fee, from the fee or the underflow of its
/// totals: coins always, with the ticker; tokens only when the fee is not
/// zero, with the token's address. An underflow is `TxNumericOperationFail`.
pub open spec fn spec_v1_fee_line(
    fee: Result<(CoinOrTokenId, u128), crate::status::StatusWord>,
    coin: CoinType,
) -> Result<Seq<char>, StatusWord> {
    match fee {
        Err(_) => Err(StatusWord::TxNumericOperationFail),
        Ok((CoinOrTokenId::Coin, f)) => Ok(
            spec_coin_amount(f, 11) + " "@ + spec_coin_ticker(coin) + "\n"@,
        ),
        Ok((CoinOrTokenId::TokenId(id), f)) => if f == 0 {
            Ok(Seq::empty())
        } else {
            match spec_v1_id(id, spec_token_id_prefix(coin)) {
                Err(e) => Err(e),
                Ok(t) => Ok(spec_decimal(f as nat) + " "@ + t + "\n"@),
            }
        },
    }
}

/// The fee lines of the assets in order; the first error stops it.
pub open spec fn spec_v1_fees_text(
    fees: Seq<Result<(CoinOrTokenId, u128), crate::status::StatusWord>>,
    coin: CoinType,
) -> Result<Seq<char>, StatusWord>
    decreases fees.len(),
{
    if fees.len() == 0 {
        Ok(Seq::empty())
    } else {
        match spec_v1_fees_text(fees.drop_last(), coin) {
            Err(e) => Err(e),
            Ok(t) => match spec_v1_fee_line(fees.last(), coin) {
                Err(e) => Err(e),
                Ok(l) => Ok(t + l),
            },
        }
    }
}

/// Once the fee lines of a prefix fail, the whole text fails the same way.
proof fn lemma_v1_fees_text_stops(
    fees: Seq<Result<(CoinOrTokenId, u128), crate::status::StatusWord>>,
    coin: CoinType,
    i: nat,
)
    requires
        i < fees.len(),
        spec_v1_fees_text(fees.subrange(0, (i + 1) as int), coin) is Err,
    ensures
        spec_v1_fees_text(fees, coin) == spec_v1_fees_text(fees.subrange(0, (i + 1) as int), coin),
    decreases fees.len(),
{
    if fees.len() == i + 1 {
        assert(fees.subrange(0, (i + 1) as int) =~= fees);
    } else {
        assert(fees.drop_last().subrange(0, (i + 1) as int) =~= fees.subrange(0, (i + 1) as int));
        lemma_v1_fees_text_stops(fees.drop_last(), coin, i);
    }
}

/// The text of the fees, as the first protocol version shows it: one line
/// for each asset the inputs hold, in ascending order of the assets.
pub fn fees_text(summary: &TxSummaryCollector, coin: CoinType) -> (r: Result<String, StatusWord>)
    requires
        summary.wf(),
    ensures
        v1_text(r) == spec_v1_fees_text(spec_input_fees(*summary), coin),
{
    let fees = summary.fees_iter();
    let n = summary.total_inputs().entries().len();
    let ghost inputs = spec_input_fees(*summary);
    assert(fees@.subrange(0, n as int) =~= inputs);
    let mut acc = String::new();
    let mut i: usize = 0;
    while i < n
        invariant
            i <= n,
            n <= fees@.len(),
            inputs == spec_input_fees(*summary),
            fees@.subrange(0, n as int) == inputs,
            spec_v1_fees_text(inputs.subrange(0, i as int), coin) == Ok::<Seq<char>, StatusWord>(
                acc@,
            ),
        decreases n - i,
    {
        proof {
            assert(inputs.subrange(0, (i + 1) as int).drop_last() =~= inputs.subrange(0, i as int));
            assert(inputs[i as int] == fees@[i as int]);
        }
        let entry = fees[i];
        let ghost old_acc = acc@;
        match entry {
            Err(_) => {
                proof {
                    assert(inputs.subrange(0, (i + 1) as int).last() == inputs[i as int]);
                    assert(spec_v1_fees_text(inputs.subrange(0, (i + 1) as int), coin) == Err::<
                        Seq<char>,
                        StatusWord,
                    >(StatusWord::TxNumericOperationFail));
                    lemma_v1_fees_text_stops(inputs, coin, i as nat);
                }
                return Err(StatusWord::TxNumericOperationFail);
            },
            Ok((key, fee)) => {
                match key {
                    CoinOrTokenId::Coin => {
                        let a = format_coin_amount(Amount::from_atoms(fee), coin);
                        acc.append(a.as_str());
                        acc.append(" ");
                        acc.append(coin.coin_ticker());
                        acc.append("\n");
                        assert(acc@ =~= old_acc + (spec_coin_amount(fee, 11) + " "@
                            + spec_coin_ticker(coin) + "\n"@));
                    },
                    CoinOrTokenId::TokenId(id) => {
                        if fee != 0 {
                            match token_id_to_address(&id, coin) {
                                Ok(t) => {
                                    let d = decimal(fee);
                                    acc.append(d.as_str());
                                    acc.append(" ");
                                    acc.append(t.as_str());
                                    acc.append("\n");
                                    assert(acc@ =~= old_acc + (d@ + " "@ + t@ + "\n"@));
                                },
                                Err(_) => {
                                    proof {
                                        assert(inputs.subrange(0, (i + 1) as int).last()
                                            == inputs[i as int]);
                                        assert(spec_v1_fees_text(
                                            inputs.subrange(0, (i + 1) as int),
                                            coin,
                                        ) == Err::<Seq<char>, StatusWord>(
                                            StatusWord::TxAddressFail,
                                        ));
                                        lemma_v1_fees_text_stops(inputs, coin, i as nat);
                                    }
                                    return Err(StatusWord::TxAddressFail);
                                },
                            }
                        } else {
                            assert(acc@ =~= acc@ + Seq::<char>::empty());
                        }
                    },
                }
            },
        }
        i += 1;
    }
    proof {
        assert(inputs.subrange(0, n as int) =~= inputs);
    }
    Ok(acc)
}

/// A message as the first protocol version shows it: as text when it is
/// ASCII, otherwise as `0x` and lowercase hexadecimal.
pub open spec fn spec_message_text(message: Seq<u8>) -> Seq<char> {
    if spec_all_ascii(message) {
        spec_ascii_chars(message)
    } else {
        "0x"@ + spec_hex(message)
    }
}

/// The text of a message to sign.
pub fn message_text(message: &[u8]) -> (r: String)
    ensures
        r@ == spec_message_text(message@),
{
    let mut i: usize = 0;
    while i < message.len()
        invariant
            i <= message@.len(),
            forall|j: int| 0 <= j < i ==> #[trigger] message@[j] < 0x80,
        decreases message@.len() - i,
    {
        if message[i] >= 0x80 {
            let mut s = String::from_str("0x");
            let h = hex_string(message);
            s.append(h.as_str());
            return s;
        }
        i += 1;
    }
    let mut s = String::new();
    let mut k: usize = 0;
    while k < message.len()
        invariant
            k <= message@.len(),
            spec_all_ascii(message@),
            s@ == spec_ascii_chars(message@.subrange(0, k as int)),
        decreases message@.len() - k,
    {
        push_char(&mut s, message[k] as char);
        k += 1;
        proof {
            assert(s@ =~= spec_ascii_chars(message@.subrange(0, k as int)));
        }
    }
    proof {
        assert(message@.subrange(0, k as int) =~= message@);
    }
    s
}

/// The first version's screen of an order's creation shows the conclude
/// key, then after `Ask:` the value the order asks for and after `Give:` the
/// value it gives; it fails exactly when one of them cannot be shown.
pub proof fn lemma_v1_order_screen_shows_ask_then_give(data: OrderData, coin: CoinType)
    ensures
        ({
            let r = spec_format_output(TxOutput::CreateOrder(data), coin);
            let ask = spec_v1_value(data.ask, coin);
            let give = spec_v1_value(data.give, coin);
            let key = spec_v1_address(data.conclude_key, coin);
            &&& r is Ok <==> ask is Ok && give is Ok && key is Ok
            &&& r is Ok ==> r == Ok::<(Seq<char>, Seq<char>), StatusWord>(
                (
                    "Create order"@,
                    "Conclude key: "@ + key->Ok_0 + "\nAsk: "@ + ask->Ok_0 + "\nGive: "@
                        + give->Ok_0,
                ),
            )
        }),
{
}

/// The first version shows coins as `Coins:` and the amount with the
/// network's decimals, and tokens as `Token:`, the token's address and the
/// atoms: the shown amount is always the value's own.
pub proof fn lemma_v1_value_text(value: OutputValue, coin: CoinType)
    ensures
        value matches OutputValue::Coin(a) ==> spec_v1_value(value, coin) == Ok::<
            Seq<char>,
            StatusWord,
        >("Coins: "@ + spec_coin_amount(a.atoms, 11)),
        value matches OutputValue::TokenV1(id, a) ==> match spec_bech32m(
            spec_token_id_prefix(coin),
            id.0@,
        ) {
            Ok(t) => spec_v1_value(value, coin) == Ok::<Seq<char>, StatusWord>(
                "Token: "@ + t + " "@ + spec_decimal(a.atoms as nat),
            ),
            Err(_) => spec_v1_value(value, coin) == Err::<Seq<char>, StatusWord>(
                StatusWord::TxAddressFail,
            ),
        },
{
}

/// The first version's screen of a burn shows the burnt value under the
/// name `BURN`.
pub proof fn lemma_v1_burn_screen(value: OutputValue, coin: CoinType)
    ensures
        ({
            let r = spec_format_output(TxOutput::Burn(value), coin);
            &&& r is Ok <==> spec_v1_value(value, coin) is Ok
            &&& r is Ok ==> r == Ok::<(Seq<char>, Seq<char>), StatusWord>(
                ("BURN"@, spec_v1_value(value, coin)->Ok_0),
            )
        }),
{
}

/// The first version's screen of a transfer shows the destination, then the
/// value; that of a hashed time-locked contract the spending key before the
/// refund key.
pub proof fn lemma_v1_transfer_and_htlc_screens(
    v: OutputValue,
    d: Destination,
    data: HashedTimelockContract,
    coin: CoinType,
)
    ensures
        ({
            let r = spec_format_output(TxOutput::Transfer(v, d), coin);
            let a = spec_v1_address(d, coin);
            let t = spec_v1_value(v, coin);
            &&& r is Ok <==> a is Ok && t is Ok
            &&& r is Ok ==> r == Ok::<(Seq<char>, Seq<char>), StatusWord>(
                ("Transfer"@, "Destination: "@ + a->Ok_0 + "\n"@ + t->Ok_0 + "\n"@),
            )
        }),
        ({
            let r = spec_format_output(TxOutput::Htlc(v, data), coin);
            let spend = spec_v1_address(data.spend_key, coin);
            let refund = spec_v1_address(data.refund_key, coin);
            let lock = spec_v1_lock(data.refund_timelock);
            let t = spec_v1_value(v, coin);
            &&& r is Ok <==> spend is Ok && refund is Ok && lock is Ok && t is Ok
            &&& r is Ok ==> r->Ok_0.1 == "Secret hash: "@ + spec_hex(data.secret_hash@)
                + "\nSpend key: "@ + spend->Ok_0 + "\nRefund key: "@ + refund->Ok_0
                + "\nRefund time lock: "@ + lock->Ok_0 + "\n"@ + t->Ok_0
        }),
{
}

/// In the first version's fees, an asset whose outputs exceed its inputs is
/// `TxNumericOperationFail`; a coin fee is its amount with the ticker; a
/// token fee shows its atoms and the token, and nothing when it is zero.
pub proof fn lemma_v1_fee_lines(k: CoinOrTokenId, f: u128, coin: CoinType)
    ensures
        spec_v1_fee_line(
            Err::<(CoinOrTokenId, u128), crate::status::StatusWord>(
                crate::status::StatusWord::TxFeeUnderflow,
            ),
            coin,
        ) == Err::<Seq<char>, StatusWord>(StatusWord::TxNumericOperationFail),
        k == CoinOrTokenId::Coin ==> spec_v1_fee_line(Ok((k, f)), coin) == Ok::<
            Seq<char>,
            StatusWord,
        >(spec_coin_amount(f, 11) + " "@ + spec_coin_ticker(coin) + "\n"@),
        k matches CoinOrTokenId::TokenId(id) ==> (f == 0 ==> spec_v1_fee_line(Ok((k, f)), coin)
            == Ok::<Seq<char>, StatusWord>(Seq::empty())) && (f != 0 && spec_bech32m(
            spec_token_id_prefix(coin),
            id.0@,
        ) is Ok ==> spec_v1_fee_line(Ok((k, f)), coin) == Ok::<Seq<char>, StatusWord>(
            spec_decimal(f as nat) + " "@ + spec_bech32m(spec_token_id_prefix(coin), id.0@)->Ok_0
                + "\n"@,
        )),
{
}

} // verus!
