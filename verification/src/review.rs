//! What the user reviews of a transaction: each output, the input command,
//! the fees and the title of the approval screen.
//!
//! Screen names are shorter on small screens, where a name that does not fit
//! on one line would be cut.

use vstd::prelude::*;

use crate::primitives::{
    AccountCommand, AccountSpending, IsTokenUnfreezable, OrderAccountCommand,
    spec_order_id_prefix, spec_token_id_prefix, spec_delegation_id_prefix, spec_pool_id_prefix, spec_vrf_public_key_prefix, CoinType,
    Destination, HashedTimelockContract, IsTokenFreezable, NftIssuance, NftIssuanceV0,
    OrderData, OutputValue, StakePoolData, TokenIssuance, TokenIssuanceV1, TokenTotalSupply,
    TxOutput, H256,
};
use crate::status::StatusWord;
use crate::summary::{spec_fees, InputCommand, TxSummaryCollector, TxType};
use crate::totals::CoinOrTokenId;
use crate::text::{
    format_token_amount_with_name, spec_token_amount_with_name, order_id_to_address, output_value_with_amount, spec_value_with_amount, token_id_to_address,
    delegation_id_to_address, format_atoms, format_coin_amount_with_name, format_lock,
    format_value, hex_encode, make_displayable, pool_id_to_address, push_decimal, spec_atoms,
    spec_bech32m, spec_coin_amount_with_name, spec_decimal, spec_displayable, spec_format_lock,
    spec_format_value, spec_hex, spec_to_address, text_view, to_address, vrf_to_address,
};

verus! {

/// The name and text of one review screen.
#[derive(Debug)]
pub struct FormattedOutput {
    pub name: &'static str,
    pub value: String,
}

/// A formatted screen as its name and text.
pub open spec fn screen_view(r: Result<FormattedOutput, StatusWord>) -> Result<
    (Seq<char>, Seq<char>),
    StatusWord,
> {
    match r {
        Ok(f) => Ok((f.name@, f.value@)),
        Err(e) => Err(e),
    }
}

/// The text of a staking pool creation.
pub open spec fn spec_stake_pool_text(pool_id: H256, data: StakePoolData, coin: CoinType) -> Result<
    Seq<char>,
    StatusWord,
> {
    match spec_bech32m(spec_pool_id_prefix(coin), pool_id.0@) {
        Err(e) => Err(e),
        Ok(pool) => match spec_to_address(data.staker, coin) {
            Err(e) => Err(e),
            Ok(staker) => match spec_to_address(data.decommission_key, coin) {
                Err(e) => Err(e),
                Ok(decommission) => match spec_bech32m(
                    spec_vrf_public_key_prefix(coin),
                    crate::primitives::spec_encode_vrf_public_key(data.vrf_public_key),
                ) {
                    Err(e) => Err(e),
                    Ok(vrf) => Ok(
                        "Pool ID: "@ + pool + "\nStaker key: "@ + staker + "\nDecommission key: "@
                            + decommission + "\nVRF public key: "@ + vrf
                            + "\nMargin ratio per thousand: "@ + spec_decimal(
                            data.margin_ratio_per_thousand as nat,
                        ) + "\nCost per block: "@ + spec_coin_amount_with_name(
                            data.cost_per_block.atoms,
                            coin,
                        ) + "\nPledge: "@ + spec_coin_amount_with_name(data.pledge.atoms, coin)
                            + "\n"@,
                    ),
                },
            },
        },
    }
}

/// The text of a staking pool creation.
fn stake_pool_text(pool_id: &H256, data: &StakePoolData, coin: CoinType) -> (r: Result<
    String,
    StatusWord,
>)
    ensures
        text_view(r) == spec_stake_pool_text(*pool_id, *data, coin),
{
    let pool = pool_id_to_address(pool_id, coin)?;
    let staker = to_address(&data.staker, coin)?;
    let decommission = to_address(&data.decommission_key, coin)?;
    let vrf = vrf_to_address(&data.vrf_public_key, coin)?;
    let mut s = String::from_str("Pool ID: ");
    s.append(pool.as_str());
    s.append("\nStaker key: ");
    s.append(staker.as_str());
    s.append("\nDecommission key: ");
    s.append(decommission.as_str());
    s.append("\nVRF public key: ");
    s.append(vrf.as_str());
    s.append("\nMargin ratio per thousand: ");
    push_decimal(&mut s, data.margin_ratio_per_thousand as u128);
    s.append("\nCost per block: ");
    let cost = format_coin_amount_with_name(data.cost_per_block, coin);
    s.append(cost.as_str());
    s.append("\nPledge: ");
    let pledge = format_coin_amount_with_name(data.pledge, coin);
    s.append(pledge.as_str());
    s.append("\n");
    Ok(s)
}

/// The total supply of a token as text.
pub open spec fn spec_total_supply_text(supply: TokenTotalSupply) -> Seq<char> {
    match supply {
        TokenTotalSupply::Unlimited => "UNLIMITED"@,
        TokenTotalSupply::Lockable => "LOCKABLE"@,
        TokenTotalSupply::Fixed(a) => "FIXED "@ + spec_atoms(a.atoms),
    }
}

/// The text of a fungible token issuance.
pub open spec fn spec_fungible_token_text(data: TokenIssuanceV1, coin: CoinType) -> Result<
    Seq<char>,
    StatusWord,
> {
    match spec_to_address(data.authority, coin) {
        Err(e) => Err(e),
        Ok(authority) => Ok(
            "Ticker: "@ + spec_displayable(data.token_ticker@) + "\nAuthority: "@ + authority
                + "\nMetadata URI: "@ + spec_displayable(data.metadata_uri@)
                + "\nTotal token supply: "@ + spec_total_supply_text(data.total_supply)
                + "\nNumber of decimals: "@ + spec_decimal(data.number_of_decimals as nat)
                + "\nIs freezable: "@ + (if data.is_freezable == IsTokenFreezable::Yes {
                "Yes"@
            } else {
                "No"@
            }),
        ),
    }
}

/// The text of a fungible token issuance.
fn fungible_token_text(data: &TokenIssuanceV1, coin: CoinType) -> (r: Result<String, StatusWord>)
    ensures
        text_view(r) == spec_fungible_token_text(*data, coin),
{
    let ticker = make_displayable(data.token_ticker.as_slice());
    let metadata_uri = make_displayable(data.metadata_uri.as_slice());
    let authority = to_address(&data.authority, coin)?;
    let mut s = String::from_str("Ticker: ");
    s.append(ticker.as_str());
    s.append("\nAuthority: ");
    s.append(authority.as_str());
    s.append("\nMetadata URI: ");
    s.append(metadata_uri.as_str());
    s.append("\nTotal token supply: ");
    let ghost before_supply = s@;
    match data.total_supply {
        TokenTotalSupply::Unlimited => s.append("UNLIMITED"),
        TokenTotalSupply::Lockable => s.append("LOCKABLE"),
        TokenTotalSupply::Fixed(amount) => {
            s.append("FIXED ");
            let atoms = format_atoms(amount);
            s.append(atoms.as_str());
        },
    }
    assert(s@ == before_supply + spec_total_supply_text(data.total_supply));
    s.append("\nNumber of decimals: ");
    push_decimal(&mut s, data.number_of_decimals as u128);
    s.append("\nIs freezable: ");
    let ghost before_freezable = s@;
    match data.is_freezable {
        IsTokenFreezable::Yes => s.append("Yes"),
        IsTokenFreezable::No => s.append("No"),
    }
    assert(s@ == before_freezable + (if data.is_freezable == IsTokenFreezable::Yes {
        "Yes"@
    } else {
        "No"@
    }));
    Ok(s)
}

/// The address of an NFT's creator, empty without a creator.
pub open spec fn spec_creator_text(creator: Option<crate::primitives::PublicKey>, coin: CoinType) -> Result<
    Seq<char>,
    StatusWord,
> {
    match creator {
        None => Ok(Seq::empty()),
        Some(pk) => spec_to_address(Destination::PublicKey(pk), coin),
    }
}

/// The text of an NFT issuance.
pub open spec fn spec_nft_text(data: NftIssuanceV0, destination: Destination, coin: CoinType) -> Result<
    Seq<char>,
    StatusWord,
> {
    match spec_creator_text(data.creator, coin) {
        Err(e) => Err(e),
        Ok(creator) => match spec_to_address(destination, coin) {
            Err(e) => Err(e),
            Ok(address) => Ok(
                "Name: "@ + spec_displayable(data.name@) + "\nDescription: "@ + spec_displayable(
                    data.description@,
                ) + "\nCreator: "@ + creator + "\nTicker: "@ + spec_displayable(data.ticker@)
                    + "\nAddress: "@ + address + "\nIcon URI: "@ + spec_displayable(
                    data.icon_uri@,
                ) + "\nAdditional metadata URI: "@ + spec_displayable(
                    data.additional_metadata_uri@,
                ) + "\nMedia URI: "@ + spec_displayable(data.media_uri@) + ", Media hash: "@
                    + spec_displayable(data.media_hash@),
            ),
        },
    }
}

/// The text of an NFT issuance.
fn nft_text(data: &NftIssuanceV0, destination: &Destination, coin: CoinType) -> (r: Result<
    String,
    StatusWord,
>)
    ensures
        text_view(r) == spec_nft_text(*data, *destination, coin),
{
    let creator = match data.creator {
        Some(pk) => to_address(&Destination::PublicKey(pk), coin)?,
        None => String::new(),
    };
    let address = to_address(destination, coin)?;
    let mut s = String::from_str("Name: ");
    let t = make_displayable(data.name.as_slice());
    s.append(t.as_str());
    s.append("\nDescription: ");
    let t = make_displayable(data.description.as_slice());
    s.append(t.as_str());
    s.append("\nCreator: ");
    s.append(creator.as_str());
    s.append("\nTicker: ");
    let t = make_displayable(data.ticker.as_slice());
    s.append(t.as_str());
    s.append("\nAddress: ");
    s.append(address.as_str());
    s.append("\nIcon URI: ");
    let t = make_displayable(data.icon_uri.as_slice());
    s.append(t.as_str());
    s.append("\nAdditional metadata URI: ");
    let t = make_displayable(data.additional_metadata_uri.as_slice());
    s.append(t.as_str());
    s.append("\nMedia URI: ");
    let t = make_displayable(data.media_uri.as_slice());
    s.append(t.as_str());
    s.append(", Media hash: ");
    let t = make_displayable(data.media_hash.as_slice());
    s.append(t.as_str());
    Ok(s)
}

/// The text of a hashed time-locked contract.
pub open spec fn spec_htlc_text(value: OutputValue, data: HashedTimelockContract, coin: CoinType) -> Result<
    Seq<char>,
    StatusWord,
> {
    match spec_to_address(data.spend_key, coin) {
        Err(e) => Err(e),
        Ok(spend) => match spec_to_address(data.refund_key, coin) {
            Err(e) => Err(e),
            Ok(refund) => match spec_format_lock(data.refund_timelock) {
                Err(e) => Err(e),
                Ok(lock) => match spec_format_value(value, coin) {
                    Err(e) => Err(e),
                    Ok(v) => Ok(
                        "Secret hash: "@ + spec_hex(data.secret_hash@) + "\nSpend key: "@ + spend
                            + "\nRefund key: "@ + refund + "\nRefund time lock: "@ + lock + "\n"@
                            + v,
                    ),
                },
            },
        },
    }
}

/// The text of a hashed time-locked contract.
fn htlc_text(value: &OutputValue, data: &HashedTimelockContract, coin: CoinType) -> (r: Result<
    String,
    StatusWord,
>)
    ensures
        text_view(r) == spec_htlc_text(*value, *data, coin),
{
    let secret = hex_encode(&data.secret_hash);
    let spend = to_address(&data.spend_key, coin)?;
    let refund = to_address(&data.refund_key, coin)?;
    let lock = format_lock(&data.refund_timelock)?;
    let v = format_value(value, coin)?;
    let mut s = String::from_str("Secret hash: ");
    s.append(secret.as_str());
    s.append("\nSpend key: ");
    s.append(spend.as_str());
    s.append("\nRefund key: ");
    s.append(refund.as_str());
    s.append("\nRefund time lock: ");
    s.append(lock.as_str());
    s.append("\n");
    s.append(v.as_str());
    Ok(s)
}

/// The text of an order creation.
pub open spec fn spec_order_text(data: OrderData, coin: CoinType) -> Result<Seq<char>, StatusWord> {
    match spec_format_value(data.ask, coin) {
        Err(e) => Err(e),
        Ok(ask) => match spec_format_value(data.give, coin) {
            Err(e) => Err(e),
            Ok(give) => match spec_to_address(data.conclude_key, coin) {
                Err(e) => Err(e),
                Ok(key) => Ok("Conclude key: "@ + key + "\nAsk: "@ + ask + "\nGive: "@ + give),
            },
        },
    }
}

/// The text of an order creation.
fn order_text(data: &OrderData, coin: CoinType) -> (r: Result<String, StatusWord>)
    ensures
        text_view(r) == spec_order_text(*data, coin),
{
    let ask = format_value(&data.ask, coin)?;
    let give = format_value(&data.give, coin)?;
    let key = to_address(&data.conclude_key, coin)?;
    let mut s = String::from_str("Conclude key: ");
    s.append(key.as_str());
    s.append("\nAsk: ");
    s.append(ask.as_str());
    s.append("\nGive: ");
    s.append(give.as_str());
    Ok(s)
}

/// A name that is shorter on small screens.
pub open spec fn pick(small_screen: bool, short: &str, long: &str) -> Seq<char> {
    if small_screen {
        short@
    } else {
        long@
    }
}

/// A name that is shorter on small screens.
fn pick_name(small_screen: bool, short: &'static str, long: &'static str) -> (r: &'static str)
    ensures
        r@ == pick(small_screen, short, long),
{
    if small_screen {
        short
    } else {
        long
    }
}

/// The screen of an output: its name and text, or the error of an address,
/// time lock or value that cannot be shown.
pub open spec fn spec_format_output(out: TxOutput, coin: CoinType, small_screen: bool) -> Result<
    (Seq<char>, Seq<char>),
    StatusWord,
> {
    match out {
        TxOutput::Transfer(v, d) => match spec_to_address(d, coin) {
            Err(e) => Err(e),
            Ok(a) => match spec_format_value(v, coin) {
                Err(e) => Err(e),
                Ok(t) => Ok(("Transfer"@, "Destination: "@ + a + "\n"@ + t + "\n"@)),
            },
        },
        TxOutput::LockThenTransfer(v, d, lock) => match spec_to_address(d, coin) {
            Err(e) => Err(e),
            Ok(a) => match spec_format_lock(lock) {
                Err(e) => Err(e),
                Ok(l) => match spec_format_value(v, coin) {
                    Err(e) => Err(e),
                    Ok(t) => Ok(
                        (
                            pick(small_screen, "LockThenXfer", "Lock then Transfer"),
                            "Destination: "@ + a + "\n"@ + l + "\n"@ + t + "\n"@,
                        ),
                    ),
                },
            },
        },
        TxOutput::Burn(v) => match spec_format_value(v, coin) {
            Err(e) => Err(e),
            Ok(t) => Ok(("Burn"@, t)),
        },
        TxOutput::CreateStakePool(id, data) => match spec_stake_pool_text(id, data, coin) {
            Err(e) => Err(e),
            Ok(t) => Ok((pick(small_screen, "Create pool", "Create staking pool"), t)),
        },
        TxOutput::ProduceBlockFromStake(d, _) => match spec_to_address(d, coin) {
            Err(e) => Err(e),
            Ok(a) => Ok(
                (pick(small_screen, "Prod block", "Produce block from stake"), "New staker key: "@
                    + a),
            ),
        },
        TxOutput::CreateDelegationId(d, pool_id) => match spec_to_address(d, coin) {
            Err(e) => Err(e),
            Ok(a) => match spec_bech32m(spec_pool_id_prefix(coin), pool_id.0@) {
                Err(e) => Err(e),
                Ok(p) => Ok(
                    (
                        pick(small_screen, "Create deleg", "Create delegation"),
                        "Address: "@ + a + "\nPoolId: "@ + p,
                    ),
                ),
            },
        },
        TxOutput::DelegateStaking(amount, id) => match spec_bech32m(
            spec_delegation_id_prefix(coin),
            id.0@,
        ) {
            Err(e) => Err(e),
            Ok(d) => Ok(
                (
                    pick(small_screen, "Deleg stake", "Delegate staking"),
                    "\n"@ + d + "\n"@ + spec_coin_amount_with_name(amount.atoms, coin),
                ),
            ),
        },
        TxOutput::IssueFungibleToken(TokenIssuance::V1(data)) => match spec_fungible_token_text(
            data,
            coin,
        ) {
            Err(e) => Err(e),
            Ok(t) => Ok((pick(small_screen, "Issue token", "Issue fungible token"), t)),
        },
        TxOutput::IssueNft(_, NftIssuance::V0(data), d) => match spec_nft_text(data, d, coin) {
            Err(e) => Err(e),
            Ok(t) => Ok(("Issue NFT"@, t)),
        },
        TxOutput::DataDeposit(data) => Ok(("Data deposit"@, spec_hex(data@))),
        TxOutput::Htlc(v, data) => match spec_htlc_text(v, data, coin) {
            Err(e) => Err(e),
            Ok(t) => Ok(("HTLC"@, t)),
        },
        TxOutput::CreateOrder(data) => match spec_order_text(data, coin) {
            Err(e) => Err(e),
            Ok(t) => Ok(("Create order"@, t)),
        },
    }
}

/// The screen of an output.
pub fn format_output(output: &TxOutput, coin: CoinType, small_screen: bool) -> (r: Result<
    FormattedOutput,
    StatusWord,
>)
    ensures
        screen_view(r) == spec_format_output(*output, coin, small_screen),
{
    match output {
        TxOutput::Transfer(value, destination) => {
            let a = to_address(destination, coin)?;
            let t = format_value(value, coin)?;
            let mut s = String::from_str("Destination: ");
            s.append(a.as_str());
            s.append("\n");
            s.append(t.as_str());
            s.append("\n");
            Ok(FormattedOutput { name: "Transfer", value: s })
        },
        TxOutput::LockThenTransfer(value, destination, lock) => {
            let a = to_address(destination, coin)?;
            let l = format_lock(lock)?;
            let t = format_value(value, coin)?;
            let mut s = String::from_str("Destination: ");
            s.append(a.as_str());
            s.append("\n");
            s.append(l.as_str());
            s.append("\n");
            s.append(t.as_str());
            s.append("\n");
            let name = pick_name(small_screen, "LockThenXfer", "Lock then Transfer");
            Ok(FormattedOutput { name, value: s })
        },
        TxOutput::Burn(value) => {
            let t = format_value(value, coin)?;
            Ok(FormattedOutput { name: "Burn", value: t })
        },
        TxOutput::CreateStakePool(pool_id, data) => {
            let t = stake_pool_text(pool_id, data, coin)?;
            let name = pick_name(small_screen, "Create pool", "Create staking pool");
            Ok(FormattedOutput { name, value: t })
        },
        TxOutput::ProduceBlockFromStake(destination, _) => {
            let a = to_address(destination, coin)?;
            let mut s = String::from_str("New staker key: ");
            s.append(a.as_str());
            let name = pick_name(small_screen, "Prod block", "Produce block from stake");
            Ok(FormattedOutput { name, value: s })
        },
        TxOutput::CreateDelegationId(destination, pool_id) => {
            let a = to_address(destination, coin)?;
            let p = pool_id_to_address(pool_id, coin)?;
            let mut s = String::from_str("Address: ");
            s.append(a.as_str());
            s.append("\nPoolId: ");
            s.append(p.as_str());
            let name = pick_name(small_screen, "Create deleg", "Create delegation");
            Ok(FormattedOutput { name, value: s })
        },
        TxOutput::DelegateStaking(amount, delegation_id) => {
            let d = delegation_id_to_address(delegation_id, coin)?;
            let v = format_coin_amount_with_name(*amount, coin);
            let mut s = String::from_str("\n");
            s.append(d.as_str());
            s.append("\n");
            s.append(v.as_str());
            let name = pick_name(small_screen, "Deleg stake", "Delegate staking");
            Ok(FormattedOutput { name, value: s })
        },
        TxOutput::IssueFungibleToken(issuance) => {
            let TokenIssuance::V1(data) = issuance;
            let t = fungible_token_text(data, coin)?;
            let name = pick_name(small_screen, "Issue token", "Issue fungible token");
            Ok(FormattedOutput { name, value: t })
        },
        TxOutput::IssueNft(_, issuance, destination) => {
            let NftIssuance::V0(data) = issuance;
            let t = nft_text(data, destination, coin)?;
            Ok(FormattedOutput { name: "Issue NFT", value: t })
        },
        TxOutput::DataDeposit(data) => {
            let t = hex_encode(data.as_slice());
            Ok(FormattedOutput { name: "Data deposit", value: t })
        },
        TxOutput::Htlc(value, data) => {
            let t = htlc_text(value, data, coin)?;
            Ok(FormattedOutput { name: "HTLC", value: t })
        },
        TxOutput::CreateOrder(data) => {
            let t = order_text(data, coin)?;
            Ok(FormattedOutput { name: "Create order", value: t })
        },
    }
}

/// The text `"Token ID: <token address>"` and what follows it.
pub open spec fn spec_token_line(id: H256, coin: CoinType, rest: Seq<char>) -> Result<
    Seq<char>,
    StatusWord,
> {
    match spec_bech32m(spec_token_id_prefix(coin), id.0@) {
        Err(e) => Err(e),
        Ok(t) => Ok("Token ID: "@ + t + rest),
    }
}

/// The text `"Order ID: <order address>"` and what follows it.
pub open spec fn spec_order_line(id: H256, coin: CoinType, rest: Seq<char>) -> Result<
    Seq<char>,
    StatusWord,
> {
    match spec_bech32m(spec_order_id_prefix(coin), id.0@) {
        Err(e) => Err(e),
        Ok(o) => Ok("Order ID: "@ + o + rest),
    }
}

/// A screen with a given name over a text result.
pub open spec fn named(name: Seq<char>, text: Result<Seq<char>, StatusWord>) -> Result<
    (Seq<char>, Seq<char>),
    StatusWord,
> {
    match text {
        Err(e) => Err(e),
        Ok(t) => Ok((name, t)),
    }
}

/// The screen of the input command; commands of the old order kind are
/// refused with `OrdersV0NotSupported`.
pub open spec fn spec_format_input(input: InputCommand, coin: CoinType, small_screen: bool) -> Result<
    (Seq<char>, Seq<char>),
    StatusWord,
> {
    match input {
        InputCommand::AccountSpending(AccountSpending::DelegationBalance(id, amount)) => named(
            pick(small_screen, "Deleg wdrwl", "Delegation withdrawal"),
            match spec_bech32m(spec_delegation_id_prefix(coin), id.0@) {
                Err(e) => Err(e),
                Ok(d) => Ok(
                    "Delegation ID: "@ + d + "\nAmount: "@ + spec_coin_amount_with_name(
                        amount.atoms,
                        coin,
                    ),
                ),
            },
        ),
        InputCommand::AccountCommand(cmd) => match cmd {
            AccountCommand::MintTokens(id, amount) => named(
                "Mint tokens"@,
                spec_token_line(id, coin, "\nAmount: "@ + spec_atoms(amount.atoms)),
            ),
            AccountCommand::UnmintTokens(id) => named(
                "Unmint tokens"@,
                spec_token_line(id, coin, Seq::empty()),
            ),
            AccountCommand::LockTokenSupply(id) => named(
                pick(small_screen, "Lock supply", "Lock token supply"),
                spec_token_line(id, coin, Seq::empty()),
            ),
            AccountCommand::FreezeToken(id, unfreezable) => named(
                "Freeze token"@,
                spec_token_line(
                    id,
                    coin,
                    "\nIs unfreezable: "@ + (if unfreezable == IsTokenUnfreezable::Yes {
                        "Yes"@
                    } else {
                        "No"@
                    }),
                ),
            ),
            AccountCommand::UnfreezeToken(id) => named(
                pick(small_screen, "Unfrz token", "Unfreeze token"),
                spec_token_line(id, coin, Seq::empty()),
            ),
            AccountCommand::ChangeTokenAuthority(id, dest) => match spec_bech32m(
                spec_token_id_prefix(coin),
                id.0@,
            ) {
                Err(e) => Err(e),
                Ok(t) => named(
                    pick(small_screen, "Chg tkn auth", "Change token authority"),
                    match spec_to_address(dest, coin) {
                        Err(e) => Err(e),
                        Ok(a) => Ok("Token ID: "@ + t + "\nNew authority: "@ + a),
                    },
                ),
            },
            AccountCommand::ChangeTokenMetadataUri(id, uri) => named(
                pick(small_screen, "Chg tkn meta", "Change token metadata URI"),
                spec_token_line(id, coin, "\nNew metadata URI: "@ + spec_displayable(uri@)),
            ),
            AccountCommand::ConcludeOrder(_) | AccountCommand::FillOrder(_, _, _) => Err(
                StatusWord::OrdersV0NotSupported,
            ),
        },
        InputCommand::OrderCommand(cmd, info) => match cmd {
            OrderAccountCommand::FillOrder(id, fill) => match spec_bech32m(
                spec_order_id_prefix(coin),
                id.0@,
            ) {
                Err(e) => Err(e),
                Ok(o) => named(
                    "Fill order"@,
                    match spec_format_value(
                        spec_value_with_amount(info.initially_asked, fill),
                        coin,
                    ) {
                        Err(e) => Err(e),
                        Ok(v) => Ok("Order ID: "@ + o + "\nFill amount: "@ + v),
                    },
                ),
            },
            OrderAccountCommand::FreezeOrder(id) => named(
                "Freeze order"@,
                spec_order_line(id, coin, Seq::empty()),
            ),
            OrderAccountCommand::ConcludeOrder(id) => named(
                pick(small_screen, "Conclude ord", "Conclude order"),
                spec_order_line(id, coin, Seq::empty()),
            ),
        },
    }
}

/// `"Token ID: <token address>"`.
fn token_line(id: &H256, coin: CoinType) -> (r: Result<String, StatusWord>)
    ensures
        text_view(r) == spec_token_line(*id, coin, Seq::empty()),
{
    let t = token_id_to_address(id, coin)?;
    let mut s = String::from_str("Token ID: ");
    s.append(t.as_str());
    proof {
        assert(s@ =~= "Token ID: "@ + t@ + Seq::<char>::empty());
    }
    Ok(s)
}

/// `"Order ID: <order address>"`.
fn order_line(id: &H256, coin: CoinType) -> (r: Result<String, StatusWord>)
    ensures
        text_view(r) == spec_order_line(*id, coin, Seq::empty()),
{
    let o = order_id_to_address(id, coin)?;
    let mut s = String::from_str("Order ID: ");
    s.append(o.as_str());
    proof {
        assert(s@ =~= "Order ID: "@ + o@ + Seq::<char>::empty());
    }
    Ok(s)
}

/// The screen of the input command.
pub fn format_input(input: &InputCommand, coin: CoinType, small_screen: bool) -> (r: Result<
    FormattedOutput,
    StatusWord,
>)
    ensures
        screen_view(r) == spec_format_input(*input, coin, small_screen),
{
    match input {
        InputCommand::AccountSpending(cmd) => {
            let AccountSpending::DelegationBalance(id, amount) = cmd;
            let d = delegation_id_to_address(id, coin)?;
            let mut s = String::from_str("Delegation ID: ");
            s.append(d.as_str());
            s.append("\nAmount: ");
            let a = format_coin_amount_with_name(*amount, coin);
            s.append(a.as_str());
            let name = pick_name(small_screen, "Deleg wdrwl", "Delegation withdrawal");
            Ok(FormattedOutput { name, value: s })
        },
        InputCommand::AccountCommand(cmd) => match cmd {
            AccountCommand::MintTokens(id, amount) => {
                let mut s = token_line(id, coin)?;
                let ghost head = s@;
                s.append("\nAmount: ");
                let a = format_atoms(*amount);
                s.append(a.as_str());
                assert(s@ =~= head + ("\nAmount: "@ + a@));
                Ok(FormattedOutput { name: "Mint tokens", value: s })
            },
            AccountCommand::UnmintTokens(id) => {
                let s = token_line(id, coin)?;
                Ok(FormattedOutput { name: "Unmint tokens", value: s })
            },
            AccountCommand::LockTokenSupply(id) => {
                let s = token_line(id, coin)?;
                let name = pick_name(small_screen, "Lock supply", "Lock token supply");
                Ok(FormattedOutput { name, value: s })
            },
            AccountCommand::FreezeToken(id, unfreezable) => {
                let mut s = token_line(id, coin)?;
                let ghost head = s@;
                s.append("\nIs unfreezable: ");
                match unfreezable {
                    IsTokenUnfreezable::Yes => s.append("Yes"),
                    IsTokenUnfreezable::No => s.append("No"),
                }
                assert(s@ =~= head + ("\nIs unfreezable: "@ + (if *unfreezable
                    == IsTokenUnfreezable::Yes {
                    "Yes"@
                } else {
                    "No"@
                })));
                Ok(FormattedOutput { name: "Freeze token", value: s })
            },
            AccountCommand::UnfreezeToken(id) => {
                let s = token_line(id, coin)?;
                let name = pick_name(small_screen, "Unfrz token", "Unfreeze token");
                Ok(FormattedOutput { name, value: s })
            },
            AccountCommand::ChangeTokenAuthority(id, dest) => {
                let mut s = token_line(id, coin)?;
                let a = to_address(dest, coin)?;
                s.append("\nNew authority: ");
                s.append(a.as_str());
                let name = pick_name(small_screen, "Chg tkn auth", "Change token authority");
                Ok(FormattedOutput { name, value: s })
            },
            AccountCommand::ChangeTokenMetadataUri(id, uri) => {
                let mut s = token_line(id, coin)?;
                let ghost head = s@;
                s.append("\nNew metadata URI: ");
                let u = make_displayable(uri.as_slice());
                s.append(u.as_str());
                assert(s@ =~= head + ("\nNew metadata URI: "@ + u@));
                let name = pick_name(small_screen, "Chg tkn meta", "Change token metadata URI");
                Ok(FormattedOutput { name, value: s })
            },
            AccountCommand::ConcludeOrder(_) | AccountCommand::FillOrder(_, _, _) => {
                Err(StatusWord::OrdersV0NotSupported)
            },
        },
        InputCommand::OrderCommand(cmd, info) => match cmd {
            OrderAccountCommand::FillOrder(id, fill) => {
                let mut s = order_line(id, coin)?;
                let fill_value = output_value_with_amount(&info.initially_asked, *fill);
                let v = format_value(&fill_value, coin)?;
                s.append("\nFill amount: ");
                s.append(v.as_str());
                Ok(FormattedOutput { name: "Fill order", value: s })
            },
            OrderAccountCommand::FreezeOrder(id) => {
                let s = order_line(id, coin)?;
                Ok(FormattedOutput { name: "Freeze order", value: s })
            },
            OrderAccountCommand::ConcludeOrder(id) => {
                let s = order_line(id, coin)?;
                let name = pick_name(small_screen, "Conclude ord", "Conclude order");
                Ok(FormattedOutput { name, value: s })
            },
        },
    }
}

/// The line of one asset's fee: coins always, with the ticker; tokens only
/// when the fee is not zero, with the token's address.
pub open spec fn spec_fee_line(entry: (CoinOrTokenId, u128), coin: CoinType) -> Result<
    Seq<char>,
    StatusWord,
> {
    match entry.0 {
        CoinOrTokenId::Coin => Ok(spec_coin_amount_with_name(entry.1, coin) + "\n"@),
        CoinOrTokenId::TokenId(id) => if entry.1 == 0 {
            Ok(Seq::empty())
        } else {
            match spec_token_amount_with_name(id, entry.1, coin) {
                Err(e) => Err(e),
                Ok(t) => Ok(t + "\n"@),
            }
        },
    }
}

/// The fee lines of all assets in order; the first error of a fee or a
/// line stops it.
pub open spec fn spec_fees_text(
    fees: Seq<Result<(CoinOrTokenId, u128), StatusWord>>,
    coin: CoinType,
) -> Result<Seq<char>, StatusWord>
    decreases fees.len(),
{
    if fees.len() == 0 {
        Ok(Seq::empty())
    } else {
        match spec_fees_text(fees.drop_last(), coin) {
            Err(e) => Err(e),
            Ok(t) => match fees.last() {
                Err(e) => Err(e),
                Ok(entry) => match spec_fee_line(entry, coin) {
                    Err(e) => Err(e),
                    Ok(l) => Ok(t + l),
                },
            },
        }
    }
}

/// The text of the fees on the approval screen.
pub fn fees_text(summary: &TxSummaryCollector, coin: CoinType) -> (r: Result<String, StatusWord>)
    requires
        summary.wf(),
    ensures
        text_view(r) == spec_fees_text(spec_fees(*summary), coin),
{
    let fees = summary.fees_iter();
    assert(fees@ =~= spec_fees(*summary));
    let mut acc = String::new();
    let mut i: usize = 0;
    while i < fees.len()
        invariant
            i <= fees@.len(),
            fees@ == spec_fees(*summary),
            spec_fees_text(fees@.subrange(0, i as int), coin) == Ok::<Seq<char>, StatusWord>(
                acc@,
            ),
        decreases fees@.len() - i,
    {
        proof {
            assert(fees@.subrange(0, (i + 1) as int).drop_last() =~= fees@.subrange(0, i as int));
        }
        let entry = fees[i];
        let ghost old_acc = acc@;
        match entry {
            Err(e) => {
                proof {
                    assert(spec_fees_text(fees@.subrange(0, (i + 1) as int), coin) == Err::<
                        Seq<char>,
                        StatusWord,
                    >(e));
                    lemma_fees_text_stops(fees@, coin, i as nat);
                }
                return Err(e);
            },
            Ok((key, fee)) => {
                match key {
                    CoinOrTokenId::Coin => {
                        let a = format_coin_amount_with_name(
                            crate::primitives::Amount::from_atoms(fee),
                            coin,
                        );
                        acc.append(a.as_str());
                        acc.append("\n");
                        assert(acc@ =~= old_acc + (a@ + "\n"@));
                    },
                    CoinOrTokenId::TokenId(id) => {
                        if fee != 0 {
                            let t = format_token_amount_with_name(
                                &id,
                                crate::primitives::Amount::from_atoms(fee),
                                coin,
                            );
                            match t {
                                Ok(t) => {
                                    acc.append(t.as_str());
                                    acc.append("\n");
                                    assert(acc@ =~= old_acc + (t@ + "\n"@));
                                },
                                Err(e) => {
                                    proof {
                                        assert(spec_fees_text(
                                            fees@.subrange(0, (i + 1) as int),
                                            coin,
                                        ) == Err::<Seq<char>, StatusWord>(e));
                                        lemma_fees_text_stops(fees@, coin, i as nat);
                                    }
                                    return Err(e);
                                },
                            }
                        } else {
                            assert(acc@ =~= acc@ + Seq::<char>::empty());
                        }
                    },
                }
            },
        }
        i += 1;
    }
    proof {
        assert(fees@.subrange(0, fees@.len() as int) =~= fees@);
    }
    Ok(acc)
}

/// Once the fee lines of a prefix fail, the whole text fails the same way.
pub proof fn lemma_fees_text_stops(
    fees: Seq<Result<(CoinOrTokenId, u128), StatusWord>>,
    coin: CoinType,
    i: nat,
)
    requires
        i < fees.len(),
        spec_fees_text(fees.subrange(0, (i + 1) as int), coin) is Err,
    ensures
        spec_fees_text(fees, coin) == spec_fees_text(fees.subrange(0, (i + 1) as int), coin),
    decreases fees.len(),
{
    if fees.len() == i + 1 {
        assert(fees.subrange(0, (i + 1) as int) =~= fees);
    } else {
        assert(fees.drop_last().subrange(0, (i + 1) as int) =~= fees.subrange(0, (i + 1) as int));
        lemma_fees_text_stops(fees.drop_last(), coin, i);
    }
}

/// The title of the approval screen for a kind of transaction.
pub open spec fn spec_transaction_title(tx_type: Option<TxType>) -> Seq<char> {
    match tx_type {
        None => "Sign transaction"@,
        Some(TxType::ComplexTransaction) => "Sign transaction"@,
        Some(TxType::Transfer) => "Sign transfer transaction"@,
        Some(TxType::Burn) => "Sign burn transaction"@,
        Some(TxType::Htlc) => "Sign create HTLC transaction"@,
        Some(TxType::CreateDelegation) => "Sign create delegation transaction"@,
        Some(TxType::DelegateStaking) => "Sign delegate staking transaction"@,
        Some(TxType::DelegationWithdrawal) => "Sign delegation withdrawal transaction"@,
        Some(TxType::CreateStakePool) => "Sign create stake pool transaction"@,
        Some(TxType::DecommissionStakePool) => "Sign decommission stake pool transaction"@,
        Some(TxType::CreateNft) => "Sign create NFT transaction"@,
        Some(TxType::CreateToken) => "Sign create token transaction"@,
        Some(TxType::MintTokens) => "Sign mint tokens transaction"@,
        Some(TxType::UnmintTokens) => "Sign unmint tokens transaction"@,
        Some(TxType::FreezeToken) => "Sign freeze tokens transaction"@,
        Some(TxType::UnfreezeToken) => "Sign unfreeze tokens transaction"@,
        Some(TxType::LockTokenSupply) => "Sign lock token supply transaction"@,
        Some(TxType::ChangeTokenAuthority) => "Sign change token authority transaction"@,
        Some(TxType::ChangeTokenMetadataUri) => "Sign change token metadata URI transaction"@,
        Some(TxType::CreateOrder) => "Sign create order transaction"@,
        Some(TxType::FillOrder) => "Sign fill order transaction"@,
        Some(TxType::FreezeOrder) => "Sign freeze order transaction"@,
        Some(TxType::ConcludeOrder) => "Sign conclude order transaction"@,
        Some(TxType::DataDeposit) => "Sign data deposit transaction"@,
    }
}

/// The title of the approval screen for a kind of transaction.
pub fn transaction_title(tx_type: &Option<TxType>) -> (r: &'static str)
    ensures
        r@ == spec_transaction_title(*tx_type),
{
    match tx_type {
        None | Some(TxType::ComplexTransaction) => "Sign transaction",
        Some(TxType::Transfer) => "Sign transfer transaction",
        Some(TxType::Burn) => "Sign burn transaction",
        Some(TxType::Htlc) => "Sign create HTLC transaction",
        Some(TxType::CreateDelegation) => "Sign create delegation transaction",
        Some(TxType::DelegateStaking) => "Sign delegate staking transaction",
        Some(TxType::DelegationWithdrawal) => "Sign delegation withdrawal transaction",
        Some(TxType::CreateStakePool) => "Sign create stake pool transaction",
        Some(TxType::DecommissionStakePool) => "Sign decommission stake pool transaction",
        Some(TxType::CreateNft) => "Sign create NFT transaction",
        Some(TxType::CreateToken) => "Sign create token transaction",
        Some(TxType::MintTokens) => "Sign mint tokens transaction",
        Some(TxType::UnmintTokens) => "Sign unmint tokens transaction",
        Some(TxType::FreezeToken) => "Sign freeze tokens transaction",
        Some(TxType::UnfreezeToken) => "Sign unfreeze tokens transaction",
        Some(TxType::LockTokenSupply) => "Sign lock token supply transaction",
        Some(TxType::ChangeTokenAuthority) => "Sign change token authority transaction",
        Some(TxType::ChangeTokenMetadataUri) => "Sign change token metadata URI transaction",
        Some(TxType::CreateOrder) => "Sign create order transaction",
        Some(TxType::FillOrder) => "Sign fill order transaction",
        Some(TxType::FreezeOrder) => "Sign freeze order transaction",
        Some(TxType::ConcludeOrder) => "Sign conclude order transaction",
        Some(TxType::DataDeposit) => "Sign data deposit transaction",
    }
}

/// The screen of an order's creation shows the order's conclude key, then
/// after `Ask:` what the order asks for and after `Give:` what it gives; it
/// fails exactly when one of the three cannot be shown, with that error.
pub proof fn lemma_order_screen_shows_ask_then_give(
    data: OrderData,
    coin: CoinType,
    small_screen: bool,
)
    ensures
        ({
            let r = spec_format_output(TxOutput::CreateOrder(data), coin, small_screen);
            let ask = spec_format_value(data.ask, coin);
            let give = spec_format_value(data.give, coin);
            let key = spec_to_address(data.conclude_key, coin);
            &&& r is Ok <==> ask is Ok && give is Ok && key is Ok
            &&& r is Ok ==> r == Ok::<(Seq<char>, Seq<char>), StatusWord>(
                (
                    "Create order"@,
                    "Conclude key: "@ + key->Ok_0 + "\nAsk: "@ + ask->Ok_0 + "\nGive: "@
                        + give->Ok_0,
                ),
            )
        }),
{
}

/// The screen of a transfer shows the destination's address, then the value.
pub proof fn lemma_transfer_screen(v: OutputValue, d: Destination, coin: CoinType, small_screen: bool)
    ensures
        ({
            let r = spec_format_output(TxOutput::Transfer(v, d), coin, small_screen);
            let a = spec_to_address(d, coin);
            let t = spec_format_value(v, coin);
            &&& r is Ok <==> a is Ok && t is Ok
            &&& r is Ok ==> r == Ok::<(Seq<char>, Seq<char>), StatusWord>(
                ("Transfer"@, "Destination: "@ + a->Ok_0 + "\n"@ + t->Ok_0 + "\n"@),
            )
        }),
{
}

/// The screen of a token freeze says `Yes` after `Is unfreezable:` exactly
/// when the token can be unfrozen, and `No` when it cannot.
pub proof fn lemma_freeze_token_screen(
    id: H256,
    unfreezable: IsTokenUnfreezable,
    coin: CoinType,
    small_screen: bool,
)
    ensures
        ({
            let r = spec_format_input(
                InputCommand::AccountCommand(AccountCommand::FreezeToken(id, unfreezable)),
                coin,
                small_screen,
            );
            let t = spec_bech32m(spec_token_id_prefix(coin), id.0@);
            &&& r is Ok <==> t is Ok
            &&& r is Ok && unfreezable == IsTokenUnfreezable::Yes ==> r == Ok::<
                (Seq<char>, Seq<char>),
                StatusWord,
            >(("Freeze token"@, "Token ID: "@ + t->Ok_0 + ("\nIs unfreezable: "@ + "Yes"@)))
            &&& r is Ok && unfreezable == IsTokenUnfreezable::No ==> r == Ok::<
                (Seq<char>, Seq<char>),
                StatusWord,
            >(("Freeze token"@, "Token ID: "@ + t->Ok_0 + ("\nIs unfreezable: "@ + "No"@)))
        }),
{
}

/// A freezable-again token and one that cannot be unfrozen never get the
/// same freeze screen.
pub proof fn lemma_freeze_screens_differ(id: H256, coin: CoinType, small_screen: bool)
    ensures
        ({
            let yes = spec_format_input(
                InputCommand::AccountCommand(
                    AccountCommand::FreezeToken(id, IsTokenUnfreezable::Yes),
                ),
                coin,
                small_screen,
            );
            let no = spec_format_input(
                InputCommand::AccountCommand(AccountCommand::FreezeToken(id, IsTokenUnfreezable::No)),
                coin,
                small_screen,
            );
            yes is Ok ==> yes != no
        }),
{
    reveal_strlit("Yes");
    reveal_strlit("No");
    let yes = spec_format_input(
        InputCommand::AccountCommand(AccountCommand::FreezeToken(id, IsTokenUnfreezable::Yes)),
        coin,
        small_screen,
    );
    let no = spec_format_input(
        InputCommand::AccountCommand(AccountCommand::FreezeToken(id, IsTokenUnfreezable::No)),
        coin,
        small_screen,
    );
    lemma_freeze_token_screen(id, IsTokenUnfreezable::Yes, coin, small_screen);
    lemma_freeze_token_screen(id, IsTokenUnfreezable::No, coin, small_screen);
    if yes is Ok {
        assert(yes->Ok_0.1.len() == no->Ok_0.1.len() + 1);
    }
}

/// The screen of an order fill shows the filled amount in the asset the
/// order asks for.
pub proof fn lemma_fill_order_screen(
    id: H256,
    fill: crate::primitives::Amount,
    info: crate::messages::AdditionalOrderInfo,
    coin: CoinType,
    small_screen: bool,
)
    ensures
        ({
            let r = spec_format_input(
                InputCommand::OrderCommand(OrderAccountCommand::FillOrder(id, fill), info),
                coin,
                small_screen,
            );
            let o = spec_bech32m(spec_order_id_prefix(coin), id.0@);
            let v = spec_format_value(
                match info.initially_asked {
                    OutputValue::Coin(_) => OutputValue::Coin(fill),
                    OutputValue::TokenV1(t, _) => OutputValue::TokenV1(t, fill),
                },
                coin,
            );
            &&& r is Ok <==> o is Ok && v is Ok
            &&& r is Ok ==> r == Ok::<(Seq<char>, Seq<char>), StatusWord>(
                ("Fill order"@, "Order ID: "@ + o->Ok_0 + "\nFill amount: "@ + v->Ok_0),
            )
        }),
{
}

/// The screen of a staking pool's creation names the pool, then the staker's
/// key before the decommission key, the VRF key, the margin ratio, and the
/// cost per block before the pledge.
pub proof fn lemma_stake_pool_screen(
    pool_id: H256,
    data: StakePoolData,
    coin: CoinType,
    small_screen: bool,
)
    ensures
        ({
            let r = spec_format_output(TxOutput::CreateStakePool(pool_id, data), coin, small_screen);
            let pool = spec_bech32m(spec_pool_id_prefix(coin), pool_id.0@);
            let staker = spec_to_address(data.staker, coin);
            let decommission = spec_to_address(data.decommission_key, coin);
            let vrf = spec_bech32m(
                spec_vrf_public_key_prefix(coin),
                crate::primitives::spec_encode_vrf_public_key(data.vrf_public_key),
            );
            &&& r is Ok <==> pool is Ok && staker is Ok && decommission is Ok && vrf is Ok
            &&& r is Ok ==> r->Ok_0.1 == "Pool ID: "@ + pool->Ok_0 + "\nStaker key: "@
                + staker->Ok_0 + "\nDecommission key: "@ + decommission->Ok_0
                + "\nVRF public key: "@ + vrf->Ok_0 + "\nMargin ratio per thousand: "@
                + spec_decimal(data.margin_ratio_per_thousand as nat) + "\nCost per block: "@
                + spec_coin_amount_with_name(data.cost_per_block.atoms, coin) + "\nPledge: "@
                + spec_coin_amount_with_name(data.pledge.atoms, coin) + "\n"@
        }),
{
}

/// The screen of a hashed time-locked contract shows the secret's hash, the
/// spending key before the refund key, the refund lock, then the value.
pub proof fn lemma_htlc_screen(
    v: OutputValue,
    data: HashedTimelockContract,
    coin: CoinType,
    small_screen: bool,
)
    ensures
        ({
            let r = spec_format_output(TxOutput::Htlc(v, data), coin, small_screen);
            let spend = spec_to_address(data.spend_key, coin);
            let refund = spec_to_address(data.refund_key, coin);
            let lock = spec_format_lock(data.refund_timelock);
            let value = spec_format_value(v, coin);
            &&& r is Ok <==> spend is Ok && refund is Ok && lock is Ok && value is Ok
            &&& r is Ok ==> r == Ok::<(Seq<char>, Seq<char>), StatusWord>(
                (
                    "HTLC"@,
                    "Secret hash: "@ + spec_hex(data.secret_hash@) + "\nSpend key: "@
                        + spend->Ok_0 + "\nRefund key: "@ + refund->Ok_0
                        + "\nRefund time lock: "@ + lock->Ok_0 + "\n"@ + value->Ok_0,
                ),
            )
        }),
{
}

/// The screen of a locked transfer shows the destination, the lock, then
/// the value.
pub proof fn lemma_lock_then_transfer_screen(
    v: OutputValue,
    d: Destination,
    lock: crate::primitives::OutputTimeLock,
    coin: CoinType,
    small_screen: bool,
)
    ensures
        ({
            let r = spec_format_output(TxOutput::LockThenTransfer(v, d, lock), coin, small_screen);
            let a = spec_to_address(d, coin);
            let l = spec_format_lock(lock);
            let t = spec_format_value(v, coin);
            &&& r is Ok <==> a is Ok && l is Ok && t is Ok
            &&& r is Ok ==> r->Ok_0.1 == "Destination: "@ + a->Ok_0 + "\n"@ + l->Ok_0 + "\n"@
                + t->Ok_0 + "\n"@
        }),
{
}

/// The screen of a delegation withdrawal shows the delegation and the
/// withdrawn amount of coins; that of a staking delegation the delegation
/// and the delegated amount.
pub proof fn lemma_delegation_screens(
    id: H256,
    amount: crate::primitives::Amount,
    coin: CoinType,
    small_screen: bool,
)
    ensures
        ({
            let d = spec_bech32m(spec_delegation_id_prefix(coin), id.0@);
            let w = spec_format_input(
                InputCommand::AccountSpending(AccountSpending::DelegationBalance(id, amount)),
                coin,
                small_screen,
            );
            let o = spec_format_output(TxOutput::DelegateStaking(amount, id), coin, small_screen);
            &&& w is Ok <==> d is Ok
            &&& o is Ok <==> d is Ok
            &&& w is Ok ==> w->Ok_0.1 == "Delegation ID: "@ + d->Ok_0 + "\nAmount: "@
                + spec_coin_amount_with_name(amount.atoms, coin)
            &&& o is Ok ==> o->Ok_0.1 == "\n"@ + d->Ok_0 + "\n"@ + spec_coin_amount_with_name(
                amount.atoms,
                coin,
            )
        }),
{
}

/// The screen of a change of a token's authority shows the token, then the
/// new authority's address; that of minting shows the minted atoms.
pub proof fn lemma_token_command_screens(
    id: H256,
    dest: Destination,
    amount: crate::primitives::Amount,
    coin: CoinType,
    small_screen: bool,
)
    ensures
        ({
            let t = spec_bech32m(spec_token_id_prefix(coin), id.0@);
            let a = spec_to_address(dest, coin);
            let change = spec_format_input(
                InputCommand::AccountCommand(AccountCommand::ChangeTokenAuthority(id, dest)),
                coin,
                small_screen,
            );
            let mint = spec_format_input(
                InputCommand::AccountCommand(AccountCommand::MintTokens(id, amount)),
                coin,
                small_screen,
            );
            &&& change is Ok <==> t is Ok && a is Ok
            &&& change is Ok ==> change->Ok_0.1 == "Token ID: "@ + t->Ok_0 + "\nNew authority: "@
                + a->Ok_0
            &&& mint is Ok <==> t is Ok
            &&& mint is Ok ==> mint == Ok::<(Seq<char>, Seq<char>), StatusWord>(
                ("Mint tokens"@, "Token ID: "@ + t->Ok_0 + ("\nAmount: "@ + spec_atoms(amount.atoms))),
            )
        }),
{
}

/// A fee line shows a coin fee with the ticker always, a token fee with the
/// token's address unless it is zero; an underflow stops the fees with it.
pub proof fn lemma_fee_lines(k: CoinOrTokenId, f: u128, coin: CoinType)
    ensures
        k == CoinOrTokenId::Coin ==> spec_fee_line((k, f), coin) == Ok::<Seq<char>, StatusWord>(
            spec_coin_amount_with_name(f, coin) + "\n"@,
        ),
        k matches CoinOrTokenId::TokenId(id) ==> (f == 0 ==> spec_fee_line((k, f), coin) == Ok::<
            Seq<char>,
            StatusWord,
        >(Seq::empty())) && (f != 0 ==> match spec_token_amount_with_name(id, f, coin) {
            Ok(t) => spec_fee_line((k, f), coin) == Ok::<Seq<char>, StatusWord>(t + "\n"@),
            Err(e) => spec_fee_line((k, f), coin) == Err::<Seq<char>, StatusWord>(e),
        }),
        spec_fees_text(
            seq![Err::<(CoinOrTokenId, u128), StatusWord>(StatusWord::TxFeeUnderflow)],
            coin,
        ) == Err::<Seq<char>, StatusWord>(StatusWord::TxFeeUnderflow),
{
    let one = seq![Err::<(CoinOrTokenId, u128), StatusWord>(StatusWord::TxFeeUnderflow)];
    assert(one.drop_last() =~= Seq::<Result<(CoinOrTokenId, u128), StatusWord>>::empty());
    assert(spec_fees_text(one.drop_last(), coin) == Ok::<Seq<char>, StatusWord>(Seq::empty()));
    assert(one.last() == Err::<(CoinOrTokenId, u128), StatusWord>(StatusWord::TxFeeUnderflow));
}

} // verus!
