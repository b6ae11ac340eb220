//! The SCALE encoding of transaction inputs, outputs and input commitments:
//! the bytes that the transaction hash covers.

use vstd::prelude::*;

use crate::codec::{push_compact, push_le_bytes, spec_compact, spec_le_bytes};
use crate::primitives::{
    encode_destination, encode_public_key, encode_vrf_public_key, push_bytes,
    spec_encode_destination, spec_encode_public_key, spec_encode_vrf_public_key, AccountCommand,
    AccountOutPoint, AccountSpending, Amount, HashedTimelockContract, IsTokenFreezable,
    IsTokenUnfreezable, NftIssuance, OrderAccountCommand, OrderData, OutPointSourceId,
    OutputTimeLock, OutputValue, SighashInputCommitment, StakePoolData, TokenIssuance,
    TokenTotalSupply, TxInput, TxOutput, UtxoOutPoint,
};

verus! {

/// An amount: its atoms in compact form.
pub open spec fn spec_encode_amount(a: Amount) -> Seq<u8> {
    spec_compact(a.atoms as nat)
}

/// Bytes: their number in compact form, then the bytes.
pub open spec fn spec_encode_bytes(b: Seq<u8>) -> Seq<u8> {
    spec_compact(b.len()) + b
}

/// A value: `0` and an amount of coins, or `2`, the token and the amount.
pub open spec fn spec_encode_value(v: OutputValue) -> Seq<u8> {
    match v {
        OutputValue::Coin(a) => seq![0u8] + spec_encode_amount(a),
        OutputValue::TokenV1(id, a) => seq![2u8] + id.0@ + spec_encode_amount(a),
    }
}

/// A time lock: its kind, then its number in compact form.
pub open spec fn spec_encode_lock(l: OutputTimeLock) -> Seq<u8> {
    match l {
        OutputTimeLock::UntilHeight(x) => seq![0u8] + spec_compact(x as nat),
        OutputTimeLock::UntilTime(x) => seq![1u8] + spec_compact(x as nat),
        OutputTimeLock::ForBlockCount(x) => seq![2u8] + spec_compact(x as nat),
        OutputTimeLock::ForSeconds(x) => seq![3u8] + spec_compact(x as nat),
    }
}

/// The data of a staking pool, field by field.
pub open spec fn spec_encode_pool_data(d: StakePoolData) -> Seq<u8> {
    spec_encode_amount(d.pledge) + spec_encode_destination(d.staker) + spec_encode_vrf_public_key(
        d.vrf_public_key,
    ) + spec_encode_destination(d.decommission_key) + spec_le_bytes(
        d.margin_ratio_per_thousand as nat,
        2,
    ) + spec_encode_amount(d.cost_per_block)
}

/// The total supply of a token.
pub open spec fn spec_encode_supply(t: TokenTotalSupply) -> Seq<u8> {
    match t {
        TokenTotalSupply::Fixed(a) => seq![0u8] + spec_encode_amount(a),
        TokenTotalSupply::Lockable => seq![1u8],
        TokenTotalSupply::Unlimited => seq![2u8],
    }
}

/// A fungible token issuance (version 1, index 1).
pub open spec fn spec_encode_token_issuance(t: TokenIssuance) -> Seq<u8> {
    match t {
        TokenIssuance::V1(d) => seq![1u8] + spec_encode_bytes(d.token_ticker@) + seq![
            d.number_of_decimals,
        ] + spec_encode_bytes(d.metadata_uri@) + spec_encode_supply(d.total_supply)
            + spec_encode_destination(d.authority) + seq![
            if d.is_freezable == IsTokenFreezable::Yes {
                1u8
            } else {
                0u8
            },
        ],
    }
}

/// An NFT issuance (version 0).
pub open spec fn spec_encode_nft_issuance(n: NftIssuance) -> Seq<u8> {
    match n {
        NftIssuance::V0(d) => seq![0u8] + (match d.creator {
            None => seq![0u8],
            Some(pk) => seq![1u8] + spec_encode_public_key(pk),
        }) + spec_encode_bytes(d.name@) + spec_encode_bytes(d.description@) + spec_encode_bytes(
            d.ticker@,
        ) + spec_encode_bytes(d.icon_uri@) + spec_encode_bytes(d.additional_metadata_uri@)
            + spec_encode_bytes(d.media_uri@) + spec_encode_bytes(d.media_hash@),
    }
}

/// A hashed time-locked contract.
pub open spec fn spec_encode_htlc(h: HashedTimelockContract) -> Seq<u8> {
    h.secret_hash@ + spec_encode_destination(h.spend_key) + spec_encode_lock(h.refund_timelock)
        + spec_encode_destination(h.refund_key)
}

/// An order.
pub open spec fn spec_encode_order(o: OrderData) -> Seq<u8> {
    spec_encode_destination(o.conclude_key) + spec_encode_value(o.ask) + spec_encode_value(o.give)
}

/// An output: its kind's index, then its fields.
pub open spec fn spec_encode_tx_output(o: TxOutput) -> Seq<u8> {
    match o {
        TxOutput::Transfer(v, d) => seq![0u8] + spec_encode_value(v) + spec_encode_destination(d),
        TxOutput::LockThenTransfer(v, d, l) => seq![1u8] + spec_encode_value(v)
            + spec_encode_destination(d) + spec_encode_lock(l),
        TxOutput::Burn(v) => seq![2u8] + spec_encode_value(v),
        TxOutput::CreateStakePool(id, d) => seq![3u8] + id.0@ + spec_encode_pool_data(d),
        TxOutput::ProduceBlockFromStake(d, id) => seq![4u8] + spec_encode_destination(d) + id.0@,
        TxOutput::CreateDelegationId(d, id) => seq![5u8] + spec_encode_destination(d) + id.0@,
        TxOutput::DelegateStaking(a, id) => seq![6u8] + spec_encode_amount(a) + id.0@,
        TxOutput::IssueFungibleToken(t) => seq![7u8] + spec_encode_token_issuance(t),
        TxOutput::IssueNft(id, n, d) => seq![8u8] + id.0@ + spec_encode_nft_issuance(n)
            + spec_encode_destination(d),
        TxOutput::DataDeposit(b) => seq![9u8] + spec_encode_bytes(b@),
        TxOutput::Htlc(v, h) => seq![10u8] + spec_encode_value(v) + spec_encode_htlc(h),
        TxOutput::CreateOrder(o) => seq![11u8] + spec_encode_order(o),
    }
}

/// A reference to a UTXO: its source and the output's index.
pub open spec fn spec_encode_outpoint(o: UtxoOutPoint) -> Seq<u8> {
    (match o.source_id {
        OutPointSourceId::Transaction(id) => seq![0u8] + id.0@,
        OutPointSourceId::BlockReward(id) => seq![1u8] + id.0@,
    }) + spec_le_bytes(o.output_index as nat, 4)
}

/// An account input: its nonce in compact form, then what it spends.
pub open spec fn spec_encode_account_outpoint(a: AccountOutPoint) -> Seq<u8> {
    spec_compact(a.nonce as nat) + (match a.spending {
        AccountSpending::DelegationBalance(id, amount) => seq![0u8] + id.0@ + spec_encode_amount(
            amount,
        ),
    })
}

/// An account command: its index, then its fields.
pub open spec fn spec_encode_account_command(c: AccountCommand) -> Seq<u8> {
    match c {
        AccountCommand::MintTokens(id, a) => seq![0u8] + id.0@ + spec_encode_amount(a),
        AccountCommand::UnmintTokens(id) => seq![1u8] + id.0@,
        AccountCommand::LockTokenSupply(id) => seq![2u8] + id.0@,
        AccountCommand::FreezeToken(id, u) => seq![3u8] + id.0@ + seq![
            if u == IsTokenUnfreezable::Yes {
                1u8
            } else {
                0u8
            },
        ],
        AccountCommand::UnfreezeToken(id) => seq![4u8] + id.0@,
        AccountCommand::ChangeTokenAuthority(id, d) => seq![5u8] + id.0@
            + spec_encode_destination(d),
        AccountCommand::ConcludeOrder(id) => seq![6u8] + id.0@,
        AccountCommand::FillOrder(id, a, d) => seq![7u8] + id.0@ + spec_encode_amount(a)
            + spec_encode_destination(d),
        AccountCommand::ChangeTokenMetadataUri(id, u) => seq![8u8] + id.0@ + spec_encode_bytes(
            u@,
        ),
    }
}

/// An order command: its index, then its fields.
pub open spec fn spec_encode_order_command(c: OrderAccountCommand) -> Seq<u8> {
    match c {
        OrderAccountCommand::FillOrder(id, a) => seq![0u8] + id.0@ + spec_encode_amount(a),
        OrderAccountCommand::FreezeOrder(id) => seq![1u8] + id.0@,
        OrderAccountCommand::ConcludeOrder(id) => seq![2u8] + id.0@,
    }
}

/// An input: its kind's index, then its fields.
pub open spec fn spec_encode_tx_input(i: TxInput) -> Seq<u8> {
    match i {
        TxInput::Utxo(o) => seq![0u8] + spec_encode_outpoint(o),
        TxInput::Account(a) => seq![1u8] + spec_encode_account_outpoint(a),
        TxInput::AccountCommand(nonce, c) => seq![2u8] + spec_compact(nonce as nat)
            + spec_encode_account_command(c),
        TxInput::OrderAccountCommand(c) => seq![3u8] + spec_encode_order_command(c),
    }
}

/// What an input's signature commits to: its kind's index, then its fields.
pub open spec fn spec_encode_commitment(c: SighashInputCommitment) -> Seq<u8> {
    match c {
        SighashInputCommitment::Empty => seq![0u8],
        SighashInputCommitment::Utxo(o) => seq![1u8] + spec_encode_tx_output(o),
        SighashInputCommitment::ProduceBlockFromStakeUtxo { utxo, staker_balance } => seq![2u8]
            + spec_encode_tx_output(utxo) + spec_encode_amount(staker_balance),
        SighashInputCommitment::FillOrderAccountCommand { initially_asked, initially_given } => seq![
            3u8,
        ] + spec_encode_value(initially_asked) + spec_encode_value(initially_given),
        SighashInputCommitment::ConcludeOrderAccountCommand {
            initially_asked,
            initially_given,
            ask_balance,
            give_balance,
        } => seq![4u8] + spec_encode_value(initially_asked) + spec_encode_value(initially_given)
            + spec_encode_amount(ask_balance) + spec_encode_amount(give_balance),
    }
}

fn push_amount(out: &mut Vec<u8>, a: &Amount)
    ensures
        final(out)@ == old(out)@ + spec_encode_amount(*a),
{
    push_compact(out, a.atoms);
}

fn push_vec(out: &mut Vec<u8>, b: &Vec<u8>)
    ensures
        final(out)@ == old(out)@ + spec_encode_bytes(b@),
{
    push_compact(out, b.len() as u128);
    push_bytes(out, b.as_slice());
    assert(final(out)@ =~= old(out)@ + spec_encode_bytes(b@));
}

fn push_destination(out: &mut Vec<u8>, d: &crate::primitives::Destination)
    ensures
        final(out)@ == old(out)@ + spec_encode_destination(*d),
{
    let e = encode_destination(d);
    push_bytes(out, e.as_slice());
}

fn push_value(out: &mut Vec<u8>, v: &OutputValue)
    ensures
        final(out)@ == old(out)@ + spec_encode_value(*v),
{
    match v {
        OutputValue::Coin(a) => {
            out.push(0);
            push_amount(out, a);
        },
        OutputValue::TokenV1(id, a) => {
            out.push(2);
            push_bytes(out, &id.0);
            push_amount(out, a);
        },
    }
    assert(final(out)@ =~= old(out)@ + spec_encode_value(*v));
}

fn push_lock(out: &mut Vec<u8>, l: &OutputTimeLock)
    ensures
        final(out)@ == old(out)@ + spec_encode_lock(*l),
{
    match l {
        OutputTimeLock::UntilHeight(x) => {
            out.push(0);
            push_compact(out, *x as u128);
        },
        OutputTimeLock::UntilTime(x) => {
            out.push(1);
            push_compact(out, *x as u128);
        },
        OutputTimeLock::ForBlockCount(x) => {
            out.push(2);
            push_compact(out, *x as u128);
        },
        OutputTimeLock::ForSeconds(x) => {
            out.push(3);
            push_compact(out, *x as u128);
        },
    }
    assert(final(out)@ =~= old(out)@ + spec_encode_lock(*l));
}

fn push_pool_data(out: &mut Vec<u8>, d: &StakePoolData)
    ensures
        final(out)@ == old(out)@ + spec_encode_pool_data(*d),
{
    push_amount(out, &d.pledge);
    push_destination(out, &d.staker);
    let vrf = encode_vrf_public_key(&d.vrf_public_key);
    push_bytes(out, vrf.as_slice());
    push_destination(out, &d.decommission_key);
    push_le_bytes(out, d.margin_ratio_per_thousand as u128, 2);
    push_amount(out, &d.cost_per_block);
    assert(final(out)@ =~= old(out)@ + spec_encode_pool_data(*d));
}

fn push_token_issuance(out: &mut Vec<u8>, t: &TokenIssuance)
    ensures
        final(out)@ == old(out)@ + spec_encode_token_issuance(*t),
{
    let TokenIssuance::V1(d) = t;
    out.push(1);
    push_vec(out, &d.token_ticker);
    out.push(d.number_of_decimals);
    push_vec(out, &d.metadata_uri);
    match d.total_supply {
        TokenTotalSupply::Fixed(a) => {
            out.push(0);
            push_amount(out, &a);
        },
        TokenTotalSupply::Lockable => out.push(1),
        TokenTotalSupply::Unlimited => out.push(2),
    }
    push_destination(out, &d.authority);
    match d.is_freezable {
        IsTokenFreezable::Yes => out.push(1),
        IsTokenFreezable::No => out.push(0),
    }
    assert(final(out)@ =~= old(out)@ + spec_encode_token_issuance(*t));
}

fn push_nft_issuance(out: &mut Vec<u8>, n: &NftIssuance)
    ensures
        final(out)@ == old(out)@ + spec_encode_nft_issuance(*n),
{
    let NftIssuance::V0(d) = n;
    out.push(0);
    match &d.creator {
        None => out.push(0),
        Some(pk) => {
            out.push(1);
            let e = encode_public_key(pk);
            push_bytes(out, e.as_slice());
        },
    }
    push_vec(out, &d.name);
    push_vec(out, &d.description);
    push_vec(out, &d.ticker);
    push_vec(out, &d.icon_uri);
    push_vec(out, &d.additional_metadata_uri);
    push_vec(out, &d.media_uri);
    push_vec(out, &d.media_hash);
    assert(final(out)@ =~= old(out)@ + spec_encode_nft_issuance(*n));
}

fn push_htlc(out: &mut Vec<u8>, h: &HashedTimelockContract)
    ensures
        final(out)@ == old(out)@ + spec_encode_htlc(*h),
{
    push_bytes(out, &h.secret_hash);
    push_destination(out, &h.spend_key);
    push_lock(out, &h.refund_timelock);
    push_destination(out, &h.refund_key);
    assert(final(out)@ =~= old(out)@ + spec_encode_htlc(*h));
}

fn push_tx_output(out: &mut Vec<u8>, o: &TxOutput)
    ensures
        final(out)@ == old(out)@ + spec_encode_tx_output(*o),
{
    match o {
        TxOutput::Transfer(v, d) => {
            out.push(0);
            push_value(out, v);
            push_destination(out, d);
        },
        TxOutput::LockThenTransfer(v, d, l) => {
            out.push(1);
            push_value(out, v);
            push_destination(out, d);
            push_lock(out, l);
        },
        TxOutput::Burn(v) => {
            out.push(2);
            push_value(out, v);
        },
        TxOutput::CreateStakePool(id, d) => {
            out.push(3);
            push_bytes(out, &id.0);
            push_pool_data(out, d);
        },
        TxOutput::ProduceBlockFromStake(d, id) => {
            out.push(4);
            push_destination(out, d);
            push_bytes(out, &id.0);
        },
        TxOutput::CreateDelegationId(d, id) => {
            out.push(5);
            push_destination(out, d);
            push_bytes(out, &id.0);
        },
        TxOutput::DelegateStaking(a, id) => {
            out.push(6);
            push_amount(out, a);
            push_bytes(out, &id.0);
        },
        TxOutput::IssueFungibleToken(t) => {
            out.push(7);
            push_token_issuance(out, t);
        },
        TxOutput::IssueNft(id, n, d) => {
            out.push(8);
            push_bytes(out, &id.0);
            push_nft_issuance(out, n);
            push_destination(out, d);
        },
        TxOutput::DataDeposit(b) => {
            out.push(9);
            push_vec(out, b);
        },
        TxOutput::Htlc(v, h) => {
            out.push(10);
            push_value(out, v);
            push_htlc(out, h);
        },
        TxOutput::CreateOrder(data) => {
            out.push(11);
            push_destination(out, &data.conclude_key);
            push_value(out, &data.ask);
            push_value(out, &data.give);
        },
    }
    assert(final(out)@ =~= old(out)@ + spec_encode_tx_output(*o));
}

/// The encoding of an output.
pub fn encode_tx_output(o: &TxOutput) -> (r: Vec<u8>)
    ensures
        r@ == spec_encode_tx_output(*o),
{
    let mut out: Vec<u8> = Vec::new();
    push_tx_output(&mut out, o);
    assert(out@ =~= spec_encode_tx_output(*o));
    out
}

fn push_account_command(out: &mut Vec<u8>, c: &AccountCommand)
    ensures
        final(out)@ == old(out)@ + spec_encode_account_command(*c),
{
    match c {
        AccountCommand::MintTokens(id, a) => {
            out.push(0);
            push_bytes(out, &id.0);
            push_amount(out, a);
        },
        AccountCommand::UnmintTokens(id) => {
            out.push(1);
            push_bytes(out, &id.0);
        },
        AccountCommand::LockTokenSupply(id) => {
            out.push(2);
            push_bytes(out, &id.0);
        },
        AccountCommand::FreezeToken(id, u) => {
            out.push(3);
            push_bytes(out, &id.0);
            match u {
                IsTokenUnfreezable::Yes => out.push(1),
                IsTokenUnfreezable::No => out.push(0),
            }
        },
        AccountCommand::UnfreezeToken(id) => {
            out.push(4);
            push_bytes(out, &id.0);
        },
        AccountCommand::ChangeTokenAuthority(id, d) => {
            out.push(5);
            push_bytes(out, &id.0);
            push_destination(out, d);
        },
        AccountCommand::ConcludeOrder(id) => {
            out.push(6);
            push_bytes(out, &id.0);
        },
        AccountCommand::FillOrder(id, a, d) => {
            out.push(7);
            push_bytes(out, &id.0);
            push_amount(out, a);
            push_destination(out, d);
        },
        AccountCommand::ChangeTokenMetadataUri(id, u) => {
            out.push(8);
            push_bytes(out, &id.0);
            push_vec(out, u);
        },
    }
    assert(final(out)@ =~= old(out)@ + spec_encode_account_command(*c));
}

fn push_order_command(out: &mut Vec<u8>, c: &OrderAccountCommand)
    ensures
        final(out)@ == old(out)@ + spec_encode_order_command(*c),
{
    match c {
        OrderAccountCommand::FillOrder(id, a) => {
            out.push(0);
            push_bytes(out, &id.0);
            push_amount(out, a);
        },
        OrderAccountCommand::FreezeOrder(id) => {
            out.push(1);
            push_bytes(out, &id.0);
        },
        OrderAccountCommand::ConcludeOrder(id) => {
            out.push(2);
            push_bytes(out, &id.0);
        },
    }
    assert(final(out)@ =~= old(out)@ + spec_encode_order_command(*c));
}

/// The encoding of an input.
pub fn encode_tx_input(i: &TxInput) -> (r: Vec<u8>)
    ensures
        r@ == spec_encode_tx_input(*i),
{
    let mut out: Vec<u8> = Vec::new();
    match i {
        TxInput::Utxo(o) => {
            out.push(0);
            match o.source_id {
                OutPointSourceId::Transaction(id) => {
                    out.push(0);
                    push_bytes(&mut out, &id.0);
                },
                OutPointSourceId::BlockReward(id) => {
                    out.push(1);
                    push_bytes(&mut out, &id.0);
                },
            }
            push_le_bytes(&mut out, o.output_index as u128, 4);
        },
        TxInput::Account(a) => {
            out.push(1);
            push_compact(&mut out, a.nonce as u128);
            let AccountSpending::DelegationBalance(id, amount) = a.spending;
            out.push(0);
            push_bytes(&mut out, &id.0);
            push_amount(&mut out, &amount);
        },
        TxInput::AccountCommand(nonce, c) => {
            out.push(2);
            push_compact(&mut out, *nonce as u128);
            push_account_command(&mut out, c);
        },
        TxInput::OrderAccountCommand(c) => {
            out.push(3);
            push_order_command(&mut out, c);
        },
    }
    assert(out@ =~= spec_encode_tx_input(*i));
    out
}

/// The encoding of what an input's signature commits to.
pub fn encode_commitment(c: &SighashInputCommitment) -> (r: Vec<u8>)
    ensures
        r@ == spec_encode_commitment(*c),
{
    let mut out: Vec<u8> = Vec::new();
    match c {
        SighashInputCommitment::Empty => out.push(0),
        SighashInputCommitment::Utxo(o) => {
            out.push(1);
            push_tx_output(&mut out, o);
        },
        SighashInputCommitment::ProduceBlockFromStakeUtxo { utxo, staker_balance } => {
            out.push(2);
            push_tx_output(&mut out, utxo);
            push_amount(&mut out, staker_balance);
        },
        SighashInputCommitment::FillOrderAccountCommand { initially_asked, initially_given } => {
            out.push(3);
            push_value(&mut out, initially_asked);
            push_value(&mut out, initially_given);
        },
        SighashInputCommitment::ConcludeOrderAccountCommand {
            initially_asked,
            initially_given,
            ask_balance,
            give_balance,
        } => {
            out.push(4);
            push_value(&mut out, initially_asked);
            push_value(&mut out, initially_given);
            push_amount(&mut out, ask_balance);
            push_amount(&mut out, give_balance);
        },
    }
    assert(out@ =~= spec_encode_commitment(*c));
    out
}

} // verus!
