use mintlayer_app::messages::{AdditionalOrderInfo, AdditionalUtxoInfo, TxInputWithAdditionalInfo};
use mintlayer_app::primitives::{
    AccountCommand, AccountOutPoint, AccountSpending, Amount, Destination, HashedTimelockContract,
    OrderAccountCommand, OrderData, OutPointSourceId, OutputTimeLock, OutputValue, StakePoolData,
    TxOutput, UtxoOutPoint, VrfPublicKey, SchnorrkelPublicKey, H256,
};
use mintlayer_app::status::StatusWord;
use mintlayer_app::summary::{merge_tx_type, InputCommand, TxSummaryCollector, TxType};
use mintlayer_app::totals::CoinOrTokenId;

fn utxo_outpoint() -> UtxoOutPoint {
    UtxoOutPoint { source_id: OutPointSourceId::Transaction(H256([0; 32])), output_index: 0 }
}

fn coin(atoms: u128) -> OutputValue {
    OutputValue::Coin(Amount::from_atoms(atoms))
}

fn token(id: u8, atoms: u128) -> OutputValue {
    OutputValue::TokenV1(H256([id; 32]), Amount::from_atoms(atoms))
}

#[test]
fn test_new_and_getters() {
    let collector = TxSummaryCollector::new();
    assert!(collector.tx_type().is_none());
    assert!(collector.input_command().is_none());
    assert!(collector.total_inputs().is_empty());
    assert!(collector.total_outputs().is_empty());
}

#[test]
fn test_process_output_transfer() {
    let mut collector = TxSummaryCollector::new();
    let out_coin = TxOutput::Transfer(coin(100), Destination::AnyoneCanSpend);
    collector.process_output(&out_coin).unwrap();
    assert_eq!(collector.tx_type(), Some(TxType::Transfer));
    assert_eq!(collector.total_outputs().get(&CoinOrTokenId::Coin), Some(Amount::from_atoms(100)));

    let out_token = TxOutput::Transfer(token(0, 200), Destination::AnyoneCanSpend);
    collector.process_output(&out_token).unwrap();
    assert_eq!(collector.tx_type(), Some(TxType::Transfer));
    assert_eq!(
        collector.total_outputs().get(&CoinOrTokenId::TokenId(H256([0; 32]))),
        Some(Amount::from_atoms(200))
    );
}

#[test]
fn test_process_output_lock_then_transfer() {
    let mut collector = TxSummaryCollector::new();
    let out = TxOutput::LockThenTransfer(
        coin(150),
        Destination::AnyoneCanSpend,
        OutputTimeLock::ForBlockCount(10),
    );
    collector.process_output(&out).unwrap();
    assert_eq!(collector.tx_type(), Some(TxType::Transfer));
    assert_eq!(collector.total_outputs().get(&CoinOrTokenId::Coin), Some(Amount::from_atoms(150)));
}

#[test]
fn test_process_output_burn() {
    let mut collector = TxSummaryCollector::new();
    collector.process_output(&TxOutput::Burn(coin(50))).unwrap();
    assert_eq!(collector.tx_type(), Some(TxType::Burn));
    assert_eq!(collector.total_outputs().get(&CoinOrTokenId::Coin), Some(Amount::from_atoms(50)));
}

#[test]
fn test_process_output_htlc() {
    let mut collector = TxSummaryCollector::new();
    let htlc = HashedTimelockContract {
        secret_hash: [0; 20],
        spend_key: Destination::AnyoneCanSpend,
        refund_timelock: OutputTimeLock::ForBlockCount(10),
        refund_key: Destination::AnyoneCanSpend,
    };
    collector.process_output(&TxOutput::Htlc(coin(75), htlc)).unwrap();
    assert_eq!(collector.tx_type(), Some(TxType::Htlc));
    assert_eq!(collector.total_outputs().get(&CoinOrTokenId::Coin), Some(Amount::from_atoms(75)));
}

#[test]
fn test_process_output_create_stake_pool() {
    let mut collector = TxSummaryCollector::new();
    let data = StakePoolData {
        pledge: Amount::from_atoms(1000),
        staker: Destination::AnyoneCanSpend,
        vrf_public_key: VrfPublicKey::Schnorrkel(SchnorrkelPublicKey([0; 32])),
        decommission_key: Destination::AnyoneCanSpend,
        margin_ratio_per_thousand: 100,
        cost_per_block: Amount::from_atoms(10),
    };
    collector.process_output(&TxOutput::CreateStakePool(H256([1; 32]), data)).unwrap();
    assert_eq!(collector.tx_type(), Some(TxType::CreateStakePool));
    assert_eq!(collector.total_outputs().get(&CoinOrTokenId::Coin), Some(Amount::from_atoms(1000)));
}

#[test]
fn test_process_output_create_order() {
    let mut collector = TxSummaryCollector::new();
    let data = OrderData {
        conclude_key: Destination::AnyoneCanSpend,
        ask: token(3, 40),
        give: coin(300),
    };
    collector.process_output(&TxOutput::CreateOrder(data)).unwrap();
    assert_eq!(collector.tx_type(), Some(TxType::CreateOrder));
    assert_eq!(collector.total_outputs().get(&CoinOrTokenId::Coin), Some(Amount::from_atoms(300)));
}

#[test]
fn test_process_output_data_deposit() {
    let mut collector = TxSummaryCollector::new();
    collector.process_output(&TxOutput::DataDeposit(vec![1, 2, 3])).unwrap();
    assert_eq!(collector.tx_type(), Some(TxType::DataDeposit));
    assert!(collector.total_outputs().is_empty());
}

#[test]
fn test_process_input_utxo_transfer() {
    let mut collector = TxSummaryCollector::new();
    let inp = TxInputWithAdditionalInfo::Utxo(
        utxo_outpoint(),
        AdditionalUtxoInfo::Utxo(TxOutput::Transfer(coin(250), Destination::AnyoneCanSpend)),
    );
    collector.process_input(&inp).unwrap();
    assert_eq!(collector.total_inputs().get(&CoinOrTokenId::Coin), Some(Amount::from_atoms(250)));
    assert!(collector.input_command().is_none());
}

#[test]
fn test_process_input_utxo_with_pool_data() {
    let mut collector = TxSummaryCollector::new();
    let data = StakePoolData {
        pledge: Amount::from_atoms(1000),
        staker: Destination::AnyoneCanSpend,
        vrf_public_key: VrfPublicKey::Schnorrkel(SchnorrkelPublicKey([0; 32])),
        decommission_key: Destination::AnyoneCanSpend,
        margin_ratio_per_thousand: 100,
        cost_per_block: Amount::from_atoms(10),
    };
    let inp = TxInputWithAdditionalInfo::Utxo(
        utxo_outpoint(),
        AdditionalUtxoInfo::UtxoWithPoolData {
            utxo: TxOutput::CreateStakePool(H256([1; 32]), data),
            staker_balance: Amount::from_atoms(1234),
        },
    );
    collector.process_input(&inp).unwrap();
    assert_eq!(collector.tx_type(), Some(TxType::DecommissionStakePool));
    assert_eq!(collector.total_inputs().get(&CoinOrTokenId::Coin), Some(Amount::from_atoms(1234)));
}

#[test]
fn test_process_input_account() {
    let mut collector = TxSummaryCollector::new();
    let inp = TxInputWithAdditionalInfo::Account(AccountOutPoint {
        nonce: 1,
        spending: AccountSpending::DelegationBalance(H256([2; 32]), Amount::from_atoms(500)),
    });
    collector.process_input(&inp).unwrap();
    assert_eq!(collector.tx_type(), Some(TxType::DelegationWithdrawal));
    assert_eq!(collector.total_inputs().get(&CoinOrTokenId::Coin), Some(Amount::from_atoms(500)));
    assert!(matches!(collector.input_command(), Some(InputCommand::AccountSpending(_))));
}

#[test]
fn test_process_input_account_command_mint() {
    let mut collector = TxSummaryCollector::new();
    let id = H256([4; 32]);
    let inp = TxInputWithAdditionalInfo::AccountCommand(
        2,
        AccountCommand::MintTokens(id, Amount::from_atoms(700)),
    );
    collector.process_input(&inp).unwrap();
    assert_eq!(collector.tx_type(), Some(TxType::MintTokens));
    assert_eq!(
        collector.total_inputs().get(&CoinOrTokenId::TokenId(id)),
        Some(Amount::from_atoms(700))
    );
    assert!(matches!(
        collector.input_command(),
        Some(InputCommand::AccountCommand(AccountCommand::MintTokens(_, _)))
    ));
}

#[test]
fn test_process_input_order_command_fill() {
    let mut collector = TxSummaryCollector::new();
    let info = AdditionalOrderInfo {
        initially_asked: coin(100),
        initially_given: token(7, 1000),
        ask_balance: Amount::from_atoms(100),
        give_balance: Amount::from_atoms(1000),
    };
    let inp = TxInputWithAdditionalInfo::OrderAccountCommand(
        OrderAccountCommand::FillOrder(H256([9; 32]), Amount::from_atoms(10)),
        info,
    );
    collector.process_input(&inp).unwrap();
    assert_eq!(collector.tx_type(), Some(TxType::FillOrder));
    // Filling 10 of the 100 asked coins gives a tenth of the 1000 tokens.
    assert_eq!(
        collector.total_inputs().get(&CoinOrTokenId::TokenId(H256([7; 32]))),
        Some(Amount::from_atoms(100))
    );
}

#[test]
fn test_process_input_errors() {
    let mut collector = TxSummaryCollector::new();
    let inp_burn = TxInputWithAdditionalInfo::Utxo(
        utxo_outpoint(),
        AdditionalUtxoInfo::Utxo(TxOutput::Burn(coin(100))),
    );
    assert_eq!(collector.process_input(&inp_burn).unwrap_err(), StatusWord::TxInvalidInputUtxo);

    let inp_conclude_v0 = TxInputWithAdditionalInfo::AccountCommand(
        8,
        AccountCommand::ConcludeOrder(H256([0; 32])),
    );
    assert_eq!(
        collector.process_input(&inp_conclude_v0).unwrap_err(),
        StatusWord::OrdersV0NotSupported
    );

    let inp_fill_v0 = TxInputWithAdditionalInfo::AccountCommand(
        9,
        AccountCommand::FillOrder(H256([0; 32]), Amount::from_atoms(100), Destination::AnyoneCanSpend),
    );
    assert_eq!(
        collector.process_input(&inp_fill_v0).unwrap_err(),
        StatusWord::OrdersV0NotSupported
    );
}

#[test]
fn test_tx_type_merging() {
    assert_eq!(merge_tx_type(None, TxType::Transfer), Some(TxType::Transfer));
    assert_eq!(merge_tx_type(Some(TxType::Transfer), TxType::Transfer), Some(TxType::Transfer));
    assert_eq!(merge_tx_type(Some(TxType::Burn), TxType::Transfer), Some(TxType::Burn));
    assert_eq!(merge_tx_type(Some(TxType::Burn), TxType::Htlc), Some(TxType::ComplexTransaction));
}

#[test]
fn test_fees_calculation_overflow_and_underflow() {
    let mut collector = TxSummaryCollector::new();
    let inp = TxInputWithAdditionalInfo::Utxo(
        utxo_outpoint(),
        AdditionalUtxoInfo::Utxo(TxOutput::Transfer(coin(100), Destination::AnyoneCanSpend)),
    );
    collector.process_input(&inp).unwrap();
    collector.process_output(&TxOutput::Transfer(coin(120), Destination::AnyoneCanSpend)).unwrap();
    let fees = collector.fees_iter();
    assert_eq!(fees.len(), 1);
    assert_eq!(fees[0], Err(StatusWord::TxFeeUnderflow));

    let mut collector = TxSummaryCollector::new();
    let big = TxInputWithAdditionalInfo::Utxo(
        utxo_outpoint(),
        AdditionalUtxoInfo::Utxo(TxOutput::Transfer(coin(u128::MAX), Destination::AnyoneCanSpend)),
    );
    collector.process_input(&big).unwrap();
    let one = TxInputWithAdditionalInfo::Utxo(
        utxo_outpoint(),
        AdditionalUtxoInfo::Utxo(TxOutput::Transfer(coin(1), Destination::AnyoneCanSpend)),
    );
    assert_eq!(collector.process_input(&one).unwrap_err(), StatusWord::TxNumericOperationFail);

    let mut collector = TxSummaryCollector::new();
    collector.process_output(&TxOutput::Burn(coin(u128::MAX))).unwrap();
    assert_eq!(
        collector.process_output(&TxOutput::Burn(coin(1))).unwrap_err(),
        StatusWord::TxNumericOperationFail
    );
}

#[test]
fn test_fees_per_asset_in_order() {
    let mut collector = TxSummaryCollector::new();
    for (value, out) in [(coin(1000), coin(900)), (token(5, 70), token(5, 70))] {
        let inp = TxInputWithAdditionalInfo::Utxo(
            utxo_outpoint(),
            AdditionalUtxoInfo::Utxo(TxOutput::Transfer(value, Destination::AnyoneCanSpend)),
        );
        collector.process_input(&inp).unwrap();
        collector.process_output(&TxOutput::Transfer(out, Destination::AnyoneCanSpend)).unwrap();
    }
    let fees = collector.fees_iter();
    assert_eq!(
        fees,
        vec![Ok((CoinOrTokenId::Coin, 100)), Ok((CoinOrTokenId::TokenId(H256([5; 32])), 0))]
    );
}

#[test]
fn test_fees_of_output_only_asset_underflow() {
    let mut collector = TxSummaryCollector::new();
    let inp = TxInputWithAdditionalInfo::Utxo(
        utxo_outpoint(),
        AdditionalUtxoInfo::Utxo(TxOutput::Transfer(coin(1000), Destination::AnyoneCanSpend)),
    );
    collector.process_input(&inp).unwrap();
    collector.process_output(&TxOutput::Transfer(coin(400), Destination::AnyoneCanSpend)).unwrap();
    collector.process_output(&TxOutput::Transfer(token(7, 3), Destination::AnyoneCanSpend)).unwrap();
    // The coin's fee, then the token that no input brings in.
    assert_eq!(
        collector.fees_iter(),
        vec![Ok((CoinOrTokenId::Coin, 600)), Err(StatusWord::TxFeeUnderflow)]
    );
}
