use mintlayer_app::codec::push_compact;
use mintlayer_app::encoding::{encode_commitment, encode_tx_input, encode_tx_output};
use mintlayer_app::primitives::{
    AccountOutPoint, AccountSpending, Amount, Destination, IsTokenFreezable, OrderData,
    OutPointSourceId, OutputTimeLock, OutputValue, SighashInputCommitment, TokenIssuance,
    TokenIssuanceV1, TokenTotalSupply, TxInput, TxOutput, UtxoOutPoint, H256,
};

fn coin(atoms: u128) -> OutputValue {
    OutputValue::Coin(Amount::from_atoms(atoms))
}

fn compact(v: u128) -> Vec<u8> {
    let mut out = Vec::new();
    push_compact(&mut out, v);
    out
}

#[test]
fn test_compact_modes() {
    assert_eq!(compact(0), vec![0]);
    assert_eq!(compact(63), vec![252]);
    assert_eq!(compact(64), vec![1, 1]);
    assert_eq!(compact(16383), vec![253, 255]);
    assert_eq!(compact(16384), vec![2, 0, 1, 0]);
    assert_eq!(compact((1 << 30) - 1), vec![254, 255, 255, 255]);
    assert_eq!(compact(1 << 30), vec![3, 0, 0, 0, 64]);
    assert_eq!(compact(1 << 32), vec![7, 0, 0, 0, 0, 1]);
    let mut max = vec![51];
    max.extend_from_slice(&[255; 16]);
    assert_eq!(compact(u128::MAX), max);
}

#[test]
fn test_output_encodings() {
    let anyone = Destination::AnyoneCanSpend;
    assert_eq!(encode_tx_output(&TxOutput::Transfer(coin(123), anyone)), vec![0, 0, 237, 1, 0]);
    assert_eq!(
        encode_tx_output(&TxOutput::LockThenTransfer(coin(123), anyone, OutputTimeLock::ForBlockCount(123))),
        vec![1, 0, 237, 1, 0, 2, 237, 1]
    );
    assert_eq!(encode_tx_output(&TxOutput::Burn(coin(123))), vec![2, 0, 237, 1]);
    assert_eq!(
        encode_tx_output(&TxOutput::Burn(OutputValue::TokenV1(H256([7; 32]), Amount::from_atoms(1)))),
        [vec![2, 2], vec![7; 32], vec![4]].concat()
    );
    assert_eq!(
        encode_tx_output(&TxOutput::CreateOrder(OrderData { conclude_key: anyone, ask: coin(123), give: coin(123) })),
        vec![11, 0, 0, 237, 1, 0, 237, 1]
    );
    let issuance = TokenIssuanceV1 {
        token_ticker: vec![1, 2, 3],
        number_of_decimals: 8,
        metadata_uri: vec![4, 5, 6],
        total_supply: TokenTotalSupply::Unlimited,
        authority: anyone,
        is_freezable: IsTokenFreezable::No,
    };
    assert_eq!(
        encode_tx_output(&TxOutput::IssueFungibleToken(TokenIssuance::V1(issuance))),
        vec![7, 1, 12, 1, 2, 3, 8, 12, 4, 5, 6, 2, 0, 0]
    );
    assert_eq!(encode_tx_output(&TxOutput::DataDeposit(vec![1, 2, 3])), vec![9, 12, 1, 2, 3]);
}

#[test]
fn test_input_encodings() {
    let utxo = TxInput::Utxo(UtxoOutPoint {
        source_id: OutPointSourceId::BlockReward(H256([3; 32])),
        output_index: 258,
    });
    assert_eq!(encode_tx_input(&utxo), [vec![0, 1], vec![3; 32], vec![2, 1, 0, 0]].concat());
    let account = TxInput::Account(AccountOutPoint {
        nonce: 1,
        spending: AccountSpending::DelegationBalance(H256([2; 32]), Amount::from_atoms(5)),
    });
    assert_eq!(encode_tx_input(&account), [vec![1, 4, 0], vec![2; 32], vec![20]].concat());
}

#[test]
fn test_commitment_encodings() {
    assert_eq!(encode_commitment(&SighashInputCommitment::Empty), vec![0]);
    assert_eq!(
        encode_commitment(&SighashInputCommitment::Utxo(TxOutput::Burn(coin(123)))),
        vec![1, 2, 0, 237, 1]
    );
    assert_eq!(
        encode_commitment(&SighashInputCommitment::FillOrderAccountCommand {
            initially_asked: coin(1),
            initially_given: coin(2),
        }),
        vec![3, 0, 4, 0, 8]
    );
}

#[test]
fn test_compact_of_u32_agrees() {
    for n in [0u32, 1, 63, 64, 16383, 16384, (1 << 30) - 1, 1 << 30, u32::MAX] {
        assert_eq!(mintlayer_app::codec::encode_as_compact(n), compact(n as u128));
    }
    assert_eq!(mintlayer_app::codec::encode_as_compact(u32::MAX), vec![3, 255, 255, 255, 255]);
}
