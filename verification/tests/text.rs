use mintlayer_app::primitives::{
    AccountCommand, AccountSpending, Amount, CoinType, Destination, IsTokenFreezable,
    IsTokenUnfreezable, OrderAccountCommand, OutputTimeLock, OutputValue, PublicKeyHash,
    TokenIssuance, TokenIssuanceV1, TokenTotalSupply, TxOutput, H256,
};
use mintlayer_app::messages::{AdditionalOrderInfo, AdditionalUtxoInfo, TxInputWithAdditionalInfo};
use mintlayer_app::primitives::{OutPointSourceId, UtxoOutPoint};
use mintlayer_app::review::{fees_text, format_input, format_output, transaction_title};
use mintlayer_app::status::StatusWord;
use mintlayer_app::summary::{InputCommand, TxSummaryCollector, TxType};
use mintlayer_app::text::{
    bech32m_encode, decimal, format_atoms, format_coin_amount, format_coin_amount_with_name,
    format_lock, format_timestamp, make_displayable, make_displayable_str,
    output_value_with_amount, to_address, token_id_to_address,
};

fn bech32m(hrp: &str, data: &[u8]) -> String {
    bech32::encode::<bech32::Bech32m>(bech32::Hrp::parse(hrp).unwrap(), data).unwrap()
}

#[test]
fn test_make_displayable() {
    assert_eq!(make_displayable_str("qwe123".as_bytes()), "qwe123");
    assert_eq!(make_displayable("qwe123".as_bytes()), "qwe123");

    // Contains a non-printable char.
    let data = "qwe\t123".as_bytes();
    assert_eq!(make_displayable_str(data), "0x71776509313233");
    assert_eq!(make_displayable(data), "0x71776509313233");

    // Non-ASCII UTF-8.
    let data = "今日は".as_bytes();
    assert_eq!(make_displayable_str(data), "0xe4bb8ae697a5e381af");

    // Not UTF-8 at all.
    assert_eq!(make_displayable(&[0xaa, 0xbb, 0xcc]), "0xaabbcc");

    // Empty bytes are an empty text.
    assert_eq!(make_displayable(&[]), "");
}

#[test]
fn test_decimal_and_amounts() {
    assert_eq!(decimal(0), "0");
    assert_eq!(decimal(9), "9");
    assert_eq!(decimal(10), "10");
    assert_eq!(decimal(u128::MAX), u128::MAX.to_string());
    assert_eq!(format_coin_amount(Amount::from_atoms(0), CoinType::Mainnet), "0.00000000000");
    assert_eq!(format_coin_amount(Amount::from_atoms(1), CoinType::Mainnet), "0.00000000001");
    assert_eq!(
        format_coin_amount(Amount::from_atoms(123_456_789_012_345), CoinType::Testnet),
        "1234.56789012345"
    );
    assert_eq!(
        format_coin_amount(Amount::from_atoms(100_000_000_000), CoinType::Mainnet),
        "1.00000000000"
    );
    assert_eq!(
        format_coin_amount_with_name(Amount::from_atoms(250_000_000_000), CoinType::Mainnet),
        "2.50000000000 ML"
    );
    assert_eq!(
        format_coin_amount_with_name(Amount::from_atoms(5), CoinType::Testnet),
        "0.00000000005 TML"
    );
    assert_eq!(format_atoms(Amount::from_atoms(42)), "42 atoms");
}

#[test]
fn test_hex() {
    assert_eq!(make_displayable(&[0x00, 0x0f, 0xa0, 0xff]), "0x000fa0ff");
    let f = format_output(&TxOutput::DataDeposit(vec![]), CoinType::Mainnet, false).unwrap();
    assert_eq!(f.value, "");
}

#[test]
fn test_addresses() {
    let pkh = Destination::PublicKeyHash(PublicKeyHash([7; 20]));
    let mut data = vec![1u8];
    data.extend_from_slice(&[7; 20]);
    assert_eq!(to_address(&pkh, CoinType::Mainnet).unwrap(), bech32m("mtc", &data));
    assert_eq!(to_address(&pkh, CoinType::Testnet).unwrap(), bech32m("tmt", &data));
    assert!(to_address(&pkh, CoinType::Mainnet).unwrap().starts_with("mtc1"));

    let anyone = to_address(&Destination::AnyoneCanSpend, CoinType::Regtest).unwrap();
    assert_eq!(anyone, bech32m("rxanyonecanspend", &[0]));

    let id = H256([3; 32]);
    assert_eq!(token_id_to_address(&id, CoinType::Signet).unwrap(), bech32m("smltk", &[3; 32]));
}

#[test]
fn test_bech32m_refusals() {
    assert_eq!(bech32m_encode("", &[1]).unwrap_err(), StatusWord::TxAddressFail);
    assert_eq!(bech32m_encode("MixedCase", &[1]).unwrap_err(), StatusWord::TxAddressFail);
    assert_eq!(bech32m_encode("a b", &[1]).unwrap_err(), StatusWord::TxAddressFail);
    // 1023 characters at most: 3 + 1 + 1013 + 6 fits, one more byte does not.
    assert!(bech32m_encode("abc", &[0u8; 633]).is_ok());
    assert_eq!(bech32m_encode("abc", &[0u8; 634]).unwrap_err(), StatusWord::TxAddressFail);
}

#[test]
fn test_timestamps_and_locks() {
    assert_eq!(format_timestamp(0).unwrap(), "1970-01-01 00:00:00");
    assert_eq!(format_timestamp(1_700_000_000).unwrap(), "2023-11-14 22:13:20");
    assert_eq!(format_timestamp(u64::MAX).unwrap_err(), StatusWord::TxLockTimeInvalid);
    assert_eq!(format_timestamp(i64::MAX as u64).unwrap_err(), StatusWord::TxLockTimeInvalid);
    assert_eq!(
        format_lock(&OutputTimeLock::UntilHeight(1000)).unwrap(),
        "Lock until block height 1000"
    );
    assert_eq!(
        format_lock(&OutputTimeLock::UntilTime(0)).unwrap(),
        "Lock until 1970-01-01 00:00:00"
    );
    assert_eq!(format_lock(&OutputTimeLock::ForBlockCount(7)).unwrap(), "Lock for 7 blocks");
    assert_eq!(format_lock(&OutputTimeLock::ForSeconds(60)).unwrap(), "Lock for 60 seconds");
}

#[test]
fn test_format_output_transfer() {
    let dest = Destination::PublicKeyHash(PublicKeyHash([1; 20]));
    let out = TxOutput::Transfer(
        OutputValue::Coin(Amount::from_atoms(150_000_000_000)),
        dest,
    );
    let f = format_output(&out, CoinType::Mainnet, false).unwrap();
    assert_eq!(f.name, "Transfer");
    let addr = to_address(&dest, CoinType::Mainnet).unwrap();
    assert_eq!(f.value, format!("Destination: {}\n1.50000000000 ML\n", addr));
}

#[test]
fn test_format_output_names_on_small_screens() {
    let out = TxOutput::LockThenTransfer(
        OutputValue::Coin(Amount::from_atoms(1)),
        Destination::AnyoneCanSpend,
        OutputTimeLock::ForSeconds(5),
    );
    assert_eq!(format_output(&out, CoinType::Mainnet, true).unwrap().name, "LockThenXfer");
    let f = format_output(&out, CoinType::Mainnet, false).unwrap();
    assert_eq!(f.name, "Lock then Transfer");
    let addr = to_address(&Destination::AnyoneCanSpend, CoinType::Mainnet).unwrap();
    assert_eq!(
        f.value,
        format!("Destination: {}\nLock for 5 seconds\n0.00000000001 ML\n", addr)
    );
}

#[test]
fn test_format_output_token_and_data() {
    let id = H256([2; 32]);
    let burn = TxOutput::Burn(OutputValue::TokenV1(id, Amount::from_atoms(77)));
    let f = format_output(&burn, CoinType::Testnet, false).unwrap();
    assert_eq!(f.name, "Burn");
    assert_eq!(f.value, format!("77 atoms of {}", bech32m("tmltk", &[2; 32])));

    let deposit = TxOutput::DataDeposit(vec![0xde, 0xad]);
    let f = format_output(&deposit, CoinType::Mainnet, false).unwrap();
    assert_eq!(f.name, "Data deposit");
    assert_eq!(f.value, "dead");
}

#[test]
fn test_format_output_fungible_token() {
    let data = TokenIssuanceV1 {
        token_ticker: b"XYZ".to_vec(),
        number_of_decimals: 8,
        metadata_uri: vec![0xff],
        total_supply: TokenTotalSupply::Fixed(Amount::from_atoms(1000)),
        authority: Destination::AnyoneCanSpend,
        is_freezable: IsTokenFreezable::Yes,
    };
    let f = format_output(&TxOutput::IssueFungibleToken(TokenIssuance::V1(data)), CoinType::Mainnet, false)
        .unwrap();
    assert_eq!(f.name, "Issue fungible token");
    let addr = to_address(&Destination::AnyoneCanSpend, CoinType::Mainnet).unwrap();
    assert_eq!(
        f.value,
        format!(
            "Ticker: XYZ\nAuthority: {}\nMetadata URI: 0xff\nTotal token supply: FIXED 1000 atoms\nNumber of decimals: 8\nIs freezable: Yes",
            addr
        )
    );
}

#[test]
fn test_format_input() {
    let id = H256([5; 32]);
    let token = bech32m("mmltk", &[5; 32]);

    let mint = InputCommand::AccountCommand(AccountCommand::MintTokens(id, Amount::from_atoms(9)));
    let f = format_input(&mint, CoinType::Mainnet, false).unwrap();
    assert_eq!(f.name, "Mint tokens");
    assert_eq!(f.value, format!("Token ID: {}\nAmount: 9 atoms", token));

    let freeze = InputCommand::AccountCommand(AccountCommand::FreezeToken(id, IsTokenUnfreezable::No));
    let f = format_input(&freeze, CoinType::Mainnet, false).unwrap();
    assert_eq!(f.value, format!("Token ID: {}\nIs unfreezable: No", token));

    let lock = InputCommand::AccountCommand(AccountCommand::LockTokenSupply(id));
    assert_eq!(format_input(&lock, CoinType::Mainnet, true).unwrap().name, "Lock supply");
    assert_eq!(format_input(&lock, CoinType::Mainnet, false).unwrap().name, "Lock token supply");

    let withdraw = InputCommand::AccountSpending(AccountSpending::DelegationBalance(
        H256([6; 32]),
        Amount::from_atoms(100_000_000_000),
    ));
    let f = format_input(&withdraw, CoinType::Mainnet, false).unwrap();
    assert_eq!(f.name, "Delegation withdrawal");
    assert_eq!(
        f.value,
        format!("Delegation ID: {}\nAmount: 1.00000000000 ML", bech32m("mdelg", &[6; 32]))
    );

    let fill = InputCommand::OrderCommand(
        OrderAccountCommand::FillOrder(H256([8; 32]), Amount::from_atoms(3)),
        AdditionalOrderInfo {
            initially_asked: OutputValue::TokenV1(id, Amount::from_atoms(10)),
            initially_given: OutputValue::Coin(Amount::from_atoms(100)),
            ask_balance: Amount::from_atoms(10),
            give_balance: Amount::from_atoms(100),
        },
    );
    let f = format_input(&fill, CoinType::Mainnet, false).unwrap();
    assert_eq!(f.name, "Fill order");
    assert_eq!(
        f.value,
        format!("Order ID: {}\nFill amount: 3 atoms of {}", bech32m("mordr", &[8; 32]), token)
    );

    let v0 = InputCommand::AccountCommand(AccountCommand::ConcludeOrder(H256([0; 32])));
    assert_eq!(
        format_input(&v0, CoinType::Mainnet, false).unwrap_err(),
        StatusWord::OrdersV0NotSupported
    );
}

#[test]
fn test_output_value_with_amount() {
    let id = H256([1; 32]);
    assert_eq!(
        output_value_with_amount(&OutputValue::TokenV1(id, Amount::from_atoms(5)), Amount::from_atoms(9)),
        OutputValue::TokenV1(id, Amount::from_atoms(9))
    );
    assert_eq!(
        output_value_with_amount(&OutputValue::Coin(Amount::from_atoms(5)), Amount::from_atoms(9)),
        OutputValue::Coin(Amount::from_atoms(9))
    );
}

#[test]
fn test_fees_text_and_title() {
    let outpoint = UtxoOutPoint { source_id: OutPointSourceId::Transaction(H256([0; 32])), output_index: 1 };
    let id = H256([4; 32]);
    let mut summary = TxSummaryCollector::new();
    for value in [
        OutputValue::Coin(Amount::from_atoms(300_000_000_000)),
        OutputValue::TokenV1(id, Amount::from_atoms(50)),
    ] {
        let inp = TxInputWithAdditionalInfo::Utxo(
            outpoint,
            AdditionalUtxoInfo::Utxo(TxOutput::Transfer(value, Destination::AnyoneCanSpend)),
        );
        summary.process_input(&inp).unwrap();
    }
    summary
        .process_output(&TxOutput::Transfer(
            OutputValue::Coin(Amount::from_atoms(100_000_000_000)),
            Destination::AnyoneCanSpend,
        ))
        .unwrap();
    summary
        .process_output(&TxOutput::Transfer(
            OutputValue::TokenV1(id, Amount::from_atoms(20)),
            Destination::AnyoneCanSpend,
        ))
        .unwrap();
    assert_eq!(
        fees_text(&summary, CoinType::Mainnet).unwrap(),
        format!("2.00000000000 ML\n30 atoms of {}\n", bech32m("mmltk", &[4; 32]))
    );
    assert_eq!(transaction_title(&summary.tx_type()), "Sign transfer transaction");
    assert_eq!(transaction_title(&None), "Sign transaction");
    assert_eq!(transaction_title(&Some(TxType::ComplexTransaction)), "Sign transaction");
    assert_eq!(transaction_title(&Some(TxType::FillOrder)), "Sign fill order transaction");

    // A token whose fee is zero gets no line; an underflow is an error.
    let mut summary = TxSummaryCollector::new();
    let inp = TxInputWithAdditionalInfo::Utxo(
        outpoint,
        AdditionalUtxoInfo::Utxo(TxOutput::Transfer(
            OutputValue::TokenV1(id, Amount::from_atoms(5)),
            Destination::AnyoneCanSpend,
        )),
    );
    summary.process_input(&inp).unwrap();
    summary
        .process_output(&TxOutput::Burn(OutputValue::TokenV1(id, Amount::from_atoms(5))))
        .unwrap();
    assert_eq!(fees_text(&summary, CoinType::Mainnet).unwrap(), "");
    summary
        .process_output(&TxOutput::Burn(OutputValue::TokenV1(id, Amount::from_atoms(1))))
        .unwrap();
    assert_eq!(fees_text(&summary, CoinType::Mainnet).unwrap_err(), StatusWord::TxFeeUnderflow);
}

#[test]
fn test_fees_text_of_output_only_asset() {
    let outpoint = UtxoOutPoint { source_id: OutPointSourceId::Transaction(H256([0; 32])), output_index: 1 };
    let mut summary = TxSummaryCollector::new();
    let inp = TxInputWithAdditionalInfo::Utxo(
        outpoint,
        AdditionalUtxoInfo::Utxo(TxOutput::Transfer(
            OutputValue::Coin(Amount::from_atoms(10)),
            Destination::AnyoneCanSpend,
        )),
    );
    summary.process_input(&inp).unwrap();
    summary
        .process_output(&TxOutput::Burn(OutputValue::TokenV1(H256([9; 32]), Amount::from_atoms(1))))
        .unwrap();
    assert_eq!(fees_text(&summary, CoinType::Mainnet).unwrap_err(), StatusWord::TxFeeUnderflow);
}

#[test]
fn test_address_shape() {
    let pkh = Destination::PublicKeyHash(PublicKeyHash([0xAB; 20]));
    let s = to_address(&pkh, CoinType::Mainnet).unwrap();
    // The prefix, the separator, 34 characters for 21 bytes and 6 of checksum.
    assert_eq!(s.len(), 3 + 1 + 34 + 6);
    assert!(s.starts_with("mtc1"));
    assert!(s[4..].chars().all(|c| "qpzry9x8gf2tvdw0s3jn54khce6mua7l".contains(c)));
    let upper = bech32m_encode("ABC", &[1, 2]).unwrap();
    assert!(upper.starts_with("abc1"));
}
