use mintlayer_app::errors::CxError;
use mintlayer_app::legacy::{compress_public_key, from_cx_error, from_wrong_p1p2, InputCompressed, StatusWord, WrongP1P2};
use mintlayer_app::legacy_review::{fees_text, format_output, message_text};
use mintlayer_app::messages::{AdditionalUtxoInfo, Bip32Path, InputAddressPath, TxInputWithAdditionalInfo};
use mintlayer_app::primitives::{
    Amount, CoinType, Destination, IsTokenFreezable, OutPointSourceId, OutputTimeLock, OutputValue,
    PublicKeyHash, TokenIssuance, TokenIssuanceV1, TokenTotalSupply, TxOutput, UtxoOutPoint, H256,
};
use mintlayer_app::sign_tx::{after_review, TxProcessingContext};
use mintlayer_app::summary::TxSummaryCollector;
use mintlayer_app::text::to_address;

const H: u32 = 0x8000_0000;

fn bech32m(hrp: &str, data: &[u8]) -> String {
    bech32::encode::<bech32::Bech32m>(bech32::Hrp::parse(hrp).unwrap(), data).unwrap()
}

fn coin(atoms: u128) -> OutputValue {
    OutputValue::Coin(Amount::from_atoms(atoms))
}

#[test]
fn test_first_version_status_words() {
    assert_eq!(StatusWord::Success.code(), 0x9000);
    assert_eq!(StatusWord::Deny.code(), 0x6985);
    assert_eq!(StatusWord::WrongP1P2.code(), 0x6E02);
    assert_eq!(StatusWord::AddrDisplayFail.code(), 0xB001);
    assert_eq!(StatusWord::TxAddressFail.code(), 0xB005);
    assert_eq!(StatusWord::TxNumericOperationFail.code(), 0xB00C);
    assert_eq!(StatusWord::TxInvalidInputPath.code(), 0xB00F);
    assert_eq!(StatusWord::MaxBufferLenExceeded.code(), 0xB014);
    assert_eq!(StatusWord::EccGenericError.code(), 0xB110);
    assert_eq!(from_wrong_p1p2(WrongP1P2), StatusWord::WrongP1P2);
    assert_eq!(from_cx_error(CxError::Carry), StatusWord::EccCarry);
    assert_eq!(from_cx_error(CxError::InvalidCurve).code(), 0xB10F);
}

#[test]
fn test_first_version_compress_public_key() {
    let key = [0x04u8; 65];
    let c = compress_public_key(&key).unwrap();
    assert_eq!(c[0], 0x02);
    assert_eq!(&c[1..], &[0x04u8; 32]);
    let mut odd = key;
    odd[64] = 5;
    assert_eq!(compress_public_key(&odd).unwrap()[0], 0x03);
    let mut wrong = key;
    wrong[0] = 0x02;
    assert_eq!(compress_public_key(&wrong), Err(StatusWord::AddrDisplayFail));
}

#[test]
fn test_first_version_input_paths() {
    let addr = |path: Vec<u32>| InputAddressPath { path: Bip32Path(path), multisig_idx: Some(1) };
    let c = InputCompressed::new(&addr(vec![44 | H, 0x4D4C | H, 5, 0, 9]), 2, CoinType::Mainnet).unwrap();
    assert_eq!(c.path, [5, 0, 9]);
    assert_eq!((c.input_idx, c.multisig_idx), (2, Some(1)));
    for (path, coin_type) in [
        (vec![44 | H, 0x4D4C | H, 5, 0, 9], CoinType::Testnet),
        (vec![44 | H, 0x4D4C | H, 5, 0], CoinType::Mainnet),
        (vec![44, 0x4D4C | H, 5, 0, 9], CoinType::Mainnet),
    ] {
        assert_eq!(
            InputCompressed::new(&addr(path), 0, coin_type).err(),
            Some(StatusWord::TxInvalidInputPath)
        );
    }
}

#[test]
fn test_first_version_output_screens() {
    let pkh = Destination::PublicKeyHash(PublicKeyHash([7; 20]));
    let address = to_address(&pkh, CoinType::Mainnet).unwrap();

    let (name, text) = format_output(&TxOutput::Burn(coin(123)), CoinType::Mainnet).unwrap();
    assert_eq!((name, text.as_str()), ("BURN", "Coins: 0.00000000123"));

    let (name, text) = format_output(&TxOutput::Transfer(coin(1000), pkh), CoinType::Mainnet).unwrap();
    assert_eq!(name, "Transfer");
    assert_eq!(text, format!("Destination: {}\nCoins: 0.00000001000\n", address));

    let lock = TxOutput::LockThenTransfer(coin(300_000_000_000), pkh, OutputTimeLock::ForBlockCount(10));
    let (name, text) = format_output(&lock, CoinType::Mainnet).unwrap();
    assert_eq!(name, "Lock then Transfer");
    assert_eq!(text, format!("Destination: {}\nLock for 10 blocks\nCoins: 3.00000000000\n", address));

    let token = TxOutput::Burn(OutputValue::TokenV1(H256([4; 32]), Amount::from_atoms(5)));
    let (_, text) = format_output(&token, CoinType::Mainnet).unwrap();
    assert_eq!(text, format!("Token: {} 5", bech32m("mmltk", &[4; 32])));

    let (name, text) = format_output(&TxOutput::DataDeposit(vec![1, 0xAB]), CoinType::Mainnet).unwrap();
    assert_eq!((name, text.as_str()), ("Data deposit", "01ab"));

    let (name, text) = format_output(
        &TxOutput::DelegateStaking(Amount::from_atoms(1), H256([2; 32])),
        CoinType::Mainnet,
    )
    .unwrap();
    assert_eq!(name, "Delegate staking");
    assert_eq!(text, format!("{}\nCoins: 0.00000000001", bech32m("mdelg", &[2; 32])));

    let issuance = TokenIssuanceV1 {
        token_ticker: b"ABC".to_vec(),
        number_of_decimals: 2,
        metadata_uri: b"uri".to_vec(),
        total_supply: TokenTotalSupply::Fixed(Amount::from_atoms(100_000_000_000)),
        authority: pkh,
        is_freezable: IsTokenFreezable::Yes,
    };
    let (name, text) =
        format_output(&TxOutput::IssueFungibleToken(TokenIssuance::V1(issuance)), CoinType::Mainnet).unwrap();
    assert_eq!(name, "Issue fungible token");
    assert_eq!(
        text,
        format!(
            "Ticker: ABC\nAuthority: {}\nMetadata URI: uri\nTotal token supply: FIXED 1.00000000000\nNumber of decimals: 2\nIs freezable: Yes",
            address
        )
    );
}

#[test]
fn test_first_version_fees() {
    let outpoint = UtxoOutPoint { source_id: OutPointSourceId::Transaction(H256([0; 32])), output_index: 0 };
    let id = H256([4; 32]);
    let mut summary = TxSummaryCollector::new();
    for value in [coin(1000), OutputValue::TokenV1(id, Amount::from_atoms(5))] {
        let inp = TxInputWithAdditionalInfo::Utxo(
            outpoint,
            AdditionalUtxoInfo::Utxo(TxOutput::Transfer(value, Destination::AnyoneCanSpend)),
        );
        summary.process_input(&inp).unwrap();
    }
    summary.process_output(&TxOutput::Burn(coin(900))).unwrap();
    summary.process_output(&TxOutput::Burn(OutputValue::TokenV1(id, Amount::from_atoms(5)))).unwrap();
    // The token's fee is zero: no line. An asset only the outputs hold is not listed.
    summary.process_output(&TxOutput::Burn(OutputValue::TokenV1(H256([9; 32]), Amount::from_atoms(1)))).unwrap();
    assert_eq!(fees_text(&summary, CoinType::Mainnet).unwrap(), "0.00000000100 ML\n");

    summary.process_output(&TxOutput::Burn(coin(200))).unwrap();
    assert_eq!(fees_text(&summary, CoinType::Mainnet).err(), Some(StatusWord::TxNumericOperationFail));
}

#[test]
fn test_first_version_message_text() {
    assert_eq!(message_text(b"hi\nthere"), "hi\nthere");
    assert_eq!(message_text(&[0x68, 0xFF]), "0x68ff");
    assert_eq!(message_text(&[]), "");
}

#[test]
fn test_refused_review_is_denied() {
    assert!(matches!(after_review(TxProcessingContext::Finished, true), Ok(TxProcessingContext::Finished)));
    assert_eq!(
        after_review(TxProcessingContext::Finished, false).err(),
        Some(mintlayer_app::status::StatusWord::Deny)
    );
}
