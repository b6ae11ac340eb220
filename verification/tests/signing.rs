use mintlayer_app::command::{data_context_finished, take_sign_message_context, take_tx_context, DataContext};
use mintlayer_app::derivation::{
    check_derivation_path, check_derivation_path_for_tx_signing, cut_array,
    CompressedDerivationPathForTxSigning,
};
use mintlayer_app::legacy::{parse_version_string, InputCompressed, PubKeyP1, SignP1};
use mintlayer_app::messages::{
    AddrType, AdditionalOrderInfo, AdditionalUtxoInfo, Bip32Path, InputAddressPath, Signature,
    SignMessageStartReq, SignTxNextReq, SignTxStartReq, TransactionVersion,
    TxInputCommitmentData, TxInputData, TxInputWithAdditionalInfo, TxOutputData,
};
use mintlayer_app::primitives::{
    Amount, CoinType, Destination, OrderAccountCommand, OutPointSourceId, OutputValue,
    PublicKeyHash, SighashInputCommitment, TxOutput, UtxoOutPoint, H256,
};
use mintlayer_app::sign_message::{
    compress_public_key, framed_message, message_destination, message_review, public_key_address,
    setup_sign_message,
};
use mintlayer_app::sign_tx::{handle_sign_tx, tx_header, SigTarget, TxProcessingContext, TxReview, TxStep};
use mintlayer_app::status::StatusWord;
use mintlayer_app::text::to_address;

const H: u32 = 0x8000_0000;

fn signing_path(index: u32) -> Bip32Path {
    Bip32Path(vec![44 | H, 0x4D4C | H, H, 0, index])
}

fn address(index: u32, multisig_idx: Option<u32>) -> InputAddressPath {
    InputAddressPath { path: signing_path(index), multisig_idx }
}

fn coin_output(atoms: u128) -> TxOutput {
    TxOutput::Transfer(OutputValue::Coin(Amount::from_atoms(atoms)), Destination::AnyoneCanSpend)
}

fn coin_input(atoms: u128) -> TxInputWithAdditionalInfo {
    TxInputWithAdditionalInfo::Utxo(
        UtxoOutPoint { source_id: OutPointSourceId::Transaction(H256([1; 32])), output_index: 0 },
        AdditionalUtxoInfo::Utxo(coin_output(atoms)),
    )
}

fn start(num_inputs: u32, num_outputs: u32) -> Result<TxProcessingContext, StatusWord> {
    TxProcessingContext::new(SignTxStartReq {
        coin: CoinType::Mainnet,
        version: TransactionVersion::V1,
        num_inputs,
        num_outputs,
    })
}

fn input_req(addresses: Vec<InputAddressPath>, input: TxInputWithAdditionalInfo) -> SignTxNextReq {
    SignTxNextReq::ProcessInput(Box::new(TxInputData { addresses, input }))
}

fn commitment_req(commitment: SighashInputCommitment) -> SignTxNextReq {
    SignTxNextReq::ProcessInputCommitment(Box::new(TxInputCommitmentData { commitment }))
}

fn coin_commitment(atoms: u128) -> SighashInputCommitment {
    SighashInputCommitment::Utxo(coin_output(atoms))
}

fn hashed(step: &TxStep) -> Vec<u8> {
    match step {
        TxStep::Next(_, bytes) => bytes.clone(),
        TxStep::Sign(_) => panic!("bytes to hash expected"),
    }
}

fn next(step: Result<(TxStep, TxProcessingContext), StatusWord>) -> (TxStep, TxProcessingContext) {
    match step {
        Ok(r) => r,
        Err(e) => panic!("step failed: {:?}", e),
    }
}

#[test]
fn test_full_signing_flow() {
    let ctx = start(2, 1).unwrap();
    assert_eq!(ctx.show_spinner(), None);
    assert!(!ctx.finished());
    let mut signed = tx_header(2);

    let (step, ctx) = next(handle_sign_tx(input_req(vec![address(0, None)], coin_input(1000)), ctx));
    assert!(matches!(step, TxStep::Next(TxReview::Nothing, _)));
    signed.extend(hashed(&step));
    let (step, ctx) = next(handle_sign_tx(
        input_req(vec![address(1, None), address(2, Some(1))], coin_input(500)),
        ctx,
    ));
    signed.extend(hashed(&step));
    assert!(matches!(ctx, TxProcessingContext::ProcessingInputCommitments(_)));

    let (step, ctx) = next(handle_sign_tx(commitment_req(coin_commitment(1000)), ctx));
    assert!(matches!(step, TxStep::Next(TxReview::Nothing, _)));
    signed.extend(hashed(&step));
    let (step, ctx) = next(handle_sign_tx(commitment_req(coin_commitment(500)), ctx));
    assert!(matches!(step, TxStep::Next(TxReview::Start, _)));
    signed.extend(hashed(&step));
    match &ctx {
        TxProcessingContext::ProcessingOutputs(c) => {
            assert_eq!(c.coin_type(), CoinType::Mainnet);
            assert!(c.summary().input_command().is_none());
        },
        _ => panic!("outputs expected"),
    }

    let output = coin_output(1400);
    let (step, ctx) = next(handle_sign_tx(
        SignTxNextReq::ProcessOutput(Box::new(TxOutputData { output })),
        ctx,
    ));
    signed.extend(hashed(&step));
    match step {
        TxStep::Next(TxReview::Approve(summary), _) => {
            assert_eq!(summary.fees_iter(), vec![Ok((mintlayer_app::totals::CoinOrTokenId::Coin, 100))]);
        },
        _ => panic!("approval expected"),
    }
    assert_eq!(ctx.show_spinner(), Some("Signing..."));
    assert!(matches!(ctx, TxProcessingContext::Signing(_)));

    // The header, both inputs (a transaction output point), their number,
    // both commitments (the spent outputs), the number of outputs and the output.
    let mut expected = vec![1, 1];
    expected.extend_from_slice(&[0; 16]);
    expected.extend_from_slice(&[2, 0, 0, 0]);
    for _ in 0..2 {
        expected.extend_from_slice(&[0, 0]);
        expected.extend_from_slice(&[1; 32]);
        expected.extend_from_slice(&[0, 0, 0, 0]);
    }
    expected.extend_from_slice(&[2, 0, 0, 0]);
    expected.extend_from_slice(&[1, 0, 0, 0xA1, 0x0F, 0]);
    expected.extend_from_slice(&[1, 0, 0, 0xD1, 0x07, 0]);
    expected.extend_from_slice(&[4]);
    expected.extend_from_slice(&[0, 0, 0xE1, 0x15, 0]);
    assert_eq!(signed, expected);

    let mut ctx = ctx;
    let expected = [(0u32, 0u32, None, true), (1, 1, None, true), (1, 2, Some(1), false)];
    for (input_idx, index, multisig_idx, has_next) in expected {
        let (step, new_ctx) = next(handle_sign_tx(SignTxNextReq::ReturnNextSignature, ctx));
        match step {
            TxStep::Sign(p) => {
                assert_eq!(p.path, [44 | H, 0x4D4C | H, H, 0, index]);
                assert_eq!(p.input_idx, input_idx);
                assert_eq!(p.multisig_idx, multisig_idx);
                assert_eq!(p.has_next, has_next);
                let r = p.into_response(Signature([9; 64]));
                assert_eq!(r.input_idx, input_idx);
                assert_eq!(r.has_next, has_next);
            },
            _ => panic!("signature expected"),
        }
        ctx = new_ctx;
    }
    assert!(ctx.finished());
    assert_eq!(
        handle_sign_tx(SignTxNextReq::ReturnNextSignature, ctx).err(),
        Some(StatusWord::TxAlreadyFinished)
    );
}

#[test]
fn test_signing_without_outputs_asks_for_approval_at_once() {
    let ctx = start(1, 0).unwrap();
    let (_, ctx) = next(handle_sign_tx(input_req(vec![address(0, None)], coin_input(5)), ctx));
    let (step, ctx) = next(handle_sign_tx(commitment_req(coin_commitment(5)), ctx));
    assert!(matches!(step, TxStep::Next(TxReview::StartAndApprove(_), _)));
    // The commitment, then no outputs.
    assert_eq!(hashed(&step), vec![1, 0, 0, 20, 0, 0]);
    assert!(matches!(ctx, TxProcessingContext::Signing(_)));
}

#[test]
fn test_signing_errors() {
    assert_eq!(start(0, 1).err(), Some(StatusWord::TxWithZeroInputs));

    // A request of another phase.
    let ctx = start(1, 1).unwrap();
    assert_eq!(
        handle_sign_tx(commitment_req(SighashInputCommitment::Empty), ctx).err(),
        Some(StatusWord::WrongContext)
    );
    let ctx = start(1, 1).unwrap();
    assert_eq!(
        handle_sign_tx(SignTxNextReq::ReturnNextSignature, ctx).err(),
        Some(StatusWord::WrongContext)
    );

    // A path that is not for signing.
    let ctx = start(1, 1).unwrap();
    let bad = InputAddressPath { path: Bip32Path(vec![44 | H, 1 | H, H, 0, 0]), multisig_idx: None };
    assert_eq!(
        handle_sign_tx(input_req(vec![bad], coin_input(1)), ctx).err(),
        Some(StatusWord::InvalidPath)
    );

    // Nothing to sign.
    let ctx = start(1, 1).unwrap();
    assert_eq!(
        handle_sign_tx(input_req(vec![], coin_input(1)), ctx).err(),
        Some(StatusWord::NothingToSign)
    );

    // A signature for an order fill.
    let ctx = start(2, 1).unwrap();
    let fill = TxInputWithAdditionalInfo::OrderAccountCommand(
        OrderAccountCommand::FillOrder(H256([0; 32]), Amount::from_atoms(1)),
        AdditionalOrderInfo {
            initially_asked: OutputValue::Coin(Amount::from_atoms(10)),
            initially_given: OutputValue::Coin(Amount::from_atoms(10)),
            ask_balance: Amount::from_atoms(10),
            give_balance: Amount::from_atoms(10),
        },
    );
    assert_eq!(
        handle_sign_tx(input_req(vec![address(0, None)], fill), ctx).err(),
        Some(StatusWord::FillOrderSigRequested)
    );

    // Different commitments in the second pass.
    let ctx = start(1, 1).unwrap();
    let (_, ctx) = next(handle_sign_tx(input_req(vec![address(0, None)], coin_input(5)), ctx));
    assert_eq!(
        handle_sign_tx(commitment_req(coin_commitment(6)), ctx).err(),
        Some(StatusWord::DifferentInputCommitmentHash)
    );
    // No commitment in place of the spent output.
    let ctx = start(1, 1).unwrap();
    let (_, ctx) = next(handle_sign_tx(input_req(vec![address(0, None)], coin_input(5)), ctx));
    assert_eq!(
        handle_sign_tx(commitment_req(SighashInputCommitment::Empty), ctx).err(),
        Some(StatusWord::DifferentInputCommitmentHash)
    );
}

#[test]
fn test_tx_header() {
    let mut expected = vec![1, 1];
    expected.extend_from_slice(&[0; 16]);
    expected.extend_from_slice(&[3, 1, 0, 0]);
    assert_eq!(tx_header(259), expected);
}

#[test]
fn test_spinner_for_many_inputs() {
    assert_eq!(start(5, 1).unwrap().show_spinner(), None);
    assert_eq!(start(6, 1).unwrap().show_spinner(), Some("Processing transaction..."));
}

#[test]
fn test_sig_target() {
    let t = SigTarget::new(&address(7, Some(3)), 4, CoinType::Mainnet).unwrap();
    assert_eq!(
        t.path,
        CompressedDerivationPathForTxSigning { account_index: H, addr_purpose: 0, addr_index: 7 }
    );
    assert_eq!(t.input_idx, 4);
    assert_eq!(t.multisig_idx, Some(3));
    assert_eq!(t.path.to_full_path(CoinType::Mainnet), [44 | H, 0x4D4C | H, H, 0, 7]);
    assert_eq!(t.path.to_full_path(CoinType::Testnet), [44 | H, 1 | H, H, 0, 7]);
    assert_eq!(
        SigTarget::new(&address(7, None), 0, CoinType::Testnet).err(),
        Some(StatusWord::InvalidPath)
    );
}

#[test]
fn test_derivation_paths() {
    assert_eq!(check_derivation_path(&[44 | H, 0x4D4C | H, H], CoinType::Mainnet), Ok(()));
    assert_eq!(check_derivation_path(&[44 | H, 1 | H, H, 0], CoinType::Signet), Ok(()));
    assert_eq!(
        check_derivation_path(&[44 | H, 0x4D4C | H], CoinType::Mainnet),
        Err(StatusWord::InvalidPath)
    );
    assert_eq!(
        check_derivation_path(&[44, 0x4D4C | H, H], CoinType::Mainnet),
        Err(StatusWord::InvalidPath)
    );
    assert!(check_derivation_path_for_tx_signing(&[44 | H, 1 | H, H, 0], CoinType::Testnet).is_err());
    let c = check_derivation_path_for_tx_signing(&[44 | H, 1 | H, 5, 6, 7], CoinType::Regtest).unwrap();
    assert_eq!((c.account_index, c.addr_purpose, c.addr_index), (5, 6, 7));
    let cut: [u8; 2] = cut_array(&[1u8, 2, 3]);
    assert_eq!(cut, [1, 2]);
}

#[test]
fn test_message_signing() {
    let req = SignMessageStartReq {
        coin: CoinType::Mainnet,
        addr_type: AddrType::PublicKeyHash,
        path: Bip32Path(vec![44 | H, 0x4D4C | H, H]),
    };
    let mut ctx = setup_sign_message(req).unwrap();
    assert!(!ctx.finished());
    assert_eq!(ctx.path(), &[44 | H, 0x4D4C | H, H]);
    assert_eq!(ctx.record_review(false), Err(StatusWord::Deny));
    assert!(ctx.finished());

    let bad = SignMessageStartReq {
        coin: CoinType::Testnet,
        addr_type: AddrType::PublicKey,
        path: Bip32Path(vec![44 | H, 0x4D4C | H, H]),
    };
    assert_eq!(setup_sign_message(bad).err(), Some(StatusWord::InvalidPath));

    let framed = framed_message(b"hi");
    assert_eq!(framed, b"===MINTLAYER MESSAGE BEGIN===\nhi\n===MINTLAYER MESSAGE END===".to_vec());
}

#[test]
fn test_public_keys() {
    let mut uncompressed = [0u8; 65];
    uncompressed[0] = 4;
    for i in 1..65 {
        uncompressed[i] = i as u8;
    }
    let pk = compress_public_key(&uncompressed).unwrap();
    assert_eq!(pk.0[0], 0x02);
    assert_eq!(&pk.0[1..], &uncompressed[1..33]);
    uncompressed[64] = 65;
    assert_eq!(compress_public_key(&uncompressed).unwrap().0[0], 0x03);
    let mut wrong = uncompressed;
    wrong[0] = 5;
    assert_eq!(compress_public_key(&wrong).err(), Some(StatusWord::InvalidUncompressedPublicKey));
    assert_eq!(public_key_address(&wrong, CoinType::Mainnet).err(), Some(StatusWord::InvalidUncompressedPublicKey));

    let dest = message_destination(AddrType::PublicKey, pk, PublicKeyHash([0; 20]));
    let addr = public_key_address(&uncompressed, CoinType::Mainnet).unwrap();
    assert!(addr.starts_with("mptc1"));
    let dest2 = message_destination(AddrType::PublicKey, compress_public_key(&uncompressed).unwrap(), PublicKeyHash([0; 20]));
    assert_eq!(to_address(&dest2, CoinType::Mainnet).unwrap(), addr);
    let _ = dest;

    let review = message_review(b"abc", &Destination::PublicKeyHash(PublicKeyHash([1; 20])), CoinType::Testnet).unwrap();
    assert!(review.address.starts_with("tmt1"));
    assert_eq!(review.message, "abc");
}

#[test]
fn test_data_context() {
    let mut none: Option<DataContext> = None;
    assert!(!data_context_finished(&none));
    assert_eq!(take_tx_context(&mut none).err(), Some(StatusWord::WrongContext));
    assert_eq!(take_sign_message_context(&mut none).err(), Some(StatusWord::WrongContext));

    let mut tx = Some(DataContext::TxContext(start(1, 1).unwrap()));
    assert_eq!(take_sign_message_context(&mut tx).err(), Some(StatusWord::WrongContext));
    assert!(tx.is_some());
    assert!(take_tx_context(&mut tx).is_ok());
    assert!(tx.is_none());

    let mut finished = Some(DataContext::TxContext(TxProcessingContext::Finished));
    assert!(data_context_finished(&finished));
    assert!(take_tx_context(&mut finished).is_ok());
}

#[test]
fn test_legacy_messages() {
    assert_eq!(parse_version_string("1.2.3"), Some((1, 2, 3)));
    assert_eq!(parse_version_string("0.10.255"), Some((0, 10, 255)));
    assert_eq!(parse_version_string("1.2.3.4"), Some((1, 2, 3)));
    assert_eq!(parse_version_string("+1.02.3"), Some((1, 2, 3)));
    assert_eq!(parse_version_string("1.2"), None);
    assert_eq!(parse_version_string("1.2.256"), None);
    assert_eq!(parse_version_string("1.x.3"), None);
    assert_eq!(parse_version_string("1..3"), None);
    assert_eq!(parse_version_string(""), None);

    assert!(PubKeyP1::from_u8(1).unwrap().display());
    assert!(!PubKeyP1::from_u8(0).unwrap().display());
    assert!(PubKeyP1::from_u8(2).is_err());
    assert_eq!(SignP1::from_u8(1).ok(), Some(SignP1::Next));

    let c = InputCompressed::new(&address(9, Some(2)), 3, CoinType::Mainnet).unwrap();
    assert_eq!(c.path, [H, 0, 9]);
    assert_eq!((c.input_idx, c.multisig_idx), (3, Some(2)));
    assert_eq!(
        InputCompressed::new(&address(9, None), 3, CoinType::Testnet).err(),
        Some(mintlayer_app::legacy::StatusWord::TxInvalidInputPath)
    );
}
