use mintlayer_app::apdu::Apdu;
use mintlayer_app::codec::{encode_as_compact, u32_to_le_bytes};
use mintlayer_app::command::{after_command_handling, Command, CommandTag, StatusType};
use mintlayer_app::errors::{cx_err_to_status, sdk_err_to_status, CxError, IoStatus};
use mintlayer_app::messages::{
    ChainCode, GetPubKeyP1, MsgSignatureResponse, PublicKeyResponse, Response, SignTxP1,
    Signature, TxInputSignatureResponse, UncompressedSecp256k1PublicKey,
};
use mintlayer_app::status::StatusWord;
use mintlayer_app::transport::{ApduHeader, ApduTransport, RawInstruction, ReceiveInstructionResult};

fn header(ins: u8, p1: u8, p2: u8) -> ApduHeader {
    ApduHeader { ins, p1, p2 }
}

#[test]
fn test_apdu_chunking() {
    let bytes = |n: usize| (0..n).map(|i| (i % 10) as u8).collect::<Vec<u8>>();
    let ins = 0xaa;
    let p1 = 0xbb;

    // One chunk
    let data = bytes(100);
    let chunks = Apdu::new_chunks(ins, p1, &data);
    assert_eq!(chunks.len(), 1);
    assert!(chunks[0].is_last());
    assert_eq!(chunks[0].bytes_count(), 105);
    let mut out = Vec::new();
    chunks[0].write_bytes(&mut out);
    assert_eq!(&out[..5], &[0xE1, ins, p1, 0x00, 100]);
    assert_eq!(&out[5..], &data[..]);

    // One chunk, data is zero length
    let chunks = Apdu::new_chunks(ins, p1, &[]);
    assert_eq!(chunks.len(), 1);
    assert!(chunks[0].is_last());
    let mut out = Vec::new();
    chunks[0].write_bytes(&mut out);
    assert_eq!(out, vec![0xE1, ins, p1, 0x00, 0]);

    // Multiple chunks
    let data = bytes(600);
    let chunks = Apdu::new_chunks(ins, p1, &data);
    assert_eq!(chunks.len(), 3);
    let mut all = Vec::new();
    for (i, chunk) in chunks.iter().enumerate() {
        assert_eq!(chunk.is_last(), i == 2);
        let mut out = Vec::new();
        chunk.write_bytes(&mut out);
        let len = if i < 2 { 255 } else { 90 };
        assert_eq!(out[3], if i < 2 { 0x80 } else { 0x00 });
        assert_eq!(out[4] as usize, len);
        assert_eq!(chunk.bytes_count(), 5 + len);
        all.extend_from_slice(&out[5..]);
    }
    assert_eq!(all, data);
}

#[test]
fn test_apdu_new_with_data() {
    let data = [1u8; 255];
    let apdu = Apdu::new_with_data(1, 2, &data).unwrap();
    assert!(apdu.is_last());
    let mut out = Vec::new();
    apdu.write_bytes(&mut out);
    assert_eq!(&out[..5], &[0xE1, 1, 2, 0x00, 255]);
    assert!(Apdu::new_with_data(1, 2, &[0u8; 256]).is_none());
}

#[test]
fn test_transport_reassembles_chunks() {
    let data = (0..600).map(|i| (i % 251) as u8).collect::<Vec<u8>>();
    let chunks = Apdu::new_chunks(0x01, 0x01, &data);
    let mut transport = ApduTransport::new();
    let mut received = None;
    for chunk in &chunks {
        let mut bytes = Vec::new();
        chunk.write_bytes(&mut bytes);
        let r = transport.receive(header(bytes[1], bytes[2], bytes[3]), Ok(&bytes[5..])).unwrap();
        match r {
            ReceiveInstructionResult::ExpectingNextChunk => assert!(!chunk.is_last()),
            ReceiveInstructionResult::Instruction(raw) => received = Some(raw),
        }
    }
    let raw = received.unwrap();
    assert_eq!((raw.ins, raw.p1), (0x01, 0x01));
    assert_eq!(raw.data, data);
}

#[test]
fn test_transport_errors() {
    let mut transport = ApduTransport::new();
    transport.receive(header(1, 1, 0x80), Ok(&[1, 2])).unwrap();
    assert_eq!(
        transport.receive(header(2, 1, 0x00), Ok(&[3])).unwrap_err(),
        StatusWord::WrongInstruction
    );
    transport.receive(header(1, 1, 0x80), Ok(&[1, 2])).unwrap();
    assert_eq!(transport.receive(header(1, 0, 0x00), Ok(&[3])).unwrap_err(), StatusWord::WrongP1P2);
    assert_eq!(transport.receive(header(1, 0, 0x42), Ok(&[3])).unwrap_err(), StatusWord::WrongP1P2);
    let big = [0u8; 255];
    for _ in 0..16 {
        transport.receive(header(1, 1, 0x80), Ok(&big)).unwrap();
    }
    assert_eq!(
        transport.receive(header(1, 1, 0x00), Ok(&[1])).unwrap_err(),
        StatusWord::MaxBufferLenExceeded
    );
    // After an error the next instruction starts afresh.
    match transport.receive(header(3, 0, 0x00), Ok(&[])).unwrap() {
        ReceiveInstructionResult::Instruction(raw) => assert!(raw.data.is_empty()),
        ReceiveInstructionResult::ExpectingNextChunk => panic!("instruction expected"),
    }
}

#[test]
fn test_response() {
    assert_eq!(Response::ExpectingNextChunk.encode(), vec![0]);
    assert_eq!(Response::TxSetup.encode(), vec![2]);
    assert_eq!(Response::TxNext.encode(), vec![3]);
    assert_eq!(Response::MessageSetup.encode(), vec![5]);
    assert_eq!(Response::Pong.encode(), vec![7]);

    let pk = Response::PublicKey(PublicKeyResponse {
        public_key: UncompressedSecp256k1PublicKey([0xAB; 65]),
        chain_code: ChainCode([0xCD; 32]),
    });
    let mut expected = vec![1];
    expected.extend_from_slice(&[171; 65]);
    expected.extend_from_slice(&[205; 32]);
    assert_eq!(pk.encode(), expected);

    let sig = Response::TxInputSignature(TxInputSignatureResponse {
        signature: Signature([0xAB; 64]),
        input_idx: 123,
        multisig_idx: Some(234),
        has_next: true,
    });
    let mut expected = vec![4];
    expected.extend_from_slice(&[171; 64]);
    expected.extend_from_slice(&[123, 0, 0, 0, 1, 234, 0, 0, 0, 1]);
    assert_eq!(sig.encode(), expected);

    let msg = Response::MessageSignature(MsgSignatureResponse { signature: Signature([0xAB; 64]) });
    let mut expected = vec![6];
    expected.extend_from_slice(&[171; 64]);
    assert_eq!(msg.encode(), expected);
}

#[test]
fn test_tx_input_signature_without_multisig() {
    let sig = Response::TxInputSignature(TxInputSignatureResponse {
        signature: Signature([0; 64]),
        input_idx: 0x0102_0304,
        multisig_idx: None,
        has_next: false,
    });
    let enc = sig.encode();
    assert_eq!(enc.len(), 1 + 64 + 4 + 1 + 1);
    assert_eq!(&enc[65..], &[4, 3, 2, 1, 0, 0]);
}

#[test]
fn test_compact_encoding() {
    assert_eq!(encode_as_compact(0), vec![0]);
    assert_eq!(encode_as_compact(23), vec![92]);
    assert_eq!(encode_as_compact(63), vec![252]);
    assert_eq!(encode_as_compact(64), vec![1, 1]);
    assert_eq!(encode_as_compact(16383), vec![253, 255]);
    assert_eq!(encode_as_compact(16384), vec![2, 0, 1, 0]);
    assert_eq!(encode_as_compact(0x3fff_ffff), vec![254, 255, 255, 255]);
    assert_eq!(encode_as_compact(0x4000_0000), vec![3, 0, 0, 0, 64]);
    assert_eq!(encode_as_compact(u32::MAX), vec![3, 255, 255, 255, 255]);
    assert_eq!(u32_to_le_bytes(0x0a0b_0c0d), [0x0d, 0x0c, 0x0b, 0x0a]);
}

#[test]
fn test_command_decoding() {
    let raw = |ins: u8, p1: u8, data: Vec<u8>| RawInstruction { ins, p1, data };
    match Command::try_from(raw(0x00, 1, vec![9])).unwrap() {
        Command::GetPubKey { p1, data } => {
            assert!(p1.display());
            assert_eq!(data, vec![9]);
        },
        _ => panic!("GetPubKey expected"),
    }
    assert!(matches!(
        Command::try_from(raw(0x01, 0, vec![])).unwrap().tag(),
        CommandTag::SignTx { p1: SignTxP1::Start }
    ));
    assert!(matches!(Command::try_from(raw(0x03, 0, vec![])).unwrap(), Command::Ping));
    assert_eq!(Command::try_from(raw(0x03, 0, vec![1])).unwrap_err(), StatusWord::InvalidData);
    assert_eq!(Command::try_from(raw(0x03, 1, vec![])).unwrap_err(), StatusWord::WrongP1P2);
    assert_eq!(Command::try_from(raw(0x00, 2, vec![])).unwrap_err(), StatusWord::WrongP1P2);
    assert_eq!(Command::try_from(raw(0x07, 0, vec![])).unwrap_err(), StatusWord::InsNotSupported);
}

#[test]
fn test_after_command_handling() {
    let shown = after_command_handling(
        CommandTag::GetPubKey { p1: GetPubKeyP1::DisplayAddress },
        false,
        StatusWord::Success,
    );
    assert_eq!(shown.show_status, Some(StatusType::Address));
    assert!(shown.go_home && shown.success);

    let mid_tx = after_command_handling(
        CommandTag::SignTx { p1: SignTxP1::Next },
        false,
        StatusWord::Success,
    );
    assert_eq!(mid_tx.show_status, None);
    assert!(!mid_tx.go_home);

    let failed_tx =
        after_command_handling(CommandTag::SignTx { p1: SignTxP1::Next }, false, StatusWord::Deny);
    assert_eq!(failed_tx.show_status, Some(StatusType::Transaction));
    assert!(failed_tx.go_home && !failed_tx.success);
}

#[test]
fn test_status_words() {
    assert_eq!(StatusWord::Success.code(), 0x9000);
    assert_eq!(StatusWord::Deny.code(), 0x6985);
    assert_eq!(StatusWord::TxAddressFail.code(), 0xB004);
    assert_eq!(StatusWord::DifferentInputCommitmentHash.code(), 0xB013);
    assert_eq!(StatusWord::EccGenericError.code(), 0xB110);
    assert_eq!(StatusWord::from_code(0xB00E), Some(StatusWord::NothingToSign));
    assert_eq!(StatusWord::from_code(0x1234), None);
    assert_eq!(cx_err_to_status(CxError::Carry), StatusWord::EccCarry);
    assert_eq!(cx_err_to_status(CxError::InvalidCurve), StatusWord::EccInvalidCurve);
    assert_eq!(sdk_err_to_status(IoStatus::UserCancelled), StatusWord::Deny);
    assert_eq!(sdk_err_to_status(IoStatus::BadCla), StatusWord::ClaNotSupported);
}

#[test]
fn test_status_code_roundtrip() {
    let words = [
        StatusWord::Success,
        StatusWord::Deny,
        StatusWord::WrongP1P2,
        StatusWord::TxHashFail,
        StatusWord::InvalidPath,
        StatusWord::FillOrderSigRequested,
        StatusWord::TxWithZeroInputs,
        StatusWord::EccCarry,
        StatusWord::Panic,
    ];
    for w in words {
        assert_eq!(StatusWord::from_code(w.code()), Some(w));
    }
}
