//! Signing a message, and the addresses the user checks on screen: public
//! keys are shown as addresses, and a message is signed with a frame around
//! it so that it can never pass for a transaction.

use vstd::prelude::*;
use vstd::string::StringSliceAdditionalSpecFns;

use crate::derivation::{check_derivation_path, spec_path_ok};
use crate::messages::{AddrType, Bip32Path, SignMessageStartReq};
use crate::primitives::{
    push_bytes, CoinType, Destination, PublicKey, PublicKeyHash, Secp256k1PublicKey,
};
use crate::status::StatusWord;
use crate::text::{make_displayable_str, spec_displayable, spec_to_address, text_view, to_address};

verus! {

/// The compressed form of an uncompressed secp256k1 key `04 || x || y`:
/// `02` for an even `y`, `03` for an odd one, then `x`.
pub open spec fn spec_compressed_key(uncompressed: Seq<u8>) -> Seq<u8> {
    seq![if uncompressed[64] % 2 == 0 {
        2u8
    } else {
        3u8
    }] + uncompressed.subrange(1, 33)
}

/// Compresses an uncompressed public key; `InvalidUncompressedPublicKey`
/// unless it starts with `04`.
pub fn compress_public_key(public_key: &[u8; 65]) -> (r: Result<Secp256k1PublicKey, StatusWord>)
    ensures
        r is Ok <==> public_key@[0] == 4,
        r matches Ok(k) ==> k.0@ == spec_compressed_key(public_key@),
        r is Err ==> r == Err::<Secp256k1PublicKey, StatusWord>(
            StatusWord::InvalidUncompressedPublicKey,
        ),
{
    if public_key[0] != 0x04 {
        return Err(StatusWord::InvalidUncompressedPublicKey);
    }
    let prefix: u8 = if public_key[64] % 2 == 0 {
        0x02
    } else {
        0x03
    };
    let mut compressed = [0u8; 33];
    compressed.set(0, prefix);
    let mut i: usize = 1;
    while i < 33
        invariant
            1 <= i <= 33,
            public_key@.len() == 65,
            compressed@.len() == 33,
            compressed@[0] == prefix,
            forall|j: int| 1 <= j < i ==> compressed@[j] == public_key@[j],
        decreases 33 - i,
    {
        compressed.set(i, public_key[i]);
        i += 1;
    }
    proof {
        assert(compressed@ =~= spec_compressed_key(public_key@));
    }
    Ok(Secp256k1PublicKey(compressed))
}

/// The address of a public key, shown when the host asks for the key.
pub open spec fn spec_public_key_address(public_key: Seq<u8>, coin: CoinType) -> Result<
    Seq<char>,
    StatusWord,
> {
    if public_key[0] != 4 {
        Err(StatusWord::InvalidUncompressedPublicKey)
    } else {
        spec_to_address(
            Destination::PublicKey(
                PublicKey::Secp256k1Schnorr(
                    Secp256k1PublicKey(spec_array(spec_compressed_key(public_key))),
                ),
            ),
            coin,
        )
    }
}

/// The 33-byte array with the given bytes.
pub open spec fn spec_array(bytes: Seq<u8>) -> [u8; 33] {
    choose|a: [u8; 33]| a@ == bytes
}

/// The address of an uncompressed public key.
pub fn public_key_address(public_key: &[u8; 65], coin: CoinType) -> (r: Result<String, StatusWord>)
    ensures
        text_view(r) == spec_public_key_address(public_key@, coin),
{
    let pk = compress_public_key(public_key)?;
    proof {
        broadcast use vstd::array::group_array_axioms;

        assert(exists|a: [u8; 33]| a@ == spec_compressed_key(public_key@));
        let a = spec_array(spec_compressed_key(public_key@));
        assert(a@ == pk.0@);
        assert(a == pk.0);
    }
    let dest = Destination::PublicKey(PublicKey::Secp256k1Schnorr(pk));
    to_address(&dest, coin)
}

/// The destination a message signature is shown for: the public key, or the
/// hash of the public key.
pub open spec fn spec_message_destination(
    addr_type: AddrType,
    pk: Secp256k1PublicKey,
    pkh: PublicKeyHash,
) -> Destination {
    match addr_type {
        AddrType::PublicKey => Destination::PublicKey(PublicKey::Secp256k1Schnorr(pk)),
        AddrType::PublicKeyHash => Destination::PublicKeyHash(pkh),
    }
}

/// The destination a message signature is shown for.
pub fn message_destination(addr_type: AddrType, pk: Secp256k1PublicKey, pkh: PublicKeyHash) -> (r:
    Destination)
    ensures
        r == spec_message_destination(addr_type, pk, pkh),
        addr_type == AddrType::PublicKeyHash ==> r == Destination::PublicKeyHash(pkh),
        addr_type == AddrType::PublicKey ==> r == Destination::PublicKey(
            PublicKey::Secp256k1Schnorr(pk),
        ),
{
    match addr_type {
        AddrType::PublicKey => Destination::PublicKey(PublicKey::Secp256k1Schnorr(pk)),
        AddrType::PublicKeyHash => Destination::PublicKeyHash(pkh),
    }
}

/// The two fields of a message review: the signer's address and the message.
#[derive(Debug)]
pub struct MessageReview {
    pub address: String,
    pub message: String,
}

/// The fields of a message review.
pub fn message_review(message: &[u8], dest: &Destination, coin: CoinType) -> (r: Result<
    MessageReview,
    StatusWord,
>)
    ensures
        match r {
            Ok(m) => spec_to_address(*dest, coin) == Ok::<Seq<char>, StatusWord>(m.address@)
                && m.message@ == spec_displayable(message@),
            Err(e) => spec_to_address(*dest, coin) == Err::<Seq<char>, StatusWord>(e),
        },
{
    let address = to_address(dest, coin)?;
    let message = make_displayable_str(message);
    Ok(MessageReview { address, message })
}

/// The bytes that a message signature covers (hashed twice): the message
/// between a begin and an end line.
pub open spec fn spec_framed_message(message: Seq<u8>) -> Seq<u8> {
    "===MINTLAYER MESSAGE BEGIN===\n".spec_bytes() + message
        + "\n===MINTLAYER MESSAGE END===".spec_bytes()
}

/// The message between its begin and end lines.
pub fn framed_message(message: &[u8]) -> (r: Vec<u8>)
    ensures
        r@ == spec_framed_message(message@),
{
    let mut out: Vec<u8> = Vec::new();
    push_bytes(&mut out, "===MINTLAYER MESSAGE BEGIN===\n".as_bytes());
    push_bytes(&mut out, message);
    push_bytes(&mut out, "\n===MINTLAYER MESSAGE END===".as_bytes());
    out
}

/// Signing a message: the key's path and network, how to show the signer,
/// and whether the user has answered the review.
pub struct SignMessageContext {
    path: Bip32Path,
    coin: CoinType,
    addr_type: AddrType,
    review_finished: bool,
}

impl SignMessageContext {
    /// The path of the signing key.
    pub closed spec fn path_view(&self) -> Seq<u32> {
        self.path.0@
    }

    /// The network.
    pub closed spec fn coin_view(&self) -> CoinType {
        self.coin
    }

    /// How the signer is shown.
    pub closed spec fn addr_type_view(&self) -> AddrType {
        self.addr_type
    }

    /// Whether the user has answered the review.
    pub closed spec fn finished_view(&self) -> bool {
        self.review_finished
    }

    /// A context for a request, before the review.
    pub fn new(req: SignMessageStartReq) -> (r: SignMessageContext)
        ensures
            r.path_view() == req.path.0@,
            r.coin_view() == req.coin,
            r.addr_type_view() == req.addr_type,
            !r.finished_view(),
    {
        SignMessageContext {
            path: req.path,
            coin: req.coin,
            addr_type: req.addr_type,
            review_finished: false,
        }
    }

    /// Whether the user has answered the review.
    pub fn finished(&self) -> (r: bool)
        ensures
            r == self.finished_view(),
    {
        self.review_finished
    }

    /// The path of the signing key.
    pub fn path(&self) -> (r: &[u32])
        ensures
            r@ == self.path_view(),
    {
        self.path.as_ref()
    }

    /// The network.
    pub fn coin(&self) -> (r: CoinType)
        ensures
            r == self.coin_view(),
    {
        self.coin
    }

    /// How the signer is shown.
    pub fn addr_type(&self) -> (r: AddrType)
        ensures
            r == self.addr_type_view(),
    {
        self.addr_type
    }

    /// Records the user's answer to the review: either way the review is
    /// over; a refusal is `Deny`.
    pub fn record_review(&mut self, approved: bool) -> (r: Result<(), StatusWord>)
        ensures
            final(self).finished_view(),
            final(self).path_view() == old(self).path_view(),
            final(self).coin_view() == old(self).coin_view(),
            final(self).addr_type_view() == old(self).addr_type_view(),
            r is Ok <==> approved,
            r is Err ==> r == Err::<(), StatusWord>(StatusWord::Deny),
    {
        self.review_finished = true;
        if approved {
            Ok(())
        } else {
            Err(StatusWord::Deny)
        }
    }
}

/// Starts signing a message; `InvalidPath` unless the path is a BIP44 path
/// of the network.
pub fn setup_sign_message(req: SignMessageStartReq) -> (r: Result<SignMessageContext, StatusWord>)
    ensures
        r is Ok <==> spec_path_ok(req.path.0@, req.coin),
        r matches Ok(c) ==> c.path_view() == req.path.0@ && c.coin_view() == req.coin
            && c.addr_type_view() == req.addr_type && !c.finished_view(),
        r is Err ==> r == Err::<SignMessageContext, StatusWord>(StatusWord::InvalidPath),
{
    check_derivation_path(req.path.as_ref(), req.coin)?;
    Ok(SignMessageContext::new(req))
}

/// The signer is shown as the kind of address the host asked for: a key
/// hash request shows the address of the given hash, a public key request
/// the address of the key; the two never show the same destination.
pub proof fn lemma_message_destination_follows_address_type(
    pk: Secp256k1PublicKey,
    pkh: PublicKeyHash,
)
    ensures
        spec_message_destination(AddrType::PublicKeyHash, pk, pkh) matches Destination::PublicKeyHash(
            h,
        ) && h == pkh,
        spec_message_destination(AddrType::PublicKey, pk, pkh) matches Destination::PublicKey(
            PublicKey::Secp256k1Schnorr(k),
        ) && k == pk,
        spec_message_destination(AddrType::PublicKeyHash, pk, pkh) != spec_message_destination(
            AddrType::PublicKey,
            pk,
            pkh,
        ),
{
}

/// A compressed key starts with `02` for an even `y` and `03` for an odd
/// one, and then holds `x`, the 32 bytes after the uncompressed key's `04`.
pub proof fn lemma_compressed_key_parity(uncompressed: Seq<u8>)
    requires
        uncompressed.len() == 65,
    ensures
        spec_compressed_key(uncompressed).len() == 33,
        spec_compressed_key(uncompressed)[0] == 2 <==> uncompressed[64] % 2 == 0,
        spec_compressed_key(uncompressed)[0] == 3 <==> uncompressed[64] % 2 == 1,
        forall|i: int| 1 <= i < 33 ==> #[trigger] spec_compressed_key(uncompressed)[i]
            == uncompressed[i],
{
}

} // verus!
