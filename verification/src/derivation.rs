//! BIP32 derivation paths that the application accepts: BIP44 paths of the
//! network's coin type, and for signing transactions exactly
//! `[44', coin', account, purpose, index]`.

use vstd::prelude::*;

use crate::primitives::{spec_coin_path, CoinType};
use crate::status::StatusWord;

verus! {

/// The first index of every BIP44 path: 44, hardened.
pub const DERIV_PATH_BIP44_ITEM: u32 = 0x8000_002C;

/// The shortest path accepted: `[44', coin', account]`.
pub const DERIV_PATH_MIN_LEN: usize = 3;

/// The length of a path for signing transaction inputs.
pub const DERIV_PATH_LEN_FOR_TX_SIGNING: usize = 5;

/// A path is a BIP44 path of the network: at least three indices, the first
/// 44' and the second the network's coin type.
pub open spec fn spec_path_ok(path: Seq<u32>, coin: CoinType) -> bool {
    &&& path.len() >= DERIV_PATH_MIN_LEN
    &&& path[0] == DERIV_PATH_BIP44_ITEM
    &&& path[1] == spec_coin_path(coin)
}

/// Checks that a path is a BIP44 path of the network; otherwise `InvalidPath`.
pub fn check_derivation_path(path: &[u32], coin_type: CoinType) -> (r: Result<(), StatusWord>)
    ensures
        r is Ok <==> spec_path_ok(path@, coin_type),
        r is Err ==> r == Err::<(), StatusWord>(StatusWord::InvalidPath),
{
    if path.len() < DERIV_PATH_MIN_LEN {
        return Err(StatusWord::InvalidPath);
    }
    if path[0] != DERIV_PATH_BIP44_ITEM {
        return Err(StatusWord::InvalidPath);
    }
    if path[1] != coin_type.bip44_coin_type() {
        return Err(StatusWord::InvalidPath);
    }
    Ok(())
}

/// The part of a transaction signing path that varies: account, purpose and
/// index.
#[derive(Clone, Copy, Debug, PartialEq, Eq)]
pub struct CompressedDerivationPathForTxSigning {
    pub account_index: u32,
    pub addr_purpose: u32,
    pub addr_index: u32,
}

/// The full path of a compressed path on a network.
pub open spec fn spec_full_path(c: CompressedDerivationPathForTxSigning, coin: CoinType) -> Seq<
    u32,
> {
    seq![DERIV_PATH_BIP44_ITEM, spec_coin_path(coin), c.account_index, c.addr_purpose, c.addr_index]
}

/// Checks a path for signing a transaction input: a BIP44 path of the network
/// of exactly five indices; otherwise `InvalidPath`.
pub fn check_derivation_path_for_tx_signing(path: &[u32], coin_type: CoinType) -> (r: Result<
    CompressedDerivationPathForTxSigning,
    StatusWord,
>)
    ensures
        r is Ok <==> spec_path_ok(path@, coin_type) && path@.len() == DERIV_PATH_LEN_FOR_TX_SIGNING,
        r matches Ok(c) ==> spec_full_path(c, coin_type) == path@,
        r is Err ==> r == Err::<CompressedDerivationPathForTxSigning, StatusWord>(
            StatusWord::InvalidPath,
        ),
{
    check_derivation_path(path, coin_type)?;
    if path.len() != DERIV_PATH_LEN_FOR_TX_SIGNING {
        return Err(StatusWord::InvalidPath);
    }
    let c = CompressedDerivationPathForTxSigning {
        account_index: path[2],
        addr_purpose: path[3],
        addr_index: path[4],
    };
    assert(spec_full_path(c, coin_type) =~= path@);
    Ok(c)
}

impl CompressedDerivationPathForTxSigning {
    /// The full path on a network.
    pub fn to_full_path(&self, coin_type: CoinType) -> (r: [u32; 5])
        ensures
            r@ == spec_full_path(*self, coin_type),
    {
        let r = [
            DERIV_PATH_BIP44_ITEM,
            coin_type.bip44_coin_type(),
            self.account_index,
            self.addr_purpose,
            self.addr_index,
        ];
        assert(r@ =~= spec_full_path(*self, coin_type));
        r
    }
}

/// Compressing a signing path and expanding it again gives the same path, and
/// every expanded path is accepted for signing and compresses back.
pub proof fn lemma_compressed_path_roundtrip(
    c: CompressedDerivationPathForTxSigning,
    coin: CoinType,
)
    ensures
        spec_path_ok(spec_full_path(c, coin), coin),
        spec_full_path(c, coin).len() == DERIV_PATH_LEN_FOR_TX_SIGNING,
        spec_full_path(c, coin)[2] == c.account_index,
        spec_full_path(c, coin)[3] == c.addr_purpose,
        spec_full_path(c, coin)[4] == c.addr_index,
{
}

/// The first `DEST_SIZE` elements of an array.
pub fn cut_array<T: Copy + Default, const ORIG_SIZE: usize, const DEST_SIZE: usize>(
    orig: &[T; ORIG_SIZE],
) -> (r: [T; DEST_SIZE])
    requires
        DEST_SIZE <= ORIG_SIZE,
    ensures
        r@ == orig@.subrange(0, DEST_SIZE as int),
{
    let mut result: [T; DEST_SIZE] = vstd::array::array_fill_for_copy_types(T::default());
    let mut i: usize = 0;
    while i < DEST_SIZE
        invariant
            i <= DEST_SIZE,
            DEST_SIZE <= ORIG_SIZE,
            result@.len() == DEST_SIZE,
            orig@.len() == ORIG_SIZE,
            forall|j: int| 0 <= j < i ==> result@[j] == orig@[j],
        decreases DEST_SIZE - i,
    {
        result.set(i, orig[i]);
        i += 1;
    }
    assert(result@ =~= orig@.subrange(0, DEST_SIZE as int));
    result
}

} // verus!
