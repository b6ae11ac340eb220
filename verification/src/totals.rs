//! Running totals of coins and tokens per asset, kept in ascending order of
//! the asset, as a sorted map would list them: coins first, then tokens in
//! the byte order of their ids.

use vstd::prelude::*;

use crate::primitives::{Amount, TokenId};
use crate::status::StatusWord;

verus! {

broadcast use vstd::array::group_array_axioms;

/// An asset: the network's coin or a token.
#[derive(Clone, Copy, Debug, PartialEq, Eq)]
pub enum CoinOrTokenId {
    Coin,
    TokenId(TokenId),
}

/// Lexicographic order of byte strings (for strings of the same length).
pub open spec fn bytes_lt(x: Seq<u8>, y: Seq<u8>) -> bool
    decreases x.len(),
{
    if x.len() == 0 || y.len() == 0 {
        false
    } else if x[0] < y[0] {
        true
    } else if x[0] == y[0] {
        bytes_lt(x.drop_first(), y.drop_first())
    } else {
        false
    }
}

/// The order of assets: the coin comes first, then tokens by their ids.
pub open spec fn key_lt(a: CoinOrTokenId, b: CoinOrTokenId) -> bool {
    match (a, b) {
        (CoinOrTokenId::Coin, CoinOrTokenId::TokenId(_)) => true,
        (CoinOrTokenId::TokenId(x), CoinOrTokenId::TokenId(y)) => bytes_lt(x.0@, y.0@),
        _ => false,
    }
}

/// No byte string precedes itself.
pub proof fn lemma_bytes_lt_irreflexive(x: Seq<u8>)
    ensures
        !bytes_lt(x, x),
    decreases x.len(),
{
    if x.len() > 0 {
        lemma_bytes_lt_irreflexive(x.drop_first());
    }
}

/// The order of byte strings is transitive.
pub proof fn lemma_bytes_lt_transitive(x: Seq<u8>, y: Seq<u8>, z: Seq<u8>)
    requires
        bytes_lt(x, y),
        bytes_lt(y, z),
    ensures
        bytes_lt(x, z),
    decreases x.len(),
{
    if x[0] == y[0] && y[0] == z[0] {
        lemma_bytes_lt_transitive(x.drop_first(), y.drop_first(), z.drop_first());
    }
}

/// Of two different byte strings of the same length, one precedes the other.
pub proof fn lemma_bytes_lt_total(x: Seq<u8>, y: Seq<u8>)
    requires
        x.len() == y.len(),
        !bytes_lt(x, y),
        !bytes_lt(y, x),
    ensures
        x == y,
    decreases x.len(),
{
    if x.len() == 0 {
        assert(x =~= y);
    } else {
        lemma_bytes_lt_total(x.drop_first(), y.drop_first());
        assert forall|i: int| 0 <= i < x.len() implies x[i] == y[i] by {
            if i > 0 {
                assert(x[i] == x.drop_first()[i - 1]);
                assert(y[i] == y.drop_first()[i - 1]);
            }
        }
        assert(x =~= y);
    }
}

/// No asset precedes itself.
pub proof fn lemma_key_lt_irreflexive(a: CoinOrTokenId)
    ensures
        !key_lt(a, a),
{
    if let CoinOrTokenId::TokenId(x) = a {
        lemma_bytes_lt_irreflexive(x.0@);
    }
}

/// The order of assets is transitive.
pub proof fn lemma_key_lt_transitive(a: CoinOrTokenId, b: CoinOrTokenId, c: CoinOrTokenId)
    requires
        key_lt(a, b),
        key_lt(b, c),
    ensures
        key_lt(a, c),
{
    if let (CoinOrTokenId::TokenId(x), CoinOrTokenId::TokenId(y), CoinOrTokenId::TokenId(z)) = (
        a,
        b,
        c,
    ) {
        lemma_bytes_lt_transitive(x.0@, y.0@, z.0@);
    }
}

/// Of two different assets, one precedes the other.
pub proof fn lemma_key_lt_total(a: CoinOrTokenId, b: CoinOrTokenId)
    requires
        !key_lt(a, b),
        !key_lt(b, a),
    ensures
        a == b,
{
    if let (CoinOrTokenId::TokenId(x), CoinOrTokenId::TokenId(y)) = (a, b) {
        lemma_bytes_lt_total(x.0@, y.0@);
        assert(x.0 == y.0);
    }
}

/// The result of comparing two assets.
#[derive(Clone, Copy, Debug, PartialEq, Eq, Structural)]
pub enum KeyOrder {
    Less,
    Equal,
    Greater,
}

/// Compares two byte arrays lexicographically.
fn compare_bytes(x: &[u8; 32], y: &[u8; 32]) -> (r: KeyOrder)
    ensures
        (r == KeyOrder::Less) == bytes_lt(x@, y@),
        (r == KeyOrder::Equal) == (x@ == y@),
        (r == KeyOrder::Greater) == bytes_lt(y@, x@),
{
    let mut i: usize = 0;
    proof {
        assert(x@.skip(0) =~= x@);
        assert(y@.skip(0) =~= y@);
    }
    while i < 32
        invariant
            i <= 32,
            x@.len() == 32,
            y@.len() == 32,
            x@.subrange(0, i as int) == y@.subrange(0, i as int),
            bytes_lt(x@, y@) == bytes_lt(x@.skip(i as int), y@.skip(i as int)),
            bytes_lt(y@, x@) == bytes_lt(y@.skip(i as int), x@.skip(i as int)),
        decreases 32 - i,
    {
        let a = x[i];
        let b = y[i];
        proof {
            assert(x@.skip(i as int)[0] == a);
            assert(y@.skip(i as int)[0] == b);
            assert(x@.skip(i as int).drop_first() =~= x@.skip(i + 1));
            assert(y@.skip(i as int).drop_first() =~= y@.skip(i + 1));
        }
        if a < b {
            proof {
                lemma_neq_at(x@, y@, i as int);
            }
            return KeyOrder::Less;
        } else if b < a {
            proof {
                lemma_neq_at(x@, y@, i as int);
            }
            return KeyOrder::Greater;
        }
        i += 1;
        proof {
            assert(x@.subrange(0, i as int) =~= x@.subrange(0, (i - 1) as int).push(a));
            assert(y@.subrange(0, i as int) =~= y@.subrange(0, (i - 1) as int).push(b));
        }
    }
    proof {
        assert(x@ =~= x@.subrange(0, 32));
        assert(y@ =~= y@.subrange(0, 32));
    }
    KeyOrder::Equal
}

/// Two sequences that differ at an index are different.
proof fn lemma_neq_at(x: Seq<u8>, y: Seq<u8>, i: int)
    requires
        0 <= i < x.len(),
        i < y.len(),
        x[i] != y[i],
    ensures
        x != y,
{
}

/// Compares two assets in their order.
pub fn compare_keys(a: &CoinOrTokenId, b: &CoinOrTokenId) -> (r: KeyOrder)
    ensures
        (r == KeyOrder::Less) == key_lt(*a, *b),
        (r == KeyOrder::Equal) == (*a == *b),
        (r == KeyOrder::Greater) == key_lt(*b, *a),
{
    match (a, b) {
        (CoinOrTokenId::Coin, CoinOrTokenId::Coin) => KeyOrder::Equal,
        (CoinOrTokenId::Coin, CoinOrTokenId::TokenId(_)) => KeyOrder::Less,
        (CoinOrTokenId::TokenId(_), CoinOrTokenId::Coin) => KeyOrder::Greater,
        (CoinOrTokenId::TokenId(x), CoinOrTokenId::TokenId(y)) => {
            let r = compare_bytes(&x.0, &y.0);
            proof {
                if x.0@ == y.0@ {
                    assert(x.0 == y.0);
                }
            }
            r
        },
    }
}

/// The entries are in strictly ascending order of their assets.
pub open spec fn sorted_keys(s: Seq<(CoinOrTokenId, Amount)>) -> bool {
    forall|i: int, j: int| 0 <= i < j < s.len() ==> key_lt(#[trigger] s[i].0, #[trigger] s[j].0)
}

/// Some entry is for the asset.
pub open spec fn has_key(s: Seq<(CoinOrTokenId, Amount)>, k: CoinOrTokenId) -> bool {
    exists|i: int| 0 <= i < s.len() && #[trigger] s[i].0 == k
}

/// The index of an entry for the asset (meaningful where there is one).
pub open spec fn key_index(s: Seq<(CoinOrTokenId, Amount)>, k: CoinOrTokenId) -> int {
    choose|i: int| 0 <= i < s.len() && #[trigger] s[i].0 == k
}

/// The total (in atoms) of each asset that has an entry.
pub open spec fn entries_map(s: Seq<(CoinOrTokenId, Amount)>) -> Map<CoinOrTokenId, u128> {
    Map::new(|k: CoinOrTokenId| has_key(s, k), |k: CoinOrTokenId| s[key_index(s, k)].1.atoms)
}

/// The total of an asset, zero where it has none.
pub open spec fn total_of(m: Map<CoinOrTokenId, u128>, k: CoinOrTokenId) -> int {
    if m.contains_key(k) {
        m[k] as int
    } else {
        0
    }
}

/// The totals after adding `amount` to the total of `k`, or `None` where the
/// new total does not fit in 128 bits.
pub open spec fn add_to(m: Map<CoinOrTokenId, u128>, k: CoinOrTokenId, amount: int) -> Option<
    Map<CoinOrTokenId, u128>,
> {
    if total_of(m, k) + amount > u128::MAX {
        None
    } else {
        Some(m.insert(k, (total_of(m, k) + amount) as u128))
    }
}

/// In sorted entries, the map holds each entry's total under its asset.
pub proof fn lemma_entries_map_at(s: Seq<(CoinOrTokenId, Amount)>, i: int)
    requires
        sorted_keys(s),
        0 <= i < s.len(),
    ensures
        entries_map(s).contains_key(s[i].0),
        entries_map(s)[s[i].0] == s[i].1.atoms,
{
    let k = s[i].0;
    assert(has_key(s, k));
    let j = key_index(s, k);
    if j < i {
        assert(key_lt(s[j].0, s[i].0));
        lemma_key_lt_irreflexive(k);
    } else if i < j {
        assert(key_lt(s[i].0, s[j].0));
        lemma_key_lt_irreflexive(k);
    }
    assert(j == i);
    assert(entries_map(s).dom().contains(k));
    assert(entries_map(s)[k] == s[j].1.atoms);
}

/// Entries in ascending order of their assets, at most one per asset.
pub struct Totals {
    entries: Vec<(CoinOrTokenId, Amount)>,
}

impl Totals {
    /// The entries, in their order.
    pub closed spec fn entries_view(&self) -> Seq<(CoinOrTokenId, Amount)> {
        self.entries@
    }

    /// The entries are in strictly ascending order of their assets.
    pub open spec fn wf(&self) -> bool {
        sorted_keys(self.entries_view())
    }

    /// The total of each asset.
    pub open spec fn map(&self) -> Map<CoinOrTokenId, u128> {
        entries_map(self.entries_view())
    }

    /// No totals.
    pub fn new() -> (t: Totals)
        ensures
            t.wf(),
            t.entries_view().len() == 0,
            t.map() == Map::<CoinOrTokenId, u128>::empty(),
    {
        let t = Totals { entries: Vec::new() };
        assert(t.map() =~= Map::<CoinOrTokenId, u128>::empty());
        t
    }

    /// The entries, in ascending order of their assets.
    pub fn entries(&self) -> (r: &[(CoinOrTokenId, Amount)])
        ensures
            r@ == self.entries_view(),
    {
        self.entries.as_slice()
    }

    /// Whether there are no totals.
    pub fn is_empty(&self) -> (r: bool)
        requires
            self.wf(),
        ensures
            r == (self.map() == Map::<CoinOrTokenId, u128>::empty()),
            r == (self.entries_view().len() == 0),
    {
        proof {
            if self.entries@.len() == 0 {
                assert(self.map() =~= Map::<CoinOrTokenId, u128>::empty());
            } else {
                lemma_entries_map_at(self.entries@, 0);
                assert(!Map::<CoinOrTokenId, u128>::empty().contains_key(self.entries@[0].0));
            }
        }
        self.entries.len() == 0
    }

    /// The total of an asset, if it has one.
    pub fn get(&self, key: &CoinOrTokenId) -> (r: Option<Amount>)
        requires
            self.wf(),
        ensures
            r == (if self.map().contains_key(*key) {
                Some(Amount { atoms: self.map()[*key] })
            } else {
                None::<Amount>
            }),
    {
        let n = self.entries.len();
        let mut i: usize = 0;
        while i < n
            invariant
                n == self.entries@.len(),
                i <= n,
                self.wf(),
                forall|j: int| 0 <= j < i ==> self.entries@[j].0 != *key,
            decreases n - i,
        {
            let e = self.entries[i];
            if compare_keys(&e.0, key) == KeyOrder::Equal {
                proof {
                    lemma_entries_map_at(self.entries@, i as int);
                }
                return Some(e.1);
            }
            i += 1;
        }
        None
    }

    /// Adds `amount` to the total of `key`; a total that would not fit in 128
    /// bits is `TxNumericOperationFail`, and then nothing changes.
    pub fn add(&mut self, key: CoinOrTokenId, amount: Amount) -> (r: Result<(), StatusWord>)
        requires
            old(self).wf(),
        ensures
            final(self).wf(),
            match add_to(old(self).map(), key, amount.atoms as int) {
                None => r == Err::<(), StatusWord>(StatusWord::TxNumericOperationFail)
                    && final(self).entries_view() == old(self).entries_view(),
                Some(m) => r == Ok::<(), StatusWord>(()) && final(self).map() == m,
            },
    {
        let ghost s = self.entries@;
        let n = self.entries.len();
        let mut i: usize = 0;
        while i < n
            invariant
                n == self.entries@.len(),
                i <= n,
                self.entries@ == s,
                old(self).entries@ == s,
                sorted_keys(s),
                forall|j: int| 0 <= j < i ==> key_lt(#[trigger] s[j].0, key),
            ensures
                i <= n,
                self.entries@ == s,
                forall|j: int| 0 <= j < i ==> key_lt(#[trigger] s[j].0, key),
                i < n ==> key_lt(key, s[i as int].0),
            decreases n - i,
        {
            let e = self.entries[i];
            match compare_keys(&e.0, &key) {
                KeyOrder::Less => {
                    i += 1;
                },
                KeyOrder::Equal => {
                    proof {
                        lemma_entries_map_at(s, i as int);
                        assert(old(self).map() == entries_map(s));
                        assert(e == s[i as int]);
                        assert(total_of(old(self).map(), key) == e.1.atoms);
                    }
                    match e.1.atoms.checked_add(amount.atoms) {
                        None => {
                            return Err(StatusWord::TxNumericOperationFail);
                        },
                        Some(v) => {
                            self.entries.set(i, (e.0, Amount { atoms: v }));
                            proof {
                                let t = self.entries@;
                                assert(t == s.update(i as int, (key, Amount { atoms: v })));
                                assert(sorted_keys(t)) by {
                                    assert forall|a: int, b: int| 0 <= a < b < t.len() implies key_lt(
                                        #[trigger] t[a].0,
                                        #[trigger] t[b].0,
                                    ) by {
                                        assert(s[a].0 == t[a].0);
                                        assert(s[b].0 == t[b].0);
                                    }
                                }
                                lemma_update_map(s, i as int, v);
                            }
                            return Ok(());
                        },
                    }
                },
                KeyOrder::Greater => {
                    break ;
                },
            }
        }
        // `key` has no entry: it goes before the first entry that follows it.
        proof {
            assert(forall|j: int| i <= j < n ==> key_lt(key, #[trigger] s[j].0)) by {
                assert forall|j: int| i <= j < n implies key_lt(key, #[trigger] s[j].0) by {
                    if i < n {
                        assert(key_lt(key, s[i as int].0));
                        if j > i {
                            lemma_key_lt_transitive(key, s[i as int].0, s[j].0);
                        }
                    }
                }
            }
        }
        self.entries.insert(i, (key, amount));
        proof {
            lemma_insert_map(s, i as int, key, amount);
        }
        Ok(())
    }
}

/// Updating the total of an entry updates the map.
proof fn lemma_update_map(s: Seq<(CoinOrTokenId, Amount)>, i: int, v: u128)
    requires
        sorted_keys(s),
        0 <= i < s.len(),
    ensures
        sorted_keys(s.update(i, (s[i].0, Amount { atoms: v }))),
        entries_map(s.update(i, (s[i].0, Amount { atoms: v }))) == entries_map(s).insert(s[i].0, v),
{
    let t = s.update(i, (s[i].0, Amount { atoms: v }));
    assert forall|a: int, b: int| 0 <= a < b < t.len() implies key_lt(
        #[trigger] t[a].0,
        #[trigger] t[b].0,
    ) by {
        assert(s[a].0 == t[a].0);
        assert(s[b].0 == t[b].0);
    }
    let m = entries_map(s).insert(s[i].0, v);
    assert forall|k: CoinOrTokenId| #[trigger] entries_map(t).contains_key(k) == m.contains_key(k) by {
        if has_key(t, k) {
            let j = key_index(t, k);
            assert(s[j].0 == k);
        }
        if has_key(s, k) {
            let j = key_index(s, k);
            assert(t[j].0 == k);
        }
        if k == s[i].0 {
            assert(t[i].0 == k);
        }
    }
    assert forall|k: CoinOrTokenId| #[trigger] entries_map(t).contains_key(k) implies entries_map(
        t,
    )[k] == m[k] by {
        let j = key_index(t, k);
        lemma_entries_map_at(t, j);
        if j != i {
            assert(s[j].0 == k);
            lemma_entries_map_at(s, j);
            if k == s[i].0 {
                lemma_entries_map_at(s, i);
                if j < i {
                    lemma_key_lt_irreflexive(k);
                } else {
                    lemma_key_lt_irreflexive(k);
                }
            }
        }
    }
    assert(entries_map(t) =~= m);
}

/// Inserting a new asset at its place in the order adds it to the map.
proof fn lemma_insert_map(
    s: Seq<(CoinOrTokenId, Amount)>,
    i: int,
    key: CoinOrTokenId,
    amount: Amount,
)
    requires
        sorted_keys(s),
        0 <= i <= s.len(),
        forall|j: int| 0 <= j < i ==> key_lt(#[trigger] s[j].0, key),
        forall|j: int| i <= j < s.len() ==> key_lt(key, #[trigger] s[j].0),
    ensures
        sorted_keys(s.insert(i, (key, amount))),
        !entries_map(s).contains_key(key),
        entries_map(s.insert(i, (key, amount))) == entries_map(s).insert(key, amount.atoms),
{
    let t = s.insert(i, (key, amount));
    assert forall|a: int, b: int| 0 <= a < b < t.len() implies key_lt(
        #[trigger] t[a].0,
        #[trigger] t[b].0,
    ) by {
        if b < i {
            assert(t[a] == s[a] && t[b] == s[b]);
        } else if b == i {
            assert(t[a] == s[a]);
        } else if a < i {
            assert(t[a] == s[a] && t[b] == s[b - 1]);
            lemma_key_lt_transitive(s[a].0, key, s[b - 1].0);
        } else if a == i {
            assert(t[b] == s[b - 1]);
        } else {
            assert(t[a] == s[a - 1] && t[b] == s[b - 1]);
        }
    }
    assert(!has_key(s, key)) by {
        if has_key(s, key) {
            let j = key_index(s, key);
            lemma_key_lt_irreflexive(key);
        }
    }
    let m = entries_map(s).insert(key, amount.atoms);
    assert forall|k: CoinOrTokenId| #[trigger] entries_map(t).contains_key(k) == m.contains_key(k) by {
        if has_key(t, k) {
            let j = key_index(t, k);
            if j < i {
                assert(s[j].0 == k);
            } else if j > i {
                assert(s[j - 1].0 == k);
            }
        }
        if has_key(s, k) {
            let j = key_index(s, k);
            if j < i {
                assert(t[j].0 == k);
            } else {
                assert(t[j + 1].0 == k);
            }
        }
        if k == key {
            assert(t[i].0 == k);
        }
    }
    assert forall|k: CoinOrTokenId| #[trigger] entries_map(t).contains_key(k) implies entries_map(
        t,
    )[k] == m[k] by {
        let j = key_index(t, k);
        lemma_entries_map_at(t, j);
        if j < i {
            assert(t[j] == s[j]);
            lemma_entries_map_at(s, j);
            lemma_key_lt_irreflexive(key);
        } else if j > i {
            assert(t[j] == s[j - 1]);
            lemma_entries_map_at(s, j - 1);
            lemma_key_lt_irreflexive(key);
        }
    }
    assert(entries_map(t) =~= m);
}

/// Sorted entries list every asset of the map once, in ascending order.
pub proof fn lemma_sorted_entries_unique(s: Seq<(CoinOrTokenId, Amount)>, i: int, j: int)
    requires
        sorted_keys(s),
        0 <= i < s.len(),
        0 <= j < s.len(),
        s[i].0 == s[j].0,
    ensures
        i == j,
{
    if i < j || j < i {
        lemma_key_lt_irreflexive(s[i].0);
    }
}

} // verus!
