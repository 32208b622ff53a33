//! A map keyed by 32-byte strings.
//!
//! The 32 bytes are packed into two `u128` halves, read as big-endian numbers, and an ordered
//! map holds the entries under the pair of halves.
use std::collections::BTreeMap;
use vstd::prelude::*;

verus! {

broadcast use {vstd::std_specs::btree::group_btree_axioms, vstd::laws_cmp::group_laws_cmp};

/// The number that `s` denotes, read as big-endian base-256 digits.
pub open spec fn be_value(s: Seq<u8>) -> nat
    decreases s.len(),
{
    if s.len() == 0 {
        0
    } else {
        be_value(s.drop_last()) * 256 + s.last() as nat
    }
}

/// 256 to the power `n`.
pub open spec fn pow256(n: nat) -> nat
    decreases n,
{
    if n == 0 {
        1
    } else {
        256 * pow256((n - 1) as nat)
    }
}

/// The two halves under which the 32-byte string `k` is filed.
pub open spec fn key_halves(k: Seq<u8>) -> (u128, u128) {
    (be_value(k.take(16)) as u128, be_value(k.skip(16)) as u128)
}

proof fn lemma_be_value_bound(s: Seq<u8>)
    ensures
        be_value(s) < pow256(s.len()),
    decreases s.len(),
{
    if s.len() > 0 {
        lemma_be_value_bound(s.drop_last());
    }
}

proof fn lemma_be_value_injective(s: Seq<u8>, t: Seq<u8>)
    requires
        s.len() == t.len(),
        be_value(s) == be_value(t),
    ensures
        s == t,
    decreases s.len(),
{
    if s.len() > 0 {
        lemma_be_value_injective(s.drop_last(), t.drop_last());
        assert(s == s.drop_last().push(s.last()));
        assert(t == t.drop_last().push(t.last()));
    } else {
        assert(s =~= t);
    }
}

proof fn lemma_be_value_fits(s: Seq<u8>)
    requires
        s.len() <= 16,
    ensures
        be_value(s) <= u128::MAX,
{
    lemma_be_value_bound(s);
    assert(pow256(16) == 0x1_0000_0000_0000_0000_0000_0000_0000_0000) by {
        reveal_with_fuel(pow256, 17);
    }
    lemma_pow256_monotonic(s.len(), 16);
}

proof fn lemma_pow256_monotonic(m: nat, n: nat)
    requires
        m <= n,
    ensures
        pow256(m) <= pow256(n),
    decreases n,
{
    if m < n {
        lemma_pow256_monotonic(m, (n - 1) as nat);
    }
}

/// Two 32-byte strings that are filed under the same halves are the same string.
pub proof fn lemma_key_halves_injective(a: Seq<u8>, b: Seq<u8>)
    requires
        a.len() == 32,
        b.len() == 32,
        key_halves(a) == key_halves(b),
    ensures
        a == b,
{
    lemma_be_value_fits(a.take(16));
    lemma_be_value_fits(b.take(16));
    lemma_be_value_fits(a.skip(16));
    lemma_be_value_fits(b.skip(16));
    lemma_be_value_injective(a.take(16), b.take(16));
    lemma_be_value_injective(a.skip(16), b.skip(16));
    assert(a == a.take(16) + a.skip(16));
    assert(b == b.take(16) + b.skip(16));
}

/// The lowest `len` base-256 digits of `n`, the most significant one first.
spec fn digits(n: nat, len: nat) -> Seq<u8>
    decreases len,
{
    if len == 0 {
        Seq::empty()
    } else {
        digits(n / 256, (len - 1) as nat).push((n % 256) as u8)
    }
}

proof fn lemma_digits(n: nat, len: nat)
    requires
        n < pow256(len),
    ensures
        digits(n, len).len() == len,
        be_value(digits(n, len)) == n,
    decreases len,
{
    if len > 0 {
        lemma_digits(n / 256, (len - 1) as nat);
        assert(digits(n, len).drop_last() =~= digits(n / 256, (len - 1) as nat));
    }
}

/// The 32-byte string that is filed under the pair of halves.
spec fn key_of(pair: (u128, u128)) -> Seq<u8> {
    digits(pair.0 as nat, 16) + digits(pair.1 as nat, 16)
}

proof fn lemma_key_of(pair: (u128, u128))
    ensures
        key_of(pair).len() == 32,
        key_halves(key_of(pair)) == pair,
{
    assert(pow256(16) == 0x1_0000_0000_0000_0000_0000_0000_0000_0000) by {
        reveal_with_fuel(pow256, 17);
    }
    lemma_digits(pair.0 as nat, 16);
    lemma_digits(pair.1 as nat, 16);
    assert(key_of(pair).take(16) =~= digits(pair.0 as nat, 16));
    assert(key_of(pair).skip(16) =~= digits(pair.1 as nat, 16));
}

fn half(bytes: &[u8; 32], start: usize) -> (value: u128)
    requires
        start <= 16,
    ensures
        value == be_value(bytes@.subrange(start as int, start + 16)),
{
    let mut value: u128 = 0;
    let mut i: usize = 0;
    let ghost part = bytes@.subrange(start as int, start + 16);
    while i < 16
        invariant
            i <= 16,
            start <= 16,
            part == bytes@.subrange(start as int, start + 16),
            value == be_value(part.take(i as int)),
        decreases 16 - i,
    {
        proof {
            assert(part.take(i + 1).drop_last() =~= part.take(i as int));
            lemma_be_value_fits(part.take(i + 1));
        }
        value = value * 256 + bytes[start + i] as u128;
        i = i + 1;
    }
    assert(part.take(16) =~= part);
    value
}

fn halves(bytes: &[u8; 32]) -> (pair: (u128, u128))
    ensures
        pair == key_halves(bytes@),
{
    assert(bytes@.subrange(0, 16) =~= bytes@.take(16));
    assert(bytes@.subrange(16, 32) =~= bytes@.skip(16));
    (half(bytes, 0), half(bytes, 16))
}

/// A map from 32-byte strings to values.
pub struct ByteMap<V> {
    entries: BTreeMap<(u128, u128), V>,
}

impl<V: View> View for ByteMap<V> {
    type V = Map<Seq<u8>, V::V>;

    closed spec fn view(&self) -> Map<Seq<u8>, V::V> {
        Map::new(
            |k: Seq<u8>| k.len() == 32 && self.entries@.contains_key(key_halves(k)),
            |k: Seq<u8>| self.entries@[key_halves(k)]@,
        )
    }
}

impl<V: View> ByteMap<V> {
    /// An empty map.
    pub fn new() -> (map: Self)
        ensures
            map@ == Map::<Seq<u8>, V::V>::empty(),
    {
        let map = ByteMap { entries: BTreeMap::new() };
        assert(map@ =~= Map::<Seq<u8>, V::V>::empty());
        map
    }

    /// How many entries there are.
    pub fn len(&self) -> (count: usize)
        ensures
            count == self@.len(),
    {
        proof {
            let pairs = self.entries@.dom();
            let file = |pair: (u128, u128)| key_of(pair);
            assert forall|pair: (u128, u128)| key_halves(#[trigger] key_of(pair)) == pair by {
                lemma_key_of(pair);
            }
            assert forall|key: Seq<u8>| pairs.map(file).contains(key) <==> self@.dom().contains(
                key,
            ) by {
                if pairs.map(file).contains(key) {
                    let pair = choose|pair: (u128, u128)| pairs.contains(pair) && key == file(pair);
                    lemma_key_of(pair);
                }
                if self@.dom().contains(key) {
                    let pair = key_halves(key);
                    lemma_key_of(pair);
                    lemma_key_halves_injective(key, key_of(pair));
                    assert(pairs.contains(pair) && key == file(pair));
                }
            }
            assert(pairs.map(file) =~= self@.dom());
            vstd::set_lib::lemma_map_size(pairs, self@.dom(), file);
        }
        self.entries.len()
    }

    /// Puts `value` under `key`, in place of what was there.
    pub fn insert(&mut self, key: &[u8; 32], value: V)
        ensures
            final(self)@ == old(self)@.insert(key@, value@),
    {
        let pair = halves(key);
        self.entries.insert(pair, value);
        proof {
            assert forall|k: Seq<u8>| k.len() == 32 && key_halves(k) == key_halves(key@) implies k
                == key@ by {
                lemma_key_halves_injective(k, key@);
            }
            assert(self@ =~= old(self)@.insert(key@, value@));
        }
    }

    /// Takes out the value under `key`, if there is one.
    pub fn remove(&mut self, key: &[u8; 32]) -> (taken: Option<V>)
        ensures
            final(self)@ == old(self)@.remove(key@),
            match taken {
                Some(value) => old(self)@.contains_key(key@) && old(self)@[key@] == value@,
                None => !old(self)@.contains_key(key@),
            },
    {
        let pair = halves(key);
        let taken = self.entries.remove(&pair);
        proof {
            assert forall|k: Seq<u8>| k.len() == 32 && key_halves(k) == key_halves(key@) implies k
                == key@ by {
                lemma_key_halves_injective(k, key@);
            }
            assert(self@ =~= old(self)@.remove(key@));
        }
        taken
    }

    /// The value under `key`, if there is one.
    pub fn get(&self, key: &[u8; 32]) -> (found: Option<&V>)
        ensures
            match found {
                Some(value) => self@.contains_key(key@) && self@[key@] == value@,
                None => !self@.contains_key(key@),
            },
    {
        let pair = halves(key);
        self.entries.get(&pair)
    }
}

} // verus!
