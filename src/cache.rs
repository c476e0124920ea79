//! The two cache tiers: a memo owned by one resolution, and the durable
//! last-known-good record, which this module frames as bytes.

use vstd::prelude::*;
use crate::api::{ApiConfig, BalanceData};
use crate::record::{lemma_record_key_isolation, parse_record, record_bytes};
use crate::codec::{bytes_match, le_bytes, lemma_le_bytes_len, lemma_le_round_trip, lemma_pow256_16, push_all, push_le};

verus! {

/// The key that scopes a balance: the length of the address in eight bytes,
/// the address, then the credential, all as UTF-8. The length prefix makes the
/// key determine both parts.
pub open spec fn key_of(address: Seq<u8>, credential: Seq<u8>) -> Seq<u8> {
    le_bytes(address.len(), 8) + address + credential
}

/// The key of an account identity.
pub open spec fn identity_key(address: Seq<char>, credential: Seq<char>) -> Seq<u8> {
    key_of(vstd::utf8::encode_utf8(address), vstd::utf8::encode_utf8(credential))
}

/// The UTF-8 bytes of a text.
fn utf8_bytes(s: &String) -> (r: Vec<u8>)
    ensures
        r@ == vstd::utf8::encode_utf8(s@),
{
    vstd::slice::slice_to_vec(s.as_str().as_bytes())
}

/// Derives the cache key of the account that `config` names.
pub fn cache_key(config: &ApiConfig) -> (r: Vec<u8>)
    ensures
        r@ == identity_key(config.api_base_url@, config.api_key@),
{
    let address = utf8_bytes(&config.api_base_url);
    let credential = utf8_bytes(&config.api_key);
    let mut key: Vec<u8> = Vec::new();
    push_le(&mut key, address.len() as u128, 8);
    push_all(&mut key, &address);
    push_all(&mut key, &credential);
    assert(key@ =~= identity_key(config.api_base_url@, config.api_key@));
    key
}

/// Distinct identities never share a key: the key gives back the address
/// and the credential.
pub proof fn lemma_key_isolation(a1: Seq<char>, c1: Seq<char>, a2: Seq<char>, c2: Seq<char>)
    requires
        vstd::utf8::encode_utf8(a1).len() <= u64::MAX,
        vstd::utf8::encode_utf8(a2).len() <= u64::MAX,
        a1 != a2 || c1 != c2,
    ensures
        identity_key(a1, c1) != identity_key(a2, c2),
{
    let b1 = vstd::utf8::encode_utf8(a1);
    let d1 = vstd::utf8::encode_utf8(c1);
    let b2 = vstd::utf8::encode_utf8(a2);
    let d2 = vstd::utf8::encode_utf8(c2);
    vstd::utf8::encode_utf8_decode_utf8(a1);
    vstd::utf8::encode_utf8_decode_utf8(c1);
    vstd::utf8::encode_utf8_decode_utf8(a2);
    vstd::utf8::encode_utf8_decode_utf8(c2);
    lemma_pow256_16();
    lemma_le_round_trip(b1.len(), 8);
    lemma_le_round_trip(b2.len(), 8);
    let k1 = key_of(b1, d1);
    let k2 = key_of(b2, d2);
    if k1 == k2 {
        assert(k1.subrange(0, 8) =~= le_bytes(b1.len(), 8));
        assert(k2.subrange(0, 8) =~= le_bytes(b2.len(), 8));
        assert(b1.len() == b2.len());
        assert(k1.subrange(8, 8 + b1.len() as int) =~= b1);
        assert(k2.subrange(8, 8 + b2.len() as int) =~= b2);
        assert(k1.subrange(8 + b1.len() as int, k1.len() as int) =~= d1);
        assert(k2.subrange(8 + b2.len() as int, k2.len() as int) =~= d2);
    }
}

/// The map that a list of entries stands for: a later entry of a key
/// shadows an earlier one.
pub open spec fn memo_map(s: Seq<(Seq<u8>, BalanceData)>) -> Map<Seq<u8>, BalanceData>
    decreases s.len(),
{
    if s.len() == 0 {
        Map::empty()
    } else {
        memo_map(s.drop_last()).insert(s.last().0, s.last().1)
    }
}

proof fn lemma_memo_found(s: Seq<(Seq<u8>, BalanceData)>, i: int, k: Seq<u8>)
    requires
        0 <= i < s.len(),
        s[i].0 == k,
        forall|j: int| i < j < s.len() ==> s[j].0 != k,
    ensures
        memo_map(s).contains_key(k),
        memo_map(s)[k] == s[i].1,
    decreases s.len(),
{
    if i < s.len() - 1 {
        lemma_memo_found(s.drop_last(), i, k);
    }
}

proof fn lemma_memo_absent(s: Seq<(Seq<u8>, BalanceData)>, k: Seq<u8>)
    requires
        forall|j: int| 0 <= j < s.len() ==> s[j].0 != k,
    ensures
        !memo_map(s).contains_key(k),
    decreases s.len(),
{
    if s.len() > 0 {
        lemma_memo_absent(s.drop_last(), k);
    }
}

/// Balances resolved earlier in this process, by cache key. It lives as long
/// as its owner; nothing in it outlives the process.
pub struct MemoCache {
    entries: Vec<(Vec<u8>, BalanceData)>,
}

impl MemoCache {
    pub closed spec fn entries_view(&self) -> Seq<(Seq<u8>, BalanceData)> {
        self.entries@.map_values(|e: (Vec<u8>, BalanceData)| (e.0@, e.1))
    }

    /// The balances held, by key.
    pub closed spec fn view(&self) -> Map<Seq<u8>, BalanceData> {
        memo_map(self.entries_view())
    }

    /// An empty memo.
    pub fn new() -> (r: MemoCache)
        ensures
            r.view() == Map::<Seq<u8>, BalanceData>::empty(),
    {
        let r = MemoCache { entries: Vec::new() };
        assert(r.entries_view().len() == 0);
        r
    }

    /// The balance set under `key` in this memo, if any.
    pub fn get_memo(&self, key: &Vec<u8>) -> (r: Option<BalanceData>)
        ensures
            r == (if self.view().contains_key(key@) {
                Some(self.view()[key@])
            } else {
                None
            }),
    {
        let mut i: usize = self.entries.len();
        while i > 0
            invariant
                i <= self.entries@.len(),
                self.entries_view().len() == self.entries@.len(),
                forall|j: int| i <= j < self.entries@.len() ==> self.entries_view()[j].0 != key@,
            decreases i,
        {
            i = i - 1;
            let entry = &self.entries[i];
            if entry.0.len() == key.len() && bytes_match(&entry.0, 0, key) {
                proof {
                    assert(entry.0@.subrange(0, key@.len() as int) =~= entry.0@);
                    lemma_memo_found(self.entries_view(), i as int, key@);
                }
                return Some(entry.1);
            }
            proof {
                if entry.0.len() == key.len() {
                    assert(entry.0@.subrange(0, key@.len() as int) =~= entry.0@);
                }
            }
        }
        proof {
            lemma_memo_absent(self.entries_view(), key@);
        }
        None
    }

    /// Sets the balance of `key`, replacing any earlier one.
    pub fn set_memo(&mut self, key: &Vec<u8>, data: &BalanceData)
        ensures
            final(self).view() == old(self).view().insert(key@, *data),
    {
        self.entries.push((key.clone(), *data));
        proof {
            assert(self.entries_view().drop_last() =~= old(self).entries_view());
        }
    }
}

/// Two distinct account identities never see each other's values: setting
/// the memo of one leaves what the memo holds for the other as it was, and
/// the durable record of one never reads as a value of the other.
pub proof fn lemma_identity_isolation(
    address: Seq<char>,
    credential: Seq<char>,
    other_address: Seq<char>,
    other_credential: Seq<char>,
    memo: Map<Seq<u8>, BalanceData>,
    data: BalanceData,
    time: u64,
    rest: Seq<u8>,
)
    requires
        address != other_address || credential != other_credential,
        identity_key(address, credential).len() <= u64::MAX,
        identity_key(other_address, other_credential).len() <= u64::MAX,
    ensures
        ({
            let mine = identity_key(address, credential);
            let theirs = identity_key(other_address, other_credential);
            &&& memo.insert(theirs, data).contains_key(mine) == memo.contains_key(mine)
            &&& memo.insert(theirs, data).contains_key(mine) ==> memo.insert(theirs, data)[mine] == memo[mine]
            &&& parse_record(record_bytes(theirs, data, time) + rest, mine) is None
        }),
{
    let mine = identity_key(address, credential);
    let theirs = identity_key(other_address, other_credential);
    lemma_le_bytes_len(vstd::utf8::encode_utf8(address).len(), 8);
    lemma_le_bytes_len(vstd::utf8::encode_utf8(other_address).len(), 8);
    lemma_key_isolation(address, credential, other_address, other_credential);
    lemma_record_key_isolation(theirs, mine, data, time, rest);
}

} // verus!
