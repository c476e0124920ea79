//! Byte layout of the durable record: one record per cache key, holding the
//! key, the capture time and the balance.
//!
//! Layout: four magic bytes; the key's length in eight bytes; the key; the
//! capture time in eight bytes; balance, used and total, each a sign byte
//! followed by its magnitude in sixteen bytes; a byte for the unlimited flag.
//! Integers are little-endian. Bytes after the record are ignored, so that a
//! later layout may append fields.

use vstd::prelude::*;
use crate::api::BalanceData;
use crate::codec::{
    bytes_match, le_bytes, le_value, lemma_le_bytes_len, lemma_le_round_trip, lemma_le_value_bound,
    lemma_pow256_16, push_all, push_le, read_le,
};

verus! {

/// The bytes that open every record.
pub open spec fn record_magic() -> Seq<u8> {
    seq![0x45u8, 0x46u8, 0x42u8, 0x43u8]
}

/// Length of the record of a key of `key_len` bytes.
pub open spec fn record_len(key_len: nat) -> nat {
    key_len + 72
}

pub open spec fn abs(v: int) -> nat {
    (if v < 0 { -v } else { v }) as nat
}

/// A signed amount: the sign byte (1 when negative), then the magnitude.
pub open spec fn amount_bytes(v: int) -> Seq<u8> {
    seq![if v < 0 { 1u8 } else { 0u8 }] + le_bytes(abs(v), 16)
}

/// The amount that seventeen bytes stand for; a negative zero or a value
/// outside the range of `i128` stands for none.
pub open spec fn parse_amount(s: Seq<u8>) -> Option<i128> {
    let m = le_value(s.drop_first());
    if s[0] == 0 && m <= i128::MAX {
        Some(m as i128)
    } else if s[0] == 1 && 1 <= m <= 0x8000_0000_0000_0000_0000_0000_0000_0000 {
        Some((-m) as i128)
    } else {
        None
    }
}

pub open spec fn flag_byte(b: bool) -> u8 {
    if b { 1 } else { 0 }
}

/// The record that stores `data`, captured at `time`, under `key`.
pub open spec fn record_bytes(key: Seq<u8>, data: BalanceData, time: u64) -> Seq<u8> {
    record_magic() + le_bytes(key.len(), 8) + key + le_bytes(time as nat, 8)
        + amount_bytes(data.balance as int) + amount_bytes(data.used as int)
        + amount_bytes(data.total as int) + seq![flag_byte(data.is_unlimited)]
}

/// What a reader of `s` finds under `key`: the balance and its capture time,
/// or none when `s` is too short, is not a record, belongs to another key or
/// holds an invalid field.
pub open spec fn parse_record(s: Seq<u8>, key: Seq<u8>) -> Option<(BalanceData, u64)> {
    let o = 12 + key.len() as int;
    if s.len() < record_len(key.len()) {
        None
    } else if s.subrange(0, 4) != record_magic() || le_value(s.subrange(4, 12)) != key.len()
        || s.subrange(12, o) != key {
        None
    } else {
        let balance = parse_amount(s.subrange(o + 8, o + 25));
        let used = parse_amount(s.subrange(o + 25, o + 42));
        let total = parse_amount(s.subrange(o + 42, o + 59));
        let flag = s[o + 59];
        if balance is Some && used is Some && total is Some && (flag == 0 || flag == 1) {
            Some((
                BalanceData {
                    balance: balance->0,
                    used: used->0,
                    total: total->0,
                    is_unlimited: flag == 1,
                },
                le_value(s.subrange(o, o + 8)) as u64,
            ))
        } else {
            None
        }
    }
}

proof fn lemma_amount_round_trip(v: i128)
    ensures
        amount_bytes(v as int).len() == 17,
        parse_amount(amount_bytes(v as int)) == Some(v),
{
    lemma_pow256_16();
    lemma_le_round_trip(abs(v as int), 16);
    assert(amount_bytes(v as int).drop_first() =~= le_bytes(abs(v as int), 16));
}

fn push_amount(out: &mut Vec<u8>, v: i128)
    ensures
        final(out)@ == old(out)@ + amount_bytes(v as int),
{
    let mag: u128;
    if v < 0 {
        out.push(1);
        mag = ((-(v + 1)) as u128) + 1;
    } else {
        out.push(0);
        mag = v as u128;
    }
    push_le(out, mag, 16);
    assert(final(out)@ =~= old(out)@ + amount_bytes(v as int));
}

fn read_amount(s: &Vec<u8>, pos: usize) -> (r: Option<i128>)
    requires
        pos + 17 <= s@.len(),
    ensures
        r == parse_amount(s@.subrange(pos as int, pos + 17)),
{
    let len = s.len();
    assert(pos + 17 <= len);
    let sign = s[pos];
    let m = read_le(s, pos + 1, 16);
    proof {
        assert(s@.subrange(pos as int, pos + 17).drop_first() =~= s@.subrange(pos + 1, pos + 17));
    }
    if sign == 0 && m <= 0x7fff_ffff_ffff_ffff_ffff_ffff_ffff_ffff {
        Some(m as i128)
    } else if sign == 1 && 1 <= m && m <= 0x8000_0000_0000_0000_0000_0000_0000_0000 {
        Some(-((m - 1) as i128) - 1)
    } else {
        None
    }
}

/// Frames `data`, captured at `time`, as the record of `key`.
pub fn encode_record(key: &Vec<u8>, data: &BalanceData, time: u64) -> (r: Vec<u8>)
    ensures
        r@ == record_bytes(key@, *data, time),
{
    let mut out: Vec<u8> = Vec::new();
    out.push(0x45);
    out.push(0x46);
    out.push(0x42);
    out.push(0x43);
    push_le(&mut out, key.len() as u128, 8);
    push_all(&mut out, key);
    push_le(&mut out, time as u128, 8);
    push_amount(&mut out, data.balance);
    push_amount(&mut out, data.used);
    push_amount(&mut out, data.total);
    out.push(if data.is_unlimited { 1 } else { 0 });
    assert(out@ =~= record_bytes(key@, *data, time));
    out
}

/// Reads the record of `key` from `bytes`; anything that is not a whole,
/// valid record of this key reads as none.
pub fn decode_record(bytes: &Vec<u8>, key: &Vec<u8>) -> (r: Option<(BalanceData, u64)>)
    ensures
        r == parse_record(bytes@, key@),
{
    let len = bytes.len();
    let klen = key.len();
    if len < 72 || len - 72 < klen {
        return None;
    }
    if bytes[0] != 0x45 || bytes[1] != 0x46 || bytes[2] != 0x42 || bytes[3] != 0x43 {
        assert(bytes@.subrange(0, 4) != record_magic()) by {
            let m = bytes@.subrange(0, 4);
            assert(m[0] == bytes@[0] && m[1] == bytes@[1] && m[2] == bytes@[2] && m[3] == bytes@[3]);
        }
        return None;
    }
    assert(bytes@.subrange(0, 4) =~= record_magic());
    if read_le(bytes, 4, 8) != klen as u128 {
        return None;
    }
    if !bytes_match(bytes, 12, key) {
        return None;
    }
    let o = 12 + klen;
    let time = read_le(bytes, o, 8);
    proof {
        lemma_le_value_bound_8(bytes@.subrange(o as int, o + 8));
    }
    let balance = read_amount(bytes, o + 8);
    let used = read_amount(bytes, o + 25);
    let total = read_amount(bytes, o + 42);
    let flag = bytes[o + 59];
    match (balance, used, total) {
        (Some(b), Some(u), Some(t)) => {
            if flag == 0 || flag == 1 {
                Some((BalanceData { balance: b, used: u, total: t, is_unlimited: flag == 1 }, time as u64))
            } else {
                None
            }
        },
        _ => None,
    }
}

/// What a reader of the durable store finds under `key` at time `now`: the
/// stored balance and its age in seconds (zero for a capture time in the
/// future), or neither when `bytes` hold no valid record of `key`.
pub fn read_durable(bytes: &Vec<u8>, key: &Vec<u8>, now: u64) -> (r: (Option<BalanceData>, Option<u64>))
    ensures
        r == (match parse_record(bytes@, key@) {
            Some((data, time)) => (Some(data), Some(if now >= time { (now - time) as u64 } else { 0u64 })),
            None => (None, None),
        }),
{
    match decode_record(bytes, key) {
        Some((data, time)) => (Some(data), Some(if now >= time { now - time } else { 0 })),
        None => (None, None),
    }
}

proof fn lemma_le_value_bound_8(s: Seq<u8>)
    requires
        s.len() == 8,
    ensures
        le_value(s) <= u64::MAX,
{
    lemma_le_value_bound(s);
    lemma_pow256_16();
}

/// A record read back under its own key gives what was written, whatever
/// bytes follow it.
pub proof fn lemma_record_round_trip(key: Seq<u8>, data: BalanceData, time: u64, rest: Seq<u8>)
    requires
        key.len() <= u64::MAX,
    ensures
        record_bytes(key, data, time).len() == record_len(key.len()),
        parse_record(record_bytes(key, data, time) + rest, key) == Some((data, time)),
{
    lemma_pow256_16();
    lemma_le_round_trip(key.len(), 8);
    lemma_le_round_trip(time as nat, 8);
    lemma_amount_round_trip(data.balance);
    lemma_amount_round_trip(data.used);
    lemma_amount_round_trip(data.total);
    let s = record_bytes(key, data, time) + rest;
    let o = 12 + key.len() as int;
    assert(s.subrange(0, 4) =~= record_magic());
    assert(s.subrange(4, 12) =~= le_bytes(key.len(), 8));
    assert(s.subrange(12, o) =~= key);
    assert(s.subrange(o, o + 8) =~= le_bytes(time as nat, 8));
    assert(s.subrange(o + 8, o + 25) =~= amount_bytes(data.balance as int));
    assert(s.subrange(o + 25, o + 42) =~= amount_bytes(data.used as int));
    assert(s.subrange(o + 42, o + 59) =~= amount_bytes(data.total as int));
    assert(s[o + 59] == flag_byte(data.is_unlimited));
}

/// A reader never takes a strict prefix of a record, such as a write cut
/// short, for a value.
pub proof fn lemma_truncated_record_rejected(key: Seq<u8>, data: BalanceData, time: u64, n: int)
    requires
        0 <= n < record_bytes(key, data, time).len(),
    ensures
        parse_record(record_bytes(key, data, time).subrange(0, n), key) is None,
{
    lemma_le_bytes_len(key.len(), 8);
    lemma_le_bytes_len(time as nat, 8);
    lemma_le_bytes_len(abs(data.balance as int), 16);
    lemma_le_bytes_len(abs(data.used as int), 16);
    lemma_le_bytes_len(abs(data.total as int), 16);
}

/// The record of one key never reads as a value under another key.
pub proof fn lemma_record_key_isolation(
    written: Seq<u8>,
    read: Seq<u8>,
    data: BalanceData,
    time: u64,
    rest: Seq<u8>,
)
    requires
        written != read,
        written.len() <= u64::MAX,
    ensures
        parse_record(record_bytes(written, data, time) + rest, read) is None,
{
    lemma_pow256_16();
    lemma_le_round_trip(written.len(), 8);
    let s = record_bytes(written, data, time) + rest;
    assert(s.subrange(4, 12) =~= le_bytes(written.len(), 8));
    if written.len() == read.len() && s.len() >= record_len(read.len()) {
        assert(s.subrange(12, 12 + read.len() as int) =~= written);
    }
}

} // verus!
