//! Correlation ids for tracing GUI commands through logs.
use vstd::prelude::*;
use std::time::{SystemTime, UNIX_EPOCH};
use crate::text::{decimal, lemma_decimal_digits, lemma_decimal_injective, push_decimal, push_signed_decimal, push_str, signed_decimal};

verus! {

/// The id built from a prefix, a millisecond timestamp and a sequence number:
/// `"<prefix>-<millis>-<seq>"`.
pub open spec fn cid_text(prefix: Seq<char>, millis: int, seq: nat) -> Seq<char> {
    prefix + "-"@ + signed_decimal(millis) + "-"@ + decimal(seq)
}

/// Renders `"<prefix>-<millis>-<seq>"`.
pub fn format_cid(prefix: &str, millis: i64, seq: u64) -> (r: String)
    ensures
        r@ == cid_text(prefix@, millis as int, seq as nat),
{
    let mut out = String::new();
    push_str(&mut out, prefix);
    push_str(&mut out, "-");
    push_signed_decimal(&mut out, millis);
    push_str(&mut out, "-");
    push_decimal(&mut out, seq);
    out
}

/// `SystemTime::now().duration_since(UNIX_EPOCH)` in whole milliseconds: `Ok` with the time
/// since the epoch, or `Err` with how far the clock reads before it. It depends on the
/// clock, so nothing is stated of it.
#[verifier::external_body]
fn clock_offset_millis() -> Result<u128, u128> {
    match SystemTime::now().duration_since(UNIX_EPOCH) {
        Ok(d) => Ok(d.as_millis()),
        Err(e) => Err(e.duration().as_millis()),
    }
}

/// A clock offset from the epoch as signed milliseconds: positive after the epoch, negative
/// before it, held within `±i64::MAX`.
pub open spec fn signed_offset(offset: Result<u128, u128>) -> int {
    match offset {
        Ok(m) => if m > i64::MAX { i64::MAX as int } else { m as int },
        Err(m) => if m > i64::MAX { -(i64::MAX as int) } else { -(m as int) },
    }
}

/// Converts a clock offset from the epoch to signed milliseconds.
pub fn epoch_millis(offset: Result<u128, u128>) -> (r: i64)
    ensures
        r as int == signed_offset(offset),
{
    match offset {
        Ok(m) => if m > i64::MAX as u128 { i64::MAX } else { m as i64 },
        Err(m) => if m > i64::MAX as u128 { -i64::MAX } else { -(m as i64) },
    }
}

/// The wall-clock time in milliseconds since the Unix epoch (negative before it). It
/// depends on the clock, so only its range is stated.
pub(crate) fn unix_millis_now() -> (r: i64)
    ensures
        r > i64::MIN,
{
    epoch_millis(clock_offset_millis())
}

/// A correlation id: the incoming id when one is given, otherwise a fresh
/// `"<prefix>-<millis>-<seq>"` from the current time and the caller's sequence number,
/// which the caller advances by one for every fresh id.
pub fn cid(prefix: &str, incoming: Option<String>, seq: u64) -> (r: String)
    ensures
        incoming is Some ==> r == incoming->0,
        incoming is None ==> exists|millis: i64| r@ == cid_text(prefix@, millis as int, seq as nat),
{
    match incoming {
        Some(id) => id,
        None => {
            let millis = unix_millis_now();
            format_cid(prefix, millis, seq)
        },
    }
}

/// Ids built from different sequence numbers differ, whatever their prefixes and times.
pub proof fn lemma_distinct_sequence_numbers_give_distinct_ids(
    p1: Seq<char>,
    m1: int,
    s1: nat,
    p2: Seq<char>,
    m2: int,
    s2: nat,
)
    requires
        s1 != s2,
    ensures
        cid_text(p1, m1, s1) != cid_text(p2, m2, s2),
{
    let d1 = decimal(s1);
    let d2 = decimal(s2);
    let x1 = p1 + "-"@ + signed_decimal(m1) + "-"@;
    let x2 = p2 + "-"@ + signed_decimal(m2) + "-"@;
    let t1 = cid_text(p1, m1, s1);
    let t2 = cid_text(p2, m2, s2);
    reveal_strlit("-");
    assert(t1 =~= x1 + d1);
    assert(t2 =~= x2 + d2);
    lemma_decimal_digits(s1);
    lemma_decimal_digits(s2);
    if t1 == t2 {
        if d1.len() == d2.len() {
            assert(d1 =~= t1.subrange(t1.len() - d1.len(), t1.len() as int));
            assert(d2 =~= t2.subrange(t2.len() - d2.len(), t2.len() as int));
            lemma_decimal_injective(s1, s2);
        } else if d1.len() < d2.len() {
            let k = t1.len() - d1.len() - 1;
            assert(t1[k] == x1[x1.len() - 1]);
            assert(x1[x1.len() - 1] == '-');
            assert(t2[k] == d2[k - x2.len()]);
        } else {
            let k = t2.len() - d2.len() - 1;
            assert(t2[k] == x2[x2.len() - 1]);
            assert(x2[x2.len() - 1] == '-');
            assert(t1[k] == d1[k - x1.len()]);
        }
    }
}

/// Every generated id starts with the prefix followed by a dash.
pub proof fn lemma_cid_starts_with_prefix(prefix: Seq<char>, millis: int, seq: nat)
    ensures
        cid_text(prefix, millis, seq).take((prefix.len() + 1) as int) == prefix + "-"@,
{
    reveal_strlit("-");
    assert(cid_text(prefix, millis, seq).take((prefix.len() + 1) as int) =~= prefix + "-"@);
}

} // verus!
