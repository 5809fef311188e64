//! Dotted version numbers, their comparison, and the update-check message.
use vstd::prelude::*;
use std::cmp::Ordering;
use crate::text::{chars_of, nat_of, opt_view, push_str, starts_with_seq};

verus! {

/// The pieces of `s` between `'.'` characters (what `str::split('.')` yields).
pub open spec fn dot_pieces(s: Seq<char>) -> Seq<Seq<char>>
    decreases s.len(),
{
    if s.len() == 0 {
        seq![Seq::<char>::empty()]
    } else {
        let p = dot_pieces(s.drop_last());
        if s.last() == '.' {
            p.push(Seq::<char>::empty())
        } else {
            p.update(p.len() - 1, p.last().push(s.last()))
        }
    }
}

/// An ASCII decimal digit.
pub open spec fn is_digit(c: char) -> bool {
    '0' <= c && c <= '9'
}

/// The value of a run of decimal digits.
pub open spec fn digits_value(ds: Seq<char>) -> nat
    decreases ds.len(),
{
    if ds.len() == 0 {
        0
    } else {
        digits_value(ds.drop_last()) * 10 + ((ds.last() as int) - 48) as nat
    }
}

/// The text after an optional leading `+`.
pub open spec fn unsigned_digits(s: Seq<char>) -> Seq<char> {
    if s.len() > 0 && s[0] == '+' { s.drop_first() } else { s }
}

/// Every character is an ASCII digit.
pub open spec fn all_digits(ds: Seq<char>) -> bool {
    forall|k: int| 0 <= k < ds.len() ==> is_digit(#[trigger] ds[k])
}

/// What `str::parse::<u64>` returns: an optional `+`, then at least one ASCII digit, with
/// a value that fits in 64 bits; anything else is an error.
pub open spec fn parse_u64_text(s: Seq<char>) -> Option<u64> {
    let ds = unsigned_digits(s);
    if ds.len() > 0 && all_digits(ds) && digits_value(ds) <= u64::MAX {
        Some(digits_value(ds) as u64)
    } else {
        None
    }
}

/// The numeric components of a dotted version; a component that does not parse counts as 0.
pub open spec fn version_numbers(v: Seq<char>) -> Seq<u64> {
    dot_pieces(v).map_values(|p: Seq<char>| match parse_u64_text(p) {
        Some(n) => n,
        None => 0u64,
    })
}

proof fn lemma_digits_value_step(ds: Seq<char>, k: int)
    requires
        0 <= k < ds.len(),
        is_digit(ds[k]),
    ensures
        digits_value(ds.take(k + 1)) == digits_value(ds.take(k)) * 10 + ((ds[k] as int) - 48),
{
    assert(ds.take(k + 1).drop_last() =~= ds.take(k));
    assert(ds.take(k + 1).last() == ds[k]);
}

proof fn lemma_digits_value_monotone(ds: Seq<char>, k: int)
    requires
        0 <= k <= ds.len(),
        all_digits(ds),
    ensures
        digits_value(ds.take(k)) <= digits_value(ds),
    decreases ds.len() - k,
{
    if k < ds.len() {
        lemma_digits_value_monotone(ds, k + 1);
        lemma_digits_value_step(ds, k);
        assert(is_digit(ds[k]));
    } else {
        assert(ds.take(k) =~= ds);
    }
}

/// Parses one version component as `str::parse::<u64>` does.
pub fn parse_component(s: &[char]) -> (r: Option<u64>)
    ensures
        r == parse_u64_text(s@),
{
    let start: usize = if s.len() > 0 && s[0] == '+' { 1 } else { 0 };
    let ghost ds = unsigned_digits(s@);
    proof {
        assert(ds =~= s@.subrange(start as int, s@.len() as int));
    }
    if start >= s.len() {
        return None;
    }
    let mut value: u64 = 0;
    let mut i: usize = start;
    while i < s.len()
        invariant
            start <= i <= s.len(),
            ds == s@.subrange(start as int, s@.len() as int),
            ds == unsigned_digits(s@),
            all_digits(ds.take(i - start)),
            value as nat == digits_value(ds.take(i - start)),
        decreases s.len() - i,
    {
        let c = s[i];
        proof {
            assert(ds[i - start] == c);
        }
        if !('0' <= c && c <= '9') {
            proof {
                assert(!is_digit(ds[i - start]));
                assert(!all_digits(ds));
            }
            return None;
        }
        proof {
            lemma_digits_value_step(ds, i - start);
        }
        let d: u64 = (c as u32 - 48) as u64;
        if value > (u64::MAX - d) / 10 {
            proof {
                assert(value * 10 + d > u64::MAX) by (nonlinear_arith)
                    requires
                        value > (u64::MAX - d) / 10,
                        d <= 9;
                if all_digits(ds) {
                    lemma_digits_value_monotone(ds, i - start + 1);
                }
            }
            return None;
        }
        value = value * 10 + d;
        i = i + 1;
    }
    proof {
        assert(ds.take(s@.len() - start) =~= ds);
    }
    Some(value)
}

/// Splits a dotted version into its numeric components.
pub fn parse_version(version: &str) -> (r: Vec<u64>)
    ensures
        r@ == version_numbers(version@),
{
    let v = chars_of(version);
    let mut out: Vec<u64> = Vec::new();
    let mut cur: Vec<char> = Vec::new();
    let ghost mut done: Seq<Seq<char>> = Seq::empty();
    let mut i: usize = 0;
    proof {
        assert(v@.take(0) =~= Seq::<char>::empty());
        assert(dot_pieces(Seq::<char>::empty()) =~= done.push(cur@));
    }
    while i < v.len()
        invariant
            i <= v.len(),
            v@ == version@,
            dot_pieces(v@.take(i as int)) == done.push(cur@),
            out@ == done.map_values(|p: Seq<char>| match parse_u64_text(p) {
                Some(n) => n,
                None => 0u64,
            }),
        decreases v.len() - i,
    {
        let c = v[i];
        proof {
            assert(v@.take(i + 1).drop_last() =~= v@.take(i as int));
            assert(v@.take(i + 1).last() == c);
        }
        if c == '.' {
            let n = match parse_component(cur.as_slice()) {
                Some(n) => n,
                None => 0u64,
            };
            let ghost old_out = out@;
            let ghost old_done = done;
            out.push(n);
            proof {
                done = done.push(cur@);
                assert(out@ =~= done.map_values(|p: Seq<char>| match parse_u64_text(p) {
                    Some(n) => n,
                    None => 0u64,
                }));
            }
            cur = Vec::new();
            proof {
                assert(dot_pieces(v@.take(i + 1)) =~= done.push(cur@));
            }
        } else {
            cur.push(c);
            proof {
                assert(dot_pieces(v@.take(i + 1)) =~= done.push(cur@));
            }
        }
        i = i + 1;
    }
    let n = match parse_component(cur.as_slice()) {
        Some(n) => n,
        None => 0u64,
    };
    out.push(n);
    proof {
        assert(v@.take(v.len() as int) =~= version@);
        assert(out@ =~= version_numbers(version@));
    }
    out
}

/// The component at `i`, with missing components read as 0.
pub open spec fn component(a: Seq<u64>, i: nat) -> u64 {
    if i < a.len() { a[i as int] } else { 0 }
}

/// The larger of two lengths.
pub open spec fn longer(a: Seq<u64>, b: Seq<u64>) -> nat {
    if a.len() >= b.len() { a.len() } else { b.len() }
}

/// Component-wise comparison from position `i`, padding the shorter version with zeros:
/// the first differing component decides.
pub open spec fn version_order(a: Seq<u64>, b: Seq<u64>, i: nat) -> Ordering
    decreases longer(a, b) - i,
{
    if i >= longer(a, b) {
        Ordering::Equal
    } else if component(a, i) < component(b, i) {
        Ordering::Less
    } else if component(a, i) > component(b, i) {
        Ordering::Greater
    } else {
        version_order(a, b, i + 1)
    }
}

/// The order of two dotted version strings.
pub open spec fn versions_order(latest: Seq<char>, current: Seq<char>) -> Ordering {
    version_order(version_numbers(latest), version_numbers(current), 0)
}

/// Compares two dotted versions component by component.
pub fn compare_versions(latest: &str, current: &str) -> (r: Ordering)
    ensures
        r == versions_order(latest@, current@),
{
    let a = parse_version(latest);
    let b = parse_version(current);
    let len = if a.len() >= b.len() { a.len() } else { b.len() };
    let mut i: usize = 0;
    while i < len
        invariant
            a@ == version_numbers(latest@),
            b@ == version_numbers(current@),
            len == longer(a@, b@),
            i <= len,
            version_order(a@, b@, 0) == version_order(a@, b@, nat_of(i)),
        decreases len - i,
    {
        let av = if i < a.len() { a[i] } else { 0 };
        let bv = if i < b.len() { b[i] } else { 0 };
        if av < bv {
            return Ordering::Less;
        }
        if av > bv {
            return Ordering::Greater;
        }
        i = i + 1;
    }
    Ordering::Equal
}

/// The opposite order.
pub open spec fn flipped(o: Ordering) -> Ordering {
    match o {
        Ordering::Less => Ordering::Greater,
        Ordering::Equal => Ordering::Equal,
        Ordering::Greater => Ordering::Less,
    }
}

/// Swapping the two versions flips the answer.
pub proof fn lemma_version_order_antisymmetric(a: Seq<u64>, b: Seq<u64>, i: nat)
    ensures
        version_order(b, a, i) == flipped(version_order(a, b, i)),
    decreases longer(a, b) - i,
{
    if i < longer(a, b) && component(a, i) == component(b, i) {
        lemma_version_order_antisymmetric(a, b, i + 1);
    }
}

/// Every version is equal to itself.
pub proof fn lemma_version_order_reflexive(a: Seq<u64>, i: nat)
    ensures
        version_order(a, a, i) == Ordering::Equal,
    decreases longer(a, a) - i,
{
    if i < longer(a, a) {
        lemma_version_order_reflexive(a, i + 1);
    }
}

/// Trailing zero components do not matter: a version equals itself with a `.0` appended.
pub proof fn lemma_version_order_trailing_zero(a: Seq<u64>, i: nat)
    ensures
        version_order(a.push(0u64), a, i) == Ordering::Equal,
    decreases longer(a.push(0u64), a) - i,
{
    if i < longer(a.push(0u64), a) {
        assert(component(a.push(0u64), i) == component(a, i));
        lemma_version_order_trailing_zero(a, i + 1);
    }
}

/// The comparison is transitive for `Less`.
pub proof fn lemma_version_order_transitive(a: Seq<u64>, b: Seq<u64>, c: Seq<u64>, i: nat)
    requires
        version_order(a, b, i) == Ordering::Less,
        version_order(b, c, i) == Ordering::Less,
    ensures
        version_order(a, c, i) == Ordering::Less,
    decreases longer(a, b) - i,
{
    if component(a, i) == component(b, i) && component(b, i) == component(c, i) {
        lemma_version_order_transitive(a, b, c, i + 1);
    }
}

/// The contents of an update feed.
#[derive(Debug)]
pub struct UpdateFeed {
    pub latest_version: String,
    pub notes: Option<String>,
    pub published_at: Option<String>,
}

/// The message when no update feed is configured.
pub open spec fn no_feed_message(version: Seq<char>, feed_path: Seq<char>, checked_at: Seq<char>) -> Seq<char> {
    "Backup Sync "@ + version + ". No update feed configured (checked "@ + feed_path + " at "@ + checked_at + ")."@
}

/// The message after comparing the running version with the feed's latest version.
pub open spec fn feed_message(
    version: Seq<char>,
    latest: Seq<char>,
    published: Option<Seq<char>>,
    notes: Option<Seq<char>>,
    feed_path: Seq<char>,
    checked_at: Seq<char>,
) -> Seq<char> {
    let published_text = match published {
        Some(p) => p,
        None => "unknown publish time"@,
    };
    let notes_text = match notes {
        Some(n) => n,
        None => "No release notes provided."@,
    };
    match versions_order(latest, version) {
        Ordering::Greater => "Update available: "@ + version + " -> "@ + latest + " (published "@
            + published_text + "). Notes: "@ + notes_text,
        Ordering::Equal => "Backup Sync "@ + version + " is up to date (checked "@ + feed_path + " at "@
            + checked_at + ")."@,
        Ordering::Less => "Backup Sync "@ + version + " is newer than feed version "@ + latest
            + " (checked "@ + feed_path + " at "@ + checked_at + ")."@,
    }
}

/// The text reporting the running `version` as current.
pub open spec fn up_to_date_text(version: Seq<char>, feed_path: Seq<char>, checked_at: Seq<char>) -> Seq<char> {
    "Backup Sync "@ + version + " is up to date (checked "@ + feed_path + " at "@ + checked_at + ")."@
}

/// An update is announced exactly when the feed's version is strictly newer than the
/// running one; a feed version that compares equal (component by component, a missing
/// component counting as 0) gets the "up to date" answer, and so does a feed announcing
/// the running version itself.
pub proof fn lemma_update_announced_only_for_newer(
    version: Seq<char>,
    latest: Seq<char>,
    published: Option<Seq<char>>,
    notes: Option<Seq<char>>,
    feed_path: Seq<char>,
    checked_at: Seq<char>,
)
    ensures
        versions_order(latest, version) == Ordering::Equal ==> feed_message(version, latest, published, notes,
            feed_path, checked_at) == up_to_date_text(version, feed_path, checked_at),
        feed_message(version, version, published, notes, feed_path, checked_at) == up_to_date_text(version,
            feed_path, checked_at),
        starts_with_seq(feed_message(version, latest, published, notes, feed_path, checked_at), "Update available: "@)
            <==> versions_order(latest, version) == Ordering::Greater,
{
    reveal_strlit("Update available: ");
    reveal_strlit("Backup Sync ");
    lemma_version_order_reflexive(version_numbers(version), 0);
    let m = feed_message(version, latest, published, notes, feed_path, checked_at);
    let ua = "Update available: "@;
    if versions_order(latest, version) == Ordering::Greater {
        assert(ua.len() == 18);
        assert(m.take(18) =~= ua);
    } else {
        assert(m[0] == 'B');
        assert(ua[0] == 'U');
        if starts_with_seq(m, ua) {
            assert(ua.len() == 18);
            assert(m.take(18)[0] == m[0]);
        }
    }
}

/// The update-check message for the running `version`, given the feed when one is configured.
pub fn update_message(version: &str, feed: Option<UpdateFeed>, feed_path: &str, checked_at: &str) -> (r: String)
    ensures
        feed is None ==> r@ == no_feed_message(version@, feed_path@, checked_at@),
        feed matches Some(f) ==> r@ == feed_message(version@, f.latest_version@, opt_view(f.published_at),
            opt_view(f.notes), feed_path@, checked_at@),
{
    let mut out = String::new();
    match feed {
        None => {
            push_str(&mut out, "Backup Sync ");
            push_str(&mut out, version);
            push_str(&mut out, ". No update feed configured (checked ");
            push_str(&mut out, feed_path);
            push_str(&mut out, " at ");
            push_str(&mut out, checked_at);
            push_str(&mut out, ").");
        },
        Some(f) => {
            let order = compare_versions(f.latest_version.as_str(), version);
            match order {
                Ordering::Greater => {
                    push_str(&mut out, "Update available: ");
                    push_str(&mut out, version);
                    push_str(&mut out, " -> ");
                    push_str(&mut out, f.latest_version.as_str());
                    push_str(&mut out, " (published ");
                    match &f.published_at {
                        Some(p) => push_str(&mut out, p.as_str()),
                        None => push_str(&mut out, "unknown publish time"),
                    }
                    push_str(&mut out, "). Notes: ");
                    match &f.notes {
                        Some(n) => push_str(&mut out, n.as_str()),
                        None => push_str(&mut out, "No release notes provided."),
                    }
                },
                Ordering::Equal => {
                    push_str(&mut out, "Backup Sync ");
                    push_str(&mut out, version);
                    push_str(&mut out, " is up to date (checked ");
                    push_str(&mut out, feed_path);
                    push_str(&mut out, " at ");
                    push_str(&mut out, checked_at);
                    push_str(&mut out, ").");
                },
                Ordering::Less => {
                    push_str(&mut out, "Backup Sync ");
                    push_str(&mut out, version);
                    push_str(&mut out, " is newer than feed version ");
                    push_str(&mut out, f.latest_version.as_str());
                    push_str(&mut out, " (checked ");
                    push_str(&mut out, feed_path);
                    push_str(&mut out, " at ");
                    push_str(&mut out, checked_at);
                    push_str(&mut out, ").");
                },
            }
        },
    }
    out
}

/// The running version: the package version the build recorded, or `0.0.0` when the
/// build recorded none.
pub fn current_version(package_version: Option<&str>) -> (r: String)
    ensures
        package_version matches Some(v) ==> r@ == v@,
        package_version is None ==> r@ == "0.0.0"@,
{
    match package_version {
        Some(v) => String::from_str(v),
        None => String::from_str("0.0.0"),
    }
}

} // verus!
