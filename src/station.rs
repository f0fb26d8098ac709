use vstd::prelude::*;
use vstd::string::*;

use crate::text::{
    lemma_text_lt_irreflexive, lemma_text_lt_total, lemma_text_lt_transitive, ssid_to_string, text_equal, text_less, text_lt,
    utf8_text,
};

verus! {

/// A network seen by a scan, as the radio reports it: the SSID is raw bytes
/// (absent for a hidden network) and the signal strength is a percentage.
pub struct AccessPointInfo {
    pub ssid: Option<Vec<u8>>,
    pub strength: u8,
}

/// A scanned network that the portal offers to the user.
#[derive(Debug, Clone, PartialEq, Eq, Hash)]
pub struct Station {
    pub ssid: String,
    pub quality: u8,
}

impl Station {
    pub fn new(ssid: String, quality: u8) -> (r: Station)
        ensures
            r.ssid@ == ssid@,
            r.quality == quality,
    {
        Station { ssid, quality }
    }

    /// A field-by-field copy.
    pub fn duplicate(&self) -> (r: Station)
        ensures
            r.ssid@ == self.ssid@,
            r.quality == self.quality,
    {
        Station { ssid: self.ssid.clone(), quality: self.quality }
    }
}

/// The text of an access point's SSID, if it has one that is valid UTF-8.
pub open spec fn ap_text(ap: AccessPointInfo) -> Option<Seq<char>> {
    match ap.ssid {
        Some(b) => utf8_text(b@),
        None => None,
    }
}

/// An access point with a readable, non-empty SSID.
pub open spec fn usable(ap: AccessPointInfo) -> bool {
    ap_text(ap) is Some && ap_text(ap)->Some_0.len() > 0
}

/// Some access point among the first `n` reads as `t` at strength `q`.
pub open spec fn heard(aps: Seq<AccessPointInfo>, n: int, t: Seq<char>, q: u8) -> bool {
    exists|m: int| 0 <= m < n && #[trigger] ap_text(aps[m]) == Some(t) && aps[m].strength == q
}

/// `a` comes before `b` in the station list: stronger first, and for equal
/// strength the later SSID first.
pub open spec fn station_gt(a: Station, b: Station) -> bool {
    a.quality > b.quality || (a.quality == b.quality && text_lt(b.ssid@, a.ssid@))
}

pub open spec fn strictly_descending(r: Seq<Station>) -> bool {
    forall|i: int, j: int| 0 <= i < j < r.len() ==> station_gt(#[trigger] r[i], #[trigger] r[j])
}

/// `r` is the station list derived from the first `n` access points of `aps`:
/// one entry per distinct readable non-empty SSID, carrying the strongest
/// signal seen for it, ordered by `station_gt`.
pub open spec fn stations_of(aps: Seq<AccessPointInfo>, n: int, r: Seq<Station>) -> bool {
    &&& strictly_descending(r)
    &&& forall|i: int, j: int| 0 <= i < j < r.len() ==> (#[trigger] r[i]).ssid@ != (#[trigger] r[j]).ssid@
    &&& forall|i: int| 0 <= i < r.len() ==> (#[trigger] r[i]).ssid@.len() > 0
    &&& forall|i: int| 0 <= i < r.len() ==> heard(aps, n, (#[trigger] r[i]).ssid@, r[i].quality)
    &&& forall|i: int, m: int|
        0 <= i < r.len() && 0 <= m < n && ap_text(#[trigger] aps[m]) == Some((#[trigger] r[i]).ssid@)
            ==> aps[m].strength <= r[i].quality
    &&& forall|m: int|
        0 <= m < n && usable(#[trigger] aps[m]) ==> exists|i: int|
            0 <= i < r.len() && (#[trigger] r[i]).ssid@ == ap_text(aps[m])->Some_0
}

pub proof fn lemma_station_gt_transitive(a: Station, b: Station, c: Station)
    requires
        station_gt(a, b),
        station_gt(b, c),
    ensures
        station_gt(a, c),
{
    if a.quality == b.quality && b.quality == c.quality {
        lemma_text_lt_transitive(c.ssid@, b.ssid@, a.ssid@);
    }
}

pub proof fn lemma_station_gt_total(a: Station, b: Station)
    requires
        a.ssid@ != b.ssid@,
    ensures
        station_gt(a, b) || station_gt(b, a),
{
    lemma_text_lt_total(a.ssid@, b.ssid@);
}

fn station_before(a: &Station, b: &Station) -> (r: bool)
    ensures
        r == station_gt(*a, *b),
{
    a.quality > b.quality || (a.quality == b.quality && text_less(b.ssid.as_str(), a.ssid.as_str()))
}

/// Inserts `s` at its place in a descending list that does not hold its SSID.
fn insert_sorted(r: &mut Vec<Station>, s: Station) -> (p: usize)
    requires
        strictly_descending(old(r)@),
        forall|i: int| 0 <= i < old(r)@.len() ==> (#[trigger] old(r)@[i]).ssid@ != s.ssid@,
    ensures
        p <= old(r)@.len(),
        final(r)@ == old(r)@.insert(p as int, s),
        strictly_descending(final(r)@),
{
    let mut p: usize = 0;
    while p < r.len()
        invariant
            r@ == old(r)@,
            p <= r@.len(),
            forall|i: int| 0 <= i < p ==> station_gt(#[trigger] r@[i], s),
            forall|i: int| 0 <= i < r@.len() ==> (#[trigger] r@[i]).ssid@ != s.ssid@,
        ensures
            p <= r@.len(),
            forall|i: int| 0 <= i < p ==> station_gt(#[trigger] r@[i], s),
            p < r@.len() ==> station_gt(s, r@[p as int]),
        decreases r@.len() - p,
    {
        if station_before(&s, &r[p]) {
            break;
        }
        proof {
            lemma_station_gt_total(r@[p as int], s);
        }
        p = p + 1;
    }
    let ghost before = r@;
    proof {
        before.insert_ensures(p as int, s);
        assert forall|i: int| p < i < before.len() implies station_gt(s, #[trigger] before[i]) by {
            lemma_station_gt_transitive(s, before[p as int], before[i]);
        }
    }
    r.insert(p, s);
    proof {
        let after = r@;
        assert forall|i: int, j: int| 0 <= i < j < after.len() implies station_gt(
            #[trigger] after[i],
            #[trigger] after[j],
        ) by {
            if j < p {
            } else if j == p {
            } else if i < p {
                lemma_station_gt_transitive(after[i], s, after[j]);
            } else if i == p {
            } else {
                assert(after[i] == before[i - 1]);
                assert(after[j] == before[j - 1]);
            }
        }
    }
    p
}

/// The position of the station named `t`, if the list holds one.
fn find_station(r: &Vec<Station>, t: &String) -> (found: Option<usize>)
    ensures
        found matches Some(j) ==> j < r@.len() && r@[j as int].ssid@ == t@,
        found is None ==> forall|i: int| 0 <= i < r@.len() ==> (#[trigger] r@[i]).ssid@ != t@,
{
    let mut i: usize = 0;
    while i < r.len()
        invariant
            i <= r@.len(),
            forall|k: int| 0 <= k < i ==> (#[trigger] r@[k]).ssid@ != t@,
        decreases r@.len() - i,
    {
        if text_equal(r[i].ssid.as_str(), t.as_str()) {
            return Some(i);
        }
        i = i + 1;
    }
    None
}

proof fn lemma_heard_grows(aps: Seq<AccessPointInfo>, n: int, t: Seq<char>, q: u8)
    requires
        heard(aps, n, t, q),
    ensures
        heard(aps, n + 1, t, q),
{
    let m = choose|m: int| 0 <= m < n && #[trigger] ap_text(aps[m]) == Some(t) && aps[m].strength == q;
    assert(0 <= m < n + 1 && ap_text(aps[m]) == Some(t) && aps[m].strength == q);
}

/// The next access point adds nothing to the list.
proof fn lemma_kept(aps: Seq<AccessPointInfo>, k: int, r: Seq<Station>)
    requires
        0 <= k < aps.len(),
        stations_of(aps, k, r),
        !usable(aps[k]) || exists|j: int|
            0 <= j < r.len() && (#[trigger] r[j]).ssid@ == ap_text(aps[k])->Some_0 && r[j].quality
                >= aps[k].strength,
    ensures
        stations_of(aps, k + 1, r),
{
    assert forall|i: int| 0 <= i < r.len() implies heard(aps, k + 1, (#[trigger] r[i]).ssid@, r[i].quality) by {
        lemma_heard_grows(aps, k, r[i].ssid@, r[i].quality);
    }
    assert forall|i: int, m: int|
        0 <= i < r.len() && 0 <= m < k + 1 && ap_text(#[trigger] aps[m]) == Some((#[trigger] r[i]).ssid@)
        implies aps[m].strength <= r[i].quality by {
        if m == k {
            let j = choose|j: int|
                0 <= j < r.len() && (#[trigger] r[j]).ssid@ == ap_text(aps[k])->Some_0 && r[j].quality
                    >= aps[k].strength;
            if j != i {
                if i < j {
                    assert(r[i].ssid@ != r[j].ssid@);
                } else {
                    assert(r[j].ssid@ != r[i].ssid@);
                }
            }
        }
    }
    assert forall|m: int| 0 <= m < k + 1 && usable(#[trigger] aps[m]) implies exists|i: int|
        0 <= i < r.len() && (#[trigger] r[i]).ssid@ == ap_text(aps[m])->Some_0 by {
        if m == k {
            let j = choose|j: int|
                0 <= j < r.len() && (#[trigger] r[j]).ssid@ == ap_text(aps[k])->Some_0 && r[j].quality
                    >= aps[k].strength;
            assert(r[j].ssid@ == ap_text(aps[m])->Some_0);
        }
    }
}

/// The next access point brings an SSID that the list did not hold.
proof fn lemma_added(aps: Seq<AccessPointInfo>, k: int, before: Seq<Station>, p: int, s: Station, after: Seq<Station>)
    requires
        0 <= k < aps.len(),
        stations_of(aps, k, before),
        usable(aps[k]),
        s.ssid@ == ap_text(aps[k])->Some_0,
        s.quality == aps[k].strength,
        forall|i: int| 0 <= i < before.len() ==> (#[trigger] before[i]).ssid@ != s.ssid@,
        0 <= p <= before.len(),
        after == before.insert(p, s),
        strictly_descending(after),
    ensures
        stations_of(aps, k + 1, after),
{
    before.insert_ensures(p, s);
    let t = s.ssid@;
    assert forall|i: int| 0 <= i < after.len() && i != p implies #[trigger] after[i] == before[
        if i < p { i } else { i - 1 }
    ] by {
        if i > p {
            assert(after[(i - 1) + 1] == before[i - 1]);
        }
    }
    assert forall|i: int, j: int| 0 <= i < j < after.len() implies (#[trigger] after[i]).ssid@ != (
    #[trigger] after[j]).ssid@ by {
        let oi = if i < p { i } else { i - 1 };
        let oj = if j < p { j } else { j - 1 };
        if i != p && j != p {
            assert(after[i] == before[oi]);
            assert(after[j] == before[oj]);
            assert(before[oi].ssid@ != before[oj].ssid@);
        } else if i == p {
            assert(after[j] == before[oj]);
        } else {
            assert(after[i] == before[oi]);
        }
    }
    assert forall|i: int| 0 <= i < after.len() implies (#[trigger] after[i]).ssid@.len() > 0 && heard(
        aps,
        k + 1,
        after[i].ssid@,
        after[i].quality,
    ) by {
        if i == p {
            assert(0 <= k < k + 1 && ap_text(aps[k]) == Some(after[i].ssid@) && aps[k].strength
                == after[i].quality);
        } else {
            let oi = if i < p { i } else { i - 1 };
            assert(after[i] == before[oi]);
            lemma_heard_grows(aps, k, before[oi].ssid@, before[oi].quality);
        }
    }
    assert forall|i: int, m: int|
        0 <= i < after.len() && 0 <= m < k + 1 && ap_text(#[trigger] aps[m]) == Some((#[trigger] after[i]).ssid@)
        implies aps[m].strength <= after[i].quality by {
        if i == p {
            if m < k {
                assert(usable(aps[m]));
                let w = choose|w: int| 0 <= w < before.len() && (#[trigger] before[w]).ssid@ == ap_text(aps[m])->Some_0;
                assert(before[w].ssid@ != t);
            }
        } else {
            let oi = if i < p { i } else { i - 1 };
            assert(after[i] == before[oi]);
            if m < k {
                assert(aps[m].strength <= before[oi].quality);
            } else {
                assert(before[oi].ssid@ != t);
            }
        }
    }
    assert forall|m: int| 0 <= m < k + 1 && usable(#[trigger] aps[m]) implies exists|i: int|
        0 <= i < after.len() && (#[trigger] after[i]).ssid@ == ap_text(aps[m])->Some_0 by {
        if m == k {
            assert(after[p].ssid@ == ap_text(aps[m])->Some_0);
        } else {
            let w = choose|w: int| 0 <= w < before.len() && (#[trigger] before[w]).ssid@ == ap_text(aps[m])->Some_0;
            let i = if w < p { w } else { w + 1 };
            assert(after[i] == before[w]);
        }
    }
}

/// The next access point is a stronger sighting of the SSID at `j`.
proof fn lemma_replaced(
    aps: Seq<AccessPointInfo>,
    k: int,
    before: Seq<Station>,
    j: int,
    p: int,
    s: Station,
    after: Seq<Station>,
)
    requires
        0 <= k < aps.len(),
        stations_of(aps, k, before),
        usable(aps[k]),
        s.ssid@ == ap_text(aps[k])->Some_0,
        s.quality == aps[k].strength,
        0 <= j < before.len(),
        before[j].ssid@ == s.ssid@,
        before[j].quality < s.quality,
        0 <= p <= before.len() - 1,
        after == before.remove(j).insert(p, s),
        strictly_descending(after),
    ensures
        stations_of(aps, k + 1, after),
{
    let mid = before.remove(j);
    before.remove_ensures(j);
    mid.insert_ensures(p, s);
    let t = s.ssid@;
    assert forall|i: int| 0 <= i < mid.len() implies #[trigger] mid[i] == before[
        if i < j { i } else { i + 1 }
    ] by {}
    assert forall|i: int| 0 <= i < mid.len() implies (#[trigger] mid[i]).ssid@ != t by {
        let oi = if i < j { i } else { i + 1 };
        if oi < j {
            assert(before[oi].ssid@ != before[j].ssid@);
        } else {
            assert(before[j].ssid@ != before[oi].ssid@);
        }
    }
    assert forall|i: int| 0 <= i < after.len() && i != p implies #[trigger] after[i] == mid[
        if i < p { i } else { i - 1 }
    ] by {
        if i > p {
            assert(after[(i - 1) + 1] == mid[i - 1]);
        }
    }
    assert forall|a: int, b: int| 0 <= a < b < after.len() implies (#[trigger] after[a]).ssid@ != (
    #[trigger] after[b]).ssid@ by {
        let oa = if a < p { a } else { a - 1 };
        let ob = if b < p { b } else { b - 1 };
        if a != p && b != p {
            let ba = if oa < j { oa } else { oa + 1 };
            let bb = if ob < j { ob } else { ob + 1 };
            assert(after[a] == before[ba]);
            assert(after[b] == before[bb]);
            assert(before[ba].ssid@ != before[bb].ssid@);
        } else if a == p {
            assert(after[b] == mid[ob]);
        } else {
            assert(after[a] == mid[oa]);
        }
    }
    assert forall|i: int| 0 <= i < after.len() implies (#[trigger] after[i]).ssid@.len() > 0 && heard(
        aps,
        k + 1,
        after[i].ssid@,
        after[i].quality,
    ) by {
        if i == p {
            assert(0 <= k < k + 1 && ap_text(aps[k]) == Some(after[i].ssid@) && aps[k].strength
                == after[i].quality);
        } else {
            let oi = if i < p { i } else { i - 1 };
            let bi = if oi < j { oi } else { oi + 1 };
            assert(after[i] == before[bi]);
            lemma_heard_grows(aps, k, before[bi].ssid@, before[bi].quality);
        }
    }
    assert forall|i: int, m: int|
        0 <= i < after.len() && 0 <= m < k + 1 && ap_text(#[trigger] aps[m]) == Some((#[trigger] after[i]).ssid@)
        implies aps[m].strength <= after[i].quality by {
        if i == p {
            if m < k {
                assert(aps[m].strength <= before[j].quality);
            }
        } else {
            let oi = if i < p { i } else { i - 1 };
            let bi = if oi < j { oi } else { oi + 1 };
            assert(after[i] == before[bi]);
            if m < k {
                assert(aps[m].strength <= before[bi].quality);
            } else {
                assert(mid[oi].ssid@ != t);
            }
        }
    }
    assert forall|m: int| 0 <= m < k + 1 && usable(#[trigger] aps[m]) implies exists|i: int|
        0 <= i < after.len() && (#[trigger] after[i]).ssid@ == ap_text(aps[m])->Some_0 by {
        if m == k {
            assert(after[p].ssid@ == ap_text(aps[m])->Some_0);
        } else {
            let w = choose|w: int| 0 <= w < before.len() && (#[trigger] before[w]).ssid@ == ap_text(aps[m])->Some_0;
            if w == j {
                assert(after[p].ssid@ == ap_text(aps[m])->Some_0);
            } else {
                let mw = if w < j { w } else { w - 1 };
                assert(mid[mw] == before[w]);
                let i = if mw < p { mw } else { mw + 1 };
                assert(after[i] == mid[mw]);
            }
        }
    }
}

proof fn lemma_station_gt_asymmetric(a: Station, b: Station)
    requires
        station_gt(a, b),
    ensures
        !station_gt(b, a),
{
    if station_gt(b, a) {
        lemma_text_lt_transitive(a.ssid@, b.ssid@, a.ssid@);
        lemma_text_lt_irreflexive(a.ssid@);
    }
}

/// Two stations name the same network with the same quality.
pub open spec fn same_entry(a: Station, b: Station) -> bool {
    a.ssid@ == b.ssid@ && a.quality == b.quality
}

proof fn lemma_entry_in_other(aps: Seq<AccessPointInfo>, n: int, r1: Seq<Station>, r2: Seq<Station>, i: int)
    requires
        0 <= n <= aps.len(),
        stations_of(aps, n, r1),
        stations_of(aps, n, r2),
        0 <= i < r1.len(),
    ensures
        exists|j: int| 0 <= j < r2.len() && same_entry(r1[i], #[trigger] r2[j]),
{
    let t = r1[i].ssid@;
    assert(heard(aps, n, t, r1[i].quality));
    let m = choose|m: int| 0 <= m < n && #[trigger] ap_text(aps[m]) == Some(t) && aps[m].strength == r1[i].quality;
    assert(usable(aps[m]));
    let j = choose|j: int| 0 <= j < r2.len() && (#[trigger] r2[j]).ssid@ == ap_text(aps[m])->Some_0;
    assert(aps[m].strength <= r2[j].quality);
    assert(heard(aps, n, r2[j].ssid@, r2[j].quality));
    let m2 = choose|m2: int|
        0 <= m2 < n && #[trigger] ap_text(aps[m2]) == Some(r2[j].ssid@) && aps[m2].strength == r2[j].quality;
    assert(aps[m2].strength <= r1[i].quality);
    assert(same_entry(r1[i], r2[j]));
}

proof fn lemma_increasing_bounds(f: spec_fn(int) -> int, n1: int, n2: int)
    requires
        0 <= n1,
        0 <= n2,
        forall|i: int, k: int| 0 <= i < k < n1 ==> #[trigger] f(i) < #[trigger] f(k),
        forall|i: int| 0 <= i < n1 ==> 0 <= #[trigger] f(i) < n2,
    ensures
        n1 <= n2,
        forall|i: int| 0 <= i < n1 ==> i <= #[trigger] f(i) <= i + n2 - n1,
{
    assert forall|i: int| 0 <= i < n1 implies i <= #[trigger] f(i) by {
        lemma_increasing_lower(f, n1, n2, i);
    }
    assert forall|i: int| 0 <= i < n1 implies #[trigger] f(i) <= i + n2 - n1 by {
        lemma_increasing_upper(f, n1, n2, i);
    }
    if n1 > 0 {
        assert(n1 - 1 <= f(n1 - 1));
        assert(f(n1 - 1) < n2);
    }
}

proof fn lemma_increasing_lower(f: spec_fn(int) -> int, n1: int, n2: int, i: int)
    requires
        0 <= i < n1,
        forall|a: int, k: int| 0 <= a < k < n1 ==> #[trigger] f(a) < #[trigger] f(k),
        forall|a: int| 0 <= a < n1 ==> 0 <= #[trigger] f(a) < n2,
    ensures
        i <= f(i),
    decreases i,
{
    if i > 0 {
        lemma_increasing_lower(f, n1, n2, i - 1);
        assert(f(i - 1) < f(i));
    }
}

proof fn lemma_increasing_upper(f: spec_fn(int) -> int, n1: int, n2: int, i: int)
    requires
        0 <= i < n1,
        forall|a: int, k: int| 0 <= a < k < n1 ==> #[trigger] f(a) < #[trigger] f(k),
        forall|a: int| 0 <= a < n1 ==> 0 <= #[trigger] f(a) < n2,
    ensures
        f(i) <= i + n2 - n1,
    decreases n1 - i,
{
    if i < n1 - 1 {
        lemma_increasing_upper(f, n1, n2, i + 1);
        assert(f(i) < f(i + 1));
    }
}

/// Where `r1[i]` stands in `r2`.
spec fn position_in(r1: Seq<Station>, r2: Seq<Station>, i: int) -> int {
    choose|j: int| 0 <= j < r2.len() && same_entry(r1[i], #[trigger] r2[j])
}

proof fn lemma_position_increasing(aps: Seq<AccessPointInfo>, n: int, r1: Seq<Station>, r2: Seq<Station>)
    requires
        0 <= n <= aps.len(),
        stations_of(aps, n, r1),
        stations_of(aps, n, r2),
    ensures
        forall|i: int| 0 <= i < r1.len() ==> 0 <= #[trigger] position_in(r1, r2, i) < r2.len() && same_entry(
            r1[i],
            r2[position_in(r1, r2, i)],
        ),
        forall|i: int, k: int| 0 <= i < k < r1.len() ==> position_in(r1, r2, i) < position_in(r1, r2, k),
{
    assert forall|i: int| 0 <= i < r1.len() implies 0 <= #[trigger] position_in(r1, r2, i) < r2.len()
        && same_entry(r1[i], r2[position_in(r1, r2, i)]) by {
        lemma_entry_in_other(aps, n, r1, r2, i);
    }
    assert forall|i: int, k: int| 0 <= i < k < r1.len() implies position_in(r1, r2, i) < position_in(r1, r2, k) by {
        let a = position_in(r1, r2, i);
        let b = position_in(r1, r2, k);
        assert(station_gt(r1[i], r1[k]));
        assert(station_gt(r2[a], r2[b]));
        if a == b {
            assert(r1[i].ssid@ != r1[k].ssid@);
        } else if b < a {
            assert(station_gt(r2[b], r2[a]));
            lemma_station_gt_asymmetric(r2[a], r2[b]);
        }
    }
}

/// The derived station list is determined by the scan: two lists that both
/// meet `stations_of` for the same access points hold the same entries in
/// the same order.
pub proof fn lemma_stations_unique(aps: Seq<AccessPointInfo>, n: int, r1: Seq<Station>, r2: Seq<Station>)
    requires
        0 <= n <= aps.len(),
        stations_of(aps, n, r1),
        stations_of(aps, n, r2),
    ensures
        r1.len() == r2.len(),
        forall|i: int| 0 <= i < r1.len() ==> same_entry(#[trigger] r1[i], r2[i]),
{
    lemma_position_increasing(aps, n, r1, r2);
    lemma_position_increasing(aps, n, r2, r1);
    let f = |i: int| position_in(r1, r2, i);
    let g = |i: int| position_in(r2, r1, i);
    lemma_increasing_bounds(f, r1.len() as int, r2.len() as int);
    lemma_increasing_bounds(g, r2.len() as int, r1.len() as int);
    assert forall|i: int| 0 <= i < r1.len() implies same_entry(#[trigger] r1[i], r2[i]) by {
        assert(f(i) == i);
    }
}

/// The list of scanned networks handed to a caller.
pub struct NetworkList {
    pub stations: Vec<Station>,
}

impl NetworkList {
    pub fn new(stations: Vec<Station>) -> (r: NetworkList)
        ensures
            r.stations@ == stations@,
    {
        NetworkList { stations }
    }
}

/// Two station lists name the same networks with the same qualities.
pub open spec fn same_stations(a: Seq<Station>, b: Seq<Station>) -> bool {
    &&& a.len() == b.len()
    &&& forall|i: int| 0 <= i < a.len() ==> (#[trigger] a[i]).ssid@ == b[i].ssid@ && a[i].quality == b[i].quality
}

/// A copy of a station list.
pub fn copy_stations(v: &Vec<Station>) -> (r: Vec<Station>)
    ensures
        same_stations(r@, v@),
{
    let mut r: Vec<Station> = Vec::new();
    let mut i: usize = 0;
    while i < v.len()
        invariant
            i <= v@.len(),
            r@.len() == i,
            forall|k: int| 0 <= k < i ==> (#[trigger] r@[k]).ssid@ == v@[k].ssid@ && r@[k].quality == v@[k].quality,
        decreases v@.len() - i,
    {
        r.push(v[i].duplicate());
        i = i + 1;
    }
    r
}

/// Derives the station list from a scan: access points whose SSID is not
/// valid UTF-8 or is empty are left out, each SSID is kept once with the
/// strongest signal seen for it, and the list is ordered by strength
/// descending, then by SSID descending.
pub fn derive_stations(aps: &Vec<AccessPointInfo>) -> (r: Vec<Station>)
    ensures
        stations_of(aps@, aps@.len() as int, r@),
{
    let mut r: Vec<Station> = Vec::new();
    let mut k: usize = 0;
    while k < aps.len()
        invariant
            k <= aps@.len(),
            stations_of(aps@, k as int, r@),
        decreases aps@.len() - k,
    {
        let ghost before = r@;
        let ap = &aps[k];
        let q = ap.strength;
        let mut text: Option<String> = None;
        if let Some(bytes) = &ap.ssid {
            text = ssid_to_string(bytes.as_slice());
        }
        assert(text matches Some(t) ==> ap_text(aps@[k as int]) == Some(t@));
        assert(text is None ==> ap_text(aps@[k as int]) is None);
        if let Some(t) = text {
            if t.as_str().unicode_len() > 0 {
                match find_station(&r, &t) {
                    Some(j) => {
                        if r[j].quality < q {
                            let ghost tv = t@;
                            proof {
                                before.remove_ensures(j as int);
                            }
                            r.remove(j);
                            let ghost removed = r@;
                            assert(strictly_descending(removed)) by {
                                assert forall|a: int, b: int| 0 <= a < b < removed.len() implies station_gt(
                                    #[trigger] removed[a],
                                    #[trigger] removed[b],
                                ) by {
                                    if b < j {
                                    } else if a < j {
                                        assert(removed[b] == before[b + 1]);
                                    } else {
                                        assert(removed[a] == before[a + 1]);
                                        assert(removed[b] == before[b + 1]);
                                    }
                                }
                            }
                            assert forall|i: int| 0 <= i < removed.len() implies (#[trigger] removed[i]).ssid@ != tv by {
                                if i < j {
                                    assert(before[i].ssid@ != before[j as int].ssid@);
                                } else {
                                    assert(removed[i] == before[i + 1]);
                                    assert(before[i + 1].ssid@ != before[j as int].ssid@);
                                }
                            }
                            let st = Station::new(t, q);
                            let ghost sg = st;
                            let p = insert_sorted(&mut r, st);
                            proof {
                                lemma_replaced(aps@, k as int, before, j as int, p as int, sg, r@);
                            }
                        } else {
                            proof {
                                lemma_kept(aps@, k as int, r@);
                            }
                        }
                    },
                    None => {
                        let st = Station::new(t, q);
                        let ghost sg = st;
                        let p = insert_sorted(&mut r, st);
                        proof {
                            lemma_added(aps@, k as int, before, p as int, sg, r@);
                        }
                    },
                }
            } else {
                proof {
                    lemma_kept(aps@, k as int, r@);
                }
            }
        } else {
            proof {
                lemma_kept(aps@, k as int, r@);
            }
        }
        k = k + 1;
    }
    r
}

} // verus!
