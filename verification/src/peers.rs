//! The list of devices seen on the LAN, as the user interface keeps it:
//! one entry per address, forgotten when not heard from for a while, and
//! shown as `hostname (ip)` lines in sorted order.

use vstd::prelude::*;
use crate::keyed::{lemma_entries_map_dom, lemma_entries_map_value, KeyedList};
use crate::text::{chars_of, owned};
use crate::ui::{peer_label, peer_label_text};

verus! {

/// Seconds after which a device not heard from is dropped from the list.
pub const PEER_TIMEOUT_SECS: u64 = 12;

/// The same limit in nanoseconds, the unit of the list's clock.
pub const PEER_TIMEOUT_NANOS: u64 = 12_000_000_000;

/// `a` comes before `b` or equals it, comparing characters by code point
/// from the left, a prefix first (the order of `str` and `String`).
pub open spec fn chars_le(a: Seq<char>, b: Seq<char>) -> bool
    decreases a.len(),
{
    if a.len() == 0 {
        true
    } else if b.len() == 0 {
        false
    } else if a[0] != b[0] {
        (a[0] as int) < (b[0] as int)
    } else {
        chars_le(a.drop_first(), b.drop_first())
    }
}

/// Every text is in order with itself.
pub proof fn lemma_chars_le_refl(a: Seq<char>)
    ensures
        chars_le(a, a),
    decreases a.len(),
{
    if a.len() > 0 {
        lemma_chars_le_refl(a.drop_first());
    }
}

/// Any two texts are in order one way or the other.
pub proof fn lemma_chars_le_total(a: Seq<char>, b: Seq<char>)
    ensures
        chars_le(a, b) || chars_le(b, a),
    decreases a.len(),
{
    if a.len() > 0 && b.len() > 0 {
        if a[0] == b[0] {
            lemma_chars_le_total(a.drop_first(), b.drop_first());
        } else {
            assert((a[0] as int) != (b[0] as int));
        }
    }
}

/// The order is transitive.
pub proof fn lemma_chars_le_trans(a: Seq<char>, b: Seq<char>, c: Seq<char>)
    requires
        chars_le(a, b),
        chars_le(b, c),
    ensures
        chars_le(a, c),
    decreases a.len(),
{
    if a.len() > 0 && b.len() > 0 && c.len() > 0 && a[0] == b[0] && b[0] == c[0] {
        lemma_chars_le_trans(a.drop_first(), b.drop_first(), c.drop_first());
    }
}

/// Comparing from position `i` on decides when the texts agree before it.
proof fn lemma_chars_le_skip(a: Seq<char>, b: Seq<char>, i: int)
    requires
        0 <= i < a.len(),
        i < b.len(),
        a[i] == b[i],
    ensures
        chars_le(a.skip(i), b.skip(i)) == chars_le(a.skip(i + 1), b.skip(i + 1)),
{
    assert(a.skip(i).drop_first() =~= a.skip(i + 1));
    assert(b.skip(i).drop_first() =~= b.skip(i + 1));
}

/// Whether `a` comes before `b` or equals it.
pub fn text_le(a: &str, b: &str) -> (r: bool)
    ensures
        r == chars_le(a@, b@),
{
    let x = chars_of(a);
    let y = chars_of(b);
    let mut i: usize = 0;
    assert(x@.skip(0) =~= x@);
    assert(y@.skip(0) =~= y@);
    while i < x.len() && i < y.len() && x[i] == y[i]
        invariant
            i <= x@.len(),
            i <= y@.len(),
            x@ == a@,
            y@ == b@,
            chars_le(a@, b@) == chars_le(x@.skip(i as int), y@.skip(i as int)),
        decreases x@.len() - i,
    {
        proof {
            lemma_chars_le_skip(x@, y@, i as int);
        }
        i = i + 1;
    }
    if i == x.len() {
        assert(x@.skip(i as int).len() == 0);
        true
    } else if i == y.len() {
        assert(y@.skip(i as int).len() == 0);
        false
    } else {
        assert(x@.skip(i as int)[0] == x@[i as int]);
        assert(y@.skip(i as int)[0] == y@[i as int]);
        x[i] < y[i]
    }
}

/// The texts of a list of strings.
pub open spec fn texts(s: Seq<String>) -> Seq<Seq<char>> {
    s.map_values(|t: String| t@)
}

/// A list of texts in order.
pub open spec fn sorted_texts(s: Seq<Seq<char>>) -> bool {
    forall|i: int, j: int| 0 <= i < j < s.len() ==> #[trigger] chars_le(s[i], s[j])
}

/// Insert `x` into a sorted list, keeping it sorted.
fn insert_sorted(v: &mut Vec<String>, x: String)
    requires
        sorted_texts(texts(old(v)@)),
    ensures
        sorted_texts(texts(final(v)@)),
        texts(final(v)@).to_multiset() == texts(old(v)@).to_multiset().insert(x@),
{
    let ghost s = texts(v@);
    let mut k: usize = 0;
    while k < v.len() && text_le(v[k].as_str(), x.as_str())
        invariant
            k <= v@.len(),
            s == texts(v@),
            sorted_texts(s),
            forall|j: int| 0 <= j < k ==> chars_le(#[trigger] s[j], x@),
        decreases v@.len() - k,
    {
        k = k + 1;
    }
    proof {
        if k < s.len() {
            lemma_chars_le_total(s[k as int], x@);
            assert forall|j: int| k <= j < s.len() implies chars_le(x@, #[trigger] s[j]) by {
                if j > k {
                    lemma_chars_le_trans(x@, s[k as int], s[j]);
                }
            }
        }
    }
    let ghost xv = x@;
    v.insert(k, x);
    proof {
        let t = texts(v@);
        assert(t =~= s.insert(k as int, xv));
        assert forall|i: int, j: int| 0 <= i < j < t.len() implies #[trigger] chars_le(t[i], t[j]) by {
            if j < k {
            } else if i < k && j == k {
            } else if i < k && j > k {
                lemma_chars_le_trans(s[i], xv, s[j - 1]);
            } else if i == k {
            } else {
                assert(chars_le(s[i - 1], s[j - 1]));
            }
        }
        vstd::seq_lib::to_multiset_insert(s, k as int, xv);
    }
}

/// `names` in order (the local file list is shown this way).
pub fn sorted(names: Vec<String>) -> (r: Vec<String>)
    ensures
        sorted_texts(texts(r@)),
        texts(r@).to_multiset() == texts(names@).to_multiset(),
{
    let mut r: Vec<String> = Vec::new();
    let mut rest = names;
    let ghost all = texts(rest@);
    proof {
        assert(texts(r@) =~= Seq::<Seq<char>>::empty());
        assert(all.take(0) =~= Seq::<Seq<char>>::empty());
    }
    let n = rest.len();
    let mut i: usize = 0;
    while i < n
        invariant
            i <= n,
            n == all.len(),
            rest@.len() == n - i,
            texts(rest@) == all.skip(i as int),
            sorted_texts(texts(r@)),
            texts(r@).to_multiset() == all.take(i as int).to_multiset(),
        decreases n - i,
    {
        let ghost before = rest@;
        let x = rest.remove(0);
        proof {
            assert(texts(before)[0] == before[0]@);
            assert(all.skip(i as int)[0] == all[i as int]);
            assert(x@ == all[i as int]);
            assert forall|k: int| 0 <= k < texts(rest@).len() implies texts(rest@)[k] == all.skip(
                i as int + 1,
            )[k] by {
                assert(rest@[k] == before[k + 1]);
                assert(texts(before)[k + 1] == all.skip(i as int)[k + 1]);
            }
            assert(texts(rest@) =~= all.skip(i as int + 1));
            assert(all.take(i as int + 1) =~= all.take(i as int).push(x@));
            vstd::seq_lib::to_multiset_build(all.take(i as int), x@);
        }
        insert_sorted(&mut r, x);
        i = i + 1;
    }
    proof {
        assert(all.take(n as int) =~= all);
    }
    r
}

/// A device heard on the LAN.
pub struct PeerInfo {
    pub ip: String,
    pub hostname: String,
    /// When it was last heard from, in nanoseconds of the list's clock.
    pub last_seen: u64,
}

/// Time since `last_seen` at `now` (none when the clock reads earlier).
pub open spec fn since(last_seen: u64, now: u64) -> int {
    if now >= last_seen {
        now - last_seen
    } else {
        0
    }
}

/// A device is listed while it was heard from less than
/// `PEER_TIMEOUT_SECS` ago.
pub open spec fn is_live(p: PeerInfo, now: u64) -> bool {
    since(p.last_seen, now) < PEER_TIMEOUT_NANOS
}

/// The devices of `m` still live at `now`.
pub open spec fn live_only(m: Map<Seq<char>, PeerInfo>, now: u64) -> Map<Seq<char>, PeerInfo> {
    Map::new(|k: Seq<char>| m.contains_key(k) && is_live(m[k], now), |k: Seq<char>| m[k])
}

/// A device stays listed for `PEER_TIMEOUT_SECS` after it was last heard
/// from, and no longer: once `seen` recorded it at `t`, pruning at a time
/// `now` with `t <= now` keeps it exactly when `now - t` is under the limit.
pub proof fn heard_device_stays_listed(
    m: Map<Seq<char>, PeerInfo>,
    ip: String,
    hostname: String,
    t: u64,
    now: u64,
)
    requires
        t <= now,
    ensures
        live_only(m.insert(ip@, PeerInfo { ip: ip, hostname: hostname, last_seen: t }), now).contains_key(ip@)
            <==> now - t < PEER_TIMEOUT_NANOS,
{
}

/// The line shown for each entry, in table order.
pub open spec fn entry_labels(s: Seq<(String, PeerInfo)>) -> Seq<Seq<char>> {
    s.map_values(|e: (String, PeerInfo)| peer_label_text(e.1.hostname@, e.1.ip@))
}

/// The devices heard on the LAN, by address.
pub struct PeerTable {
    peers: KeyedList<PeerInfo>,
}

impl PeerTable {
    /// The devices, by address.
    pub closed spec fn peers(&self) -> Map<Seq<char>, PeerInfo> {
        self.peers@
    }

    /// The devices in table order.
    pub closed spec fn entries(&self) -> Seq<(String, PeerInfo)> {
        self.peers.entries()
    }

    /// No address twice.
    pub closed spec fn wf(&self) -> bool {
        self.peers.wf()
    }

    /// No device.
    pub fn new() -> (r: PeerTable)
        ensures
            r.wf(),
            r.peers() == Map::<Seq<char>, PeerInfo>::empty(),
    {
        PeerTable { peers: KeyedList::new() }
    }

    /// Number of devices listed.
    pub fn len(&self) -> (n: usize)
        requires
            self.wf(),
        ensures
            n == self.peers().len(),
    {
        self.peers.len()
    }

    /// A device answered from `ip` at `now`: it is listed under that
    /// address with the name it gave, replacing what was listed there.
    pub fn seen(&mut self, ip: String, hostname: String, now: u64)
        requires
            old(self).wf(),
        ensures
            final(self).wf(),
            final(self).peers() == old(self).peers().insert(
                ip@,
                PeerInfo { ip: ip, hostname: hostname, last_seen: now },
            ),
    {
        let key = owned(ip.as_str());
        self.peers.insert(key, PeerInfo { ip, hostname, last_seen: now });
    }

    /// Drop the devices not heard from within `PEER_TIMEOUT_SECS` of `now`.
    pub fn prune(&mut self, now: u64)
        requires
            old(self).wf(),
        ensures
            final(self).wf(),
            final(self).peers() == live_only(old(self).peers(), now),
    {
        let ghost m0 = self.peers@;
        let mut i: usize = 0;
        while i < self.peers.len()
            invariant
                self.peers.wf(),
                i <= self.peers.entries().len(),
                live_only(self.peers@, now) == live_only(m0, now),
                forall|j: int| 0 <= j < i ==> is_live(#[trigger] self.peers.entries()[j].1, now),
            decreases self.peers.entries().len() - i,
        {
            let live = now.saturating_sub(self.peers.entry_at(i).1.last_seen) < PEER_TIMEOUT_NANOS;
            if live {
                i = i + 1;
            } else {
                let ghost before = self.peers@;
                let ghost before_s = self.peers.entries();
                proof {
                    self.peers.lemma_view();
                    lemma_entries_map_value(self.peers.entries(), i as int);
                }
                let removed = self.peers.remove_at(i);
                proof {
                    assert(live_only(before.remove(removed.0@), now) =~= live_only(before, now));
                    assert forall|j: int| 0 <= j < i implies is_live(
                        #[trigger] self.peers.entries()[j].1,
                        now,
                    ) by {
                        assert(self.peers.entries()[j] == before_s[j]);
                    }
                }
            }
        }
        proof {
            let m = self.peers@;
            let s = self.peers.entries();
            self.peers.lemma_view();
            assert forall|k: Seq<char>| m.contains_key(k) implies is_live(m[k], now) by {
                lemma_entries_map_dom(s, k);
                let j = choose|j: int| 0 <= j < s.len() && s[j].0@ == k;
                lemma_entries_map_value(s, j);
            }
            assert(live_only(m, now) =~= m);
        }
    }

    /// The device list as shown: `hostname (ip)` for each device, sorted.
    pub fn labels(&self) -> (r: Vec<String>)
        requires
            self.wf(),
        ensures
            sorted_texts(texts(r@)),
            texts(r@).to_multiset() == entry_labels(self.entries()).to_multiset(),
    {
        let mut r: Vec<String> = Vec::new();
        let n = self.peers.len();
        let mut i: usize = 0;
        proof {
            assert(texts(r@) =~= Seq::<Seq<char>>::empty());
            assert(entry_labels(self.entries().take(0)) =~= Seq::<Seq<char>>::empty());
        }
        while i < n
            invariant
                i <= n,
                n == self.peers.entries().len(),
                sorted_texts(texts(r@)),
                texts(r@).to_multiset() == entry_labels(self.peers.entries().take(i as int)).to_multiset(),
            decreases n - i,
        {
            let e = self.peers.entry_at(i);
            let label = peer_label(e.1.hostname.as_str(), e.1.ip.as_str());
            proof {
                let s = self.peers.entries();
                assert(entry_labels(s.take(i as int + 1)) =~= entry_labels(s.take(i as int)).push(label@));
                vstd::seq_lib::to_multiset_build(entry_labels(s.take(i as int)), label@);
            }
            insert_sorted(&mut r, label);
            i = i + 1;
        }
        proof {
            assert(self.peers.entries().take(n as int) =~= self.peers.entries());
        }
        r
    }
}

} // verus!
