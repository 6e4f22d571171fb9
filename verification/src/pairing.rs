//! Pairing with trusted devices: pairings expire after 24 hours, and at
//! most three pairing attempts may be pending at once.

use vstd::prelude::*;
use crate::config::{AppConfig, PairedDevice};
use crate::keyed::{lemma_entries_map_dom, lemma_entries_map_value};
use crate::text::{digit_char, owned, push_char};

verus! {

/// A pairing expires this many seconds after it was made (24 hours).
pub const PAIRING_EXPIRY_SECS: u64 = 24 * 60 * 60;

/// Maximum number of pairing attempts pending at once.
pub const MAX_PAIRING_ATTEMPTS: usize = 3;

/// Seconds between `paired_at` and `now`, zero when `now` is earlier.
pub open spec fn elapsed(paired_at: u64, now: u64) -> int {
    if now >= paired_at {
        now - paired_at
    } else {
        0
    }
}

/// A pairing is still valid less than 24 hours after it was made.
pub open spec fn is_fresh(device: PairedDevice, now: u64) -> bool {
    elapsed(device.paired_at, now) < PAIRING_EXPIRY_SECS
}

/// The pairings of `m` that are still valid at `now`.
pub open spec fn fresh_only(m: Map<Seq<char>, PairedDevice>, now: u64) -> Map<
    Seq<char>,
    PairedDevice,
> {
    Map::new(|k: Seq<char>| m.contains_key(k) && is_fresh(m[k], now), |k: Seq<char>| m[k])
}

/// Whether `endpoint_id` is paired and the pairing is still valid at `now`.
pub open spec fn paired_at_time(m: Map<Seq<char>, PairedDevice>, endpoint_id: Seq<char>, now: u64) -> bool {
    m.contains_key(endpoint_id) && is_fresh(m[endpoint_id], now)
}

/// The current Unix time in seconds (zero if the clock is before 1970).
#[verifier::external_body]
fn now_timestamp() -> u64 {
    std::time::SystemTime::now().duration_since(std::time::UNIX_EPOCH).unwrap_or(
        std::time::Duration::ZERO,
    ).as_secs()
}

fn device_is_fresh(device: &PairedDevice, now: u64) -> (r: bool)
    ensures
        r == is_fresh(*device, now),
{
    let elapsed = now.saturating_sub(device.paired_at);
    elapsed < PAIRING_EXPIRY_SECS
}

/// Whether `endpoint_id` is paired in `config` and the pairing is still
/// valid at time `now`.
pub fn is_paired_at(config: &AppConfig, endpoint_id: &str, now: u64) -> (r: bool)
    requires
        config.pairing.wf(),
    ensures
        r == paired_at_time(config.pairing@, endpoint_id@, now),
{
    match config.pairing.get(endpoint_id) {
        Some(device) => device_is_fresh(device, now),
        None => false,
    }
}

/// Whether `endpoint_id` is paired in `config` and the pairing is still
/// valid now. Whatever the clock says, an unknown device is never paired.
pub fn is_paired(config: &AppConfig, endpoint_id: &str) -> (r: bool)
    requires
        config.pairing.wf(),
    ensures
        exists|now: u64| r == paired_at_time(config.pairing@, endpoint_id@, now),
        r ==> config.pairing@.contains_key(endpoint_id@),
{
    let now = now_timestamp();
    is_paired_at(config, endpoint_id, now)
}

/// Drop the pairings that are no longer valid at `now`.
pub fn remove_expired(config: &mut AppConfig, now: u64)
    requires
        old(config).pairing.wf(),
    ensures
        final(config).pairing.wf(),
        final(config).pairing@ == fresh_only(old(config).pairing@, now),
        final(config).download_path == old(config).download_path,
{
    let ghost m0 = config.pairing@;
    let mut i: usize = 0;
    while i < config.pairing.len()
        invariant
            config.pairing.wf(),
            config.download_path == old(config).download_path,
            i <= config.pairing.entries().len(),
            fresh_only(config.pairing@, now) == fresh_only(m0, now),
            forall|j: int| 0 <= j < i ==> is_fresh(#[trigger] config.pairing.entries()[j].1, now),
        decreases config.pairing.entries().len() - i,
    {
        let fresh = device_is_fresh(&config.pairing.entry_at(i).1, now);
        if fresh {
            i = i + 1;
        } else {
            let ghost before = config.pairing@;
            let ghost before_s = config.pairing.entries();
            proof {
                config.pairing.lemma_view();
                lemma_entries_map_value(config.pairing.entries(), i as int);
            }
            let removed = config.pairing.remove_at(i);
            proof {
                assert(fresh_only(before.remove(removed.0@), now) =~= fresh_only(before, now));
                assert forall|j: int| 0 <= j < i implies is_fresh(
                    #[trigger] config.pairing.entries()[j].1,
                    now,
                ) by {
                    assert(config.pairing.entries()[j] == before_s[j]);
                }
            }
        }
    }
    proof {
        let m = config.pairing@;
        let s = config.pairing.entries();
        config.pairing.lemma_view();
        assert forall|k: Seq<char>| m.contains_key(k) implies is_fresh(m[k], now) by {
            lemma_entries_map_dom(s, k);
            let j = choose|j: int| 0 <= j < s.len() && s[j].0@ == k;
            lemma_entries_map_value(s, j);
        }
        assert(fresh_only(m, now) =~= m);
    }
}

/// Record that `endpoint_id` is paired as of `now`, then drop pairings that
/// are no longer valid.
pub fn add_pairing_at(config: &mut AppConfig, endpoint_id: &str, peer_name: &str, now: u64)
    requires
        old(config).pairing.wf(),
    ensures
        final(config).pairing.wf(),
        final(config).pairing@.contains_key(endpoint_id@),
        final(config).pairing@ == fresh_only(
            old(config).pairing@.insert(endpoint_id@, final(config).pairing@[endpoint_id@]),
            now,
        ),
        final(config).pairing@[endpoint_id@].endpoint_id@ == endpoint_id@,
        final(config).pairing@[endpoint_id@].peer_name@ == peer_name@,
        final(config).pairing@[endpoint_id@].paired_at == now,
        final(config).download_path == old(config).download_path,
{
    let device = PairedDevice {
        endpoint_id: owned(endpoint_id),
        peer_name: owned(peer_name),
        paired_at: now,
    };
    config.pairing.insert(owned(endpoint_id), device);
    remove_expired(config, now);
}

/// Record that `endpoint_id` is paired as of now, then drop pairings that
/// are no longer valid.
pub fn add_pairing(config: &mut AppConfig, endpoint_id: &str, peer_name: &str)
    requires
        old(config).pairing.wf(),
    ensures
        final(config).pairing.wf(),
        final(config).pairing@.contains_key(endpoint_id@),
        final(config).pairing@[endpoint_id@].endpoint_id@ == endpoint_id@,
        final(config).pairing@[endpoint_id@].peer_name@ == peer_name@,
        final(config).pairing@ == fresh_only(
            old(config).pairing@.insert(endpoint_id@, final(config).pairing@[endpoint_id@]),
            final(config).pairing@[endpoint_id@].paired_at,
        ),
        final(config).download_path == old(config).download_path,
{
    let now = now_timestamp();
    add_pairing_at(config, endpoint_id, peer_name, now);
}

/// Forget the pairing with `endpoint_id`, if there is one.
pub fn remove_pairing(config: &mut AppConfig, endpoint_id: &str)
    requires
        old(config).pairing.wf(),
    ensures
        final(config).pairing.wf(),
        final(config).pairing@ == old(config).pairing@.remove(endpoint_id@),
        final(config).download_path == old(config).download_path,
{
    let _ = config.pairing.remove(endpoint_id);
}

/// `(endpoint_id, peer_name)` of each entry still valid at `now`, in order.
pub open spec fn fresh_pairs(s: Seq<(String, PairedDevice)>, now: u64) -> Seq<
    (Seq<char>, Seq<char>),
>
    decreases s.len(),
{
    if s.len() == 0 {
        Seq::empty()
    } else if is_fresh(s.last().1, now) {
        fresh_pairs(s.drop_last(), now).push((s.last().1.endpoint_id@, s.last().1.peer_name@))
    } else {
        fresh_pairs(s.drop_last(), now)
    }
}

/// The views of a list of string pairs.
pub open spec fn pair_views(v: Seq<(String, String)>) -> Seq<(Seq<char>, Seq<char>)> {
    v.map_values(|p: (String, String)| (p.0@, p.1@))
}

/// `(endpoint_id, peer_name)` of every pairing still valid at `now`, in the
/// order in which the devices were first paired.
pub fn get_all_pairings_at(config: &AppConfig, now: u64) -> (r: Vec<(String, String)>)
    requires
        config.pairing.wf(),
    ensures
        pair_views(r@) == fresh_pairs(config.pairing.entries(), now),
{
    let mut r: Vec<(String, String)> = Vec::new();
    let n = config.pairing.len();
    let mut i: usize = 0;
    while i < n
        invariant
            i <= n,
            n == config.pairing.entries().len(),
            pair_views(r@) == fresh_pairs(config.pairing.entries().take(i as int), now),
        decreases n - i,
    {
        let e = config.pairing.entry_at(i);
        proof {
            assert(config.pairing.entries().take(i as int + 1).drop_last() =~= config.pairing.entries().take(i as int));
        }
        if device_is_fresh(&e.1, now) {
            let p = (e.1.endpoint_id.clone(), e.1.peer_name.clone());
            r.push(p);
            proof {
                assert(pair_views(r@) =~= pair_views(r@.drop_last()).push((p.0@, p.1@)));
            }
        }
        i = i + 1;
    }
    proof {
        assert(config.pairing.entries().take(n as int) =~= config.pairing.entries());
    }
    r
}

/// `(endpoint_id, peer_name)` of every pairing still valid now.
pub fn get_all_pairings(config: &AppConfig) -> (r: Vec<(String, String)>)
    requires
        config.pairing.wf(),
    ensures
        exists|now: u64| pair_views(r@) == fresh_pairs(config.pairing.entries(), now),
{
    let now = now_timestamp();
    get_all_pairings_at(config, now)
}

/// A fresh pairing is reported as paired for the next 24 hours and no
/// longer: right after `add_pairing_at(.., now)` the device is paired at
/// every time `t` with `now <= t < now + 24h`, and not from then on.
pub proof fn pairing_lasts_one_day(
    m: Map<Seq<char>, PairedDevice>,
    endpoint_id: Seq<char>,
    device: PairedDevice,
    now: u64,
    t: u64,
)
    requires
        device.paired_at == now,
        now <= t,
    ensures
        paired_at_time(fresh_only(m.insert(endpoint_id, device), now), endpoint_id, t) <==> t
            - now < PAIRING_EXPIRY_SECS,
{
}

/// Dropping expired pairings changes no answer of `is_paired_at` at the
/// same time.
pub proof fn expiry_keeps_answers(m: Map<Seq<char>, PairedDevice>, endpoint_id: Seq<char>, now: u64)
    ensures
        paired_at_time(fresh_only(m, now), endpoint_id, now) == paired_at_time(m, endpoint_id, now),
{
}

/// A removed pairing is never reported as paired.
pub proof fn removed_pairing_is_gone(m: Map<Seq<char>, PairedDevice>, endpoint_id: Seq<char>, t: u64)
    ensures
        !paired_at_time(m.remove(endpoint_id), endpoint_id, t),
{
}

/// A pairing recorded at `paired_at` has expired at `now`: the clock reads
/// at least 24 hours later.
pub open spec fn expired_at(paired_at: u64, now: u64) -> bool {
    now >= paired_at && now - paired_at >= PAIRING_EXPIRY_SECS
}

/// The listing at `now` holds exactly the devices whose pairing has not
/// expired at `now`, each as its `(endpoint_id, peer_name)`.
pub proof fn listing_holds_the_unexpired(s: Seq<(String, PairedDevice)>, now: u64, p: (
    Seq<char>,
    Seq<char>,
))
    ensures
        fresh_pairs(s, now).contains(p) <==> exists|j: int|
            0 <= j < s.len() && !expired_at(#[trigger] s[j].1.paired_at, now) && p == (
                s[j].1.endpoint_id@,
                s[j].1.peer_name@,
            ),
    decreases s.len(),
{
    if s.len() > 0 {
        let q = s.drop_last();
        listing_holds_the_unexpired(q, now, p);
        let last = s.last().1;
        let x = (last.endpoint_id@, last.peer_name@);
        vstd::seq_lib::lemma_seq_contains_after_push(fresh_pairs(q, now), x, p);
        assert(is_fresh(last, now) <==> !expired_at(last.paired_at, now));
        assert(s[s.len() - 1] == s.last());
        if exists|j: int|
            0 <= j < q.len() && !expired_at(#[trigger] q[j].1.paired_at, now) && p == (
                q[j].1.endpoint_id@,
                q[j].1.peer_name@,
            ) {
            let j = choose|j: int|
                0 <= j < q.len() && !expired_at(#[trigger] q[j].1.paired_at, now) && p == (
                    q[j].1.endpoint_id@,
                    q[j].1.peer_name@,
                );
            assert(s[j] == q[j]);
        }
        if exists|j: int|
            0 <= j < s.len() && !expired_at(#[trigger] s[j].1.paired_at, now) && p == (
                s[j].1.endpoint_id@,
                s[j].1.peer_name@,
            ) {
            let j = choose|j: int|
                0 <= j < s.len() && !expired_at(#[trigger] s[j].1.paired_at, now) && p == (
                    s[j].1.endpoint_id@,
                    s[j].1.peer_name@,
                );
            if j < s.len() - 1 {
                assert(q[j] == s[j]);
            }
        }
    }
}

/// A device is paired at `now` exactly when it is in the table and its
/// pairing has not expired at `now`.
pub proof fn paired_means_unexpired(m: Map<Seq<char>, PairedDevice>, endpoint_id: Seq<char>, now: u64)
    ensures
        paired_at_time(m, endpoint_id, now) <==> m.contains_key(endpoint_id) && !expired_at(
            m[endpoint_id].paired_at,
            now,
        ),
{
}

/// A count of pairing attempts in progress, never above
/// `MAX_PAIRING_ATTEMPTS`.
pub struct PairingSlots {
    active: usize,
}

/// Proof that a pairing attempt holds one of the slots; hand it back with
/// `release` when the attempt ends.
pub struct PairingGuard {
    _slot: (),
}

impl PairingSlots {
    /// Number of attempts in progress.
    pub closed spec fn spec_active(&self) -> nat {
        self.active as nat
    }

    /// The count never exceeds the limit.
    pub open spec fn wf(&self) -> bool {
        self.spec_active() <= MAX_PAIRING_ATTEMPTS
    }

    /// No attempt in progress.
    pub fn new() -> (r: PairingSlots)
        ensures
            r.wf(),
            r.spec_active() == 0,
    {
        PairingSlots { active: 0 }
    }

    /// Number of attempts in progress.
    pub fn active(&self) -> (n: usize)
        ensures
            n == self.spec_active(),
    {
        self.active
    }
}

impl PairingGuard {
    /// Take a slot for a pairing attempt, or `None` when
    /// `MAX_PAIRING_ATTEMPTS` attempts are already in progress.
    pub fn try_acquire(slots: &mut PairingSlots) -> (r: Option<PairingGuard>)
        requires
            old(slots).wf(),
        ensures
            final(slots).wf(),
            old(slots).spec_active() < MAX_PAIRING_ATTEMPTS ==> r is Some
                && final(slots).spec_active() == old(slots).spec_active() + 1,
            old(slots).spec_active() >= MAX_PAIRING_ATTEMPTS ==> r is None
                && final(slots).spec_active() == old(slots).spec_active(),
    {
        if slots.active >= MAX_PAIRING_ATTEMPTS {
            return None;
        }
        slots.active = slots.active + 1;
        Some(PairingGuard { _slot: () })
    }

    /// Give the slot back at the end of the attempt.
    pub fn release(self, slots: &mut PairingSlots)
        requires
            old(slots).wf(),
            old(slots).spec_active() > 0,
        ensures
            final(slots).wf(),
            final(slots).spec_active() == old(slots).spec_active() - 1,
    {
        slots.active = slots.active - 1;
    }
}

/// The four-digit, zero-padded decimal form of `n < 10000`.
pub open spec fn four_digits(n: nat) -> Seq<char> {
    seq![digit_char(n / 1000), digit_char((n / 100) % 10), digit_char((n / 10) % 10), digit_char(n % 10)]
}

/// An ASCII decimal digit.
pub open spec fn is_ascii_digit(c: char) -> bool {
    '0' <= c && c <= '9'
}

/// The code shown for the random value `value`: `value % 10000`, printed
/// with four digits.
pub fn format_verification_code(value: u32) -> (r: String)
    ensures
        r@ == four_digits((value % 10000) as nat),
        r@.len() == 4,
        forall|i: int| 0 <= i < 4 ==> is_ascii_digit(#[trigger] r@[i]),
{
    let code = value % 10000;
    let mut s = String::new();
    push_char(&mut s, (('0' as u8) + ((code / 1000) as u8)) as char);
    push_char(&mut s, (('0' as u8) + (((code / 100) % 10) as u8)) as char);
    push_char(&mut s, (('0' as u8) + (((code / 10) % 10) as u8)) as char);
    push_char(&mut s, (('0' as u8) + ((code % 10) as u8)) as char);
    s
}

/// A random 32-bit value: the first four bytes of a fresh version-4 UUID
/// (`uuid::Uuid::new_v4`, drawn from the OS random source), in native byte
/// order. Nothing is stated of the value.
#[verifier::external_body]
fn random_code_value() -> u32 {
    let uuid = uuid::Uuid::new_v4();
    let bytes = uuid.as_bytes();
    u32::from_ne_bytes([bytes[0], bytes[1], bytes[2], bytes[3]])
}

/// A fresh random four-digit verification code.
pub fn generate_verification_code() -> (r: String)
    ensures
        r@.len() == 4,
        forall|i: int| 0 <= i < 4 ==> is_ascii_digit(#[trigger] r@[i]),
{
    let value = random_code_value();
    format_verification_code(value)
}

} // verus!
