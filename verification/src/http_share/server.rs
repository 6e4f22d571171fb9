//! The HTTP share server's own logic: the session token, the Host header
//! check, the Content-Security-Policy, and the share URL.

use vstd::prelude::*;
use crate::text::{chars_of, decimal, decimal_string, owned, push_str};

verus! {

/// Port of the HTTP share.
pub const HTTP_PORT: u16 = 8080;

/// The relay that public tunnels go through.
pub const BORE_SERVER: &'static str = "bore.pub";

/// A lowercase hexadecimal digit.
pub open spec fn is_lower_hex(c: char) -> bool {
    ('0' <= c && c <= '9') || ('a' <= c && c <= 'f')
}

/// uuid's `Uuid::new_v4().simple().to_string()`: a fresh random UUID
/// (drawn from the OS random source) in the simple format, which the uuid
/// source writes as 32 lowercase hex digits. Which digits is not stated.
#[verifier::external_body]
fn random_simple_uuid() -> (r: String)
    ensures
        r@.len() == 32,
        forall|i: int| 0 <= i < 32 ==> is_lower_hex(#[trigger] r@[i]),
{
    uuid::Uuid::new_v4().simple().to_string()
}

/// A fresh random session token: 32 lowercase hex digits (128 random bits
/// of a UUID), so that the share URL cannot be guessed.
pub fn generate_session_token() -> (r: String)
    ensures
        r@.len() == 32,
        forall|i: int| 0 <= i < 32 ==> is_lower_hex(#[trigger] r@[i]),
{
    random_simple_uuid()
}

/// A fresh random id for an upload request, in the same format as the
/// session token.
pub fn generate_request_id() -> (r: String)
    ensures
        r@.len() == 32,
        forall|i: int| 0 <= i < 32 ==> is_lower_hex(#[trigger] r@[i]),
{
    random_simple_uuid()
}

/// Whether `c` is alphabetic or numeric in Unicode (std's
/// `char::is_alphanumeric`).
pub uninterp spec fn char_is_alphanumeric(c: char) -> bool;

/// std's `char::is_alphanumeric`: the result is named `char_is_alphanumeric`.
#[verifier::external_body]
fn is_alphanumeric(c: char) -> (r: bool)
    ensures
        r == char_is_alphanumeric(c),
{
    c.is_alphanumeric()
}

/// An ASCII letter or digit.
pub open spec fn is_ascii_alphanumeric(c: char) -> bool {
    ('a' <= c && c <= 'z') || ('A' <= c && c <= 'Z') || ('0' <= c && c <= '9')
}

/// The characters a Host header may hold: letters and digits (ASCII ones,
/// and beyond ASCII whatever std counts as alphanumeric), `.`, `:`, `-`,
/// `[` and `]`.
pub open spec fn is_host_char(c: char) -> bool {
    ||| is_ascii_alphanumeric(c)
    ||| c == '.' || c == ':' || c == '-' || c == '[' || c == ']'
    ||| (c as u32) >= 0x80 && char_is_alphanumeric(c)
}

/// The host used when a Host header holds anything else.
pub open spec fn localhost() -> Seq<char> {
    "localhost"@
}

/// A Host header kept when every character is allowed, else `localhost`.
pub open spec fn sanitized_host(host: Seq<char>) -> Seq<char> {
    if forall|i: int| 0 <= i < host.len() ==> is_host_char(#[trigger] host[i]) {
        host
    } else {
        localhost()
    }
}

/// A character that could end or split a CSP directive or a header.
pub open spec fn is_injection_char(c: char) -> bool {
    c == ';' || c == '\'' || c == '"' || c == ',' || c == ' ' || c == '\r' || c == '\n' || c == '\t'
}

/// An ASCII letter or digit, or one of `.`, `:`, `-`, `[`, `]`.
pub open spec fn is_plain_host_char(c: char) -> bool {
    ||| 'a' <= c && c <= 'z'
    ||| 'A' <= c && c <= 'Z'
    ||| '0' <= c && c <= '9'
    ||| c == '.' || c == ':' || c == '-' || c == '[' || c == ']'
}

/// A Host made only of ASCII letters, digits and `.:-[]` (such as
/// `my-laptop.local:8080` or `[::1]:8080`) is kept as it is.
pub proof fn ascii_hosts_are_kept(host: Seq<char>)
    ensures
        (forall|i: int| 0 <= i < host.len() ==> #[trigger] is_plain_host_char(host[i]))
            ==> sanitized_host(host) == host,
{
    if forall|i: int| 0 <= i < host.len() ==> #[trigger] is_plain_host_char(host[i]) {
        assert forall|i: int| 0 <= i < host.len() implies is_host_char(#[trigger] host[i]) by {
            assert(is_plain_host_char(host[i]));
        }
    }
}

/// A Host holding any other ASCII character (a space, `;`, a quote, CR,
/// LF, `_`, ...) is replaced by `localhost`.
pub proof fn other_ascii_hosts_become_localhost(host: Seq<char>)
    ensures
        (exists|i: int|
            0 <= i < host.len() && (host[i] as u32) < 0x80 && !#[trigger] is_plain_host_char(host[i]))
            ==> sanitized_host(host) == "localhost"@,
{
    if exists|i: int|
        0 <= i < host.len() && (host[i] as u32) < 0x80 && !#[trigger] is_plain_host_char(host[i]) {
        let i = choose|i: int|
            0 <= i < host.len() && (host[i] as u32) < 0x80 && !#[trigger] is_plain_host_char(host[i]);
        assert(!is_host_char(host[i]));
    }
}

/// Keep a Host header only when it holds nothing but letters, digits and
/// `.:-[]`; otherwise use `localhost`. The result never holds a character
/// that could smuggle a directive into the Content-Security-Policy.
pub fn sanitize_host(host: &str) -> (r: String)
    ensures
        r@ == sanitized_host(host@),
        forall|i: int| 0 <= i < r@.len() ==> !is_injection_char(#[trigger] r@[i]),
        (forall|i: int| 0 <= i < host@.len() ==> #[trigger] is_plain_host_char(host@[i])) ==> r@
            == host@,
        (exists|i: int|
            0 <= i < host@.len() && (host@[i] as u32) < 0x80 && !#[trigger] is_plain_host_char(
                host@[i],
            )) ==> r@ == "localhost"@,
{
    proof {
        ascii_hosts_are_kept(host@);
        other_ascii_hosts_become_localhost(host@);
    }
    let v = chars_of(host);
    let mut i: usize = 0;
    while i < v.len()
        invariant
            i <= v.len(),
            v@ == host@,
            forall|k: int| 0 <= k < i ==> is_host_char(#[trigger] v@[k]),
            forall|k: int| 0 <= k < i ==> !is_injection_char(#[trigger] v@[k]),
        decreases v.len() - i,
    {
        let c = v[i];
        let ascii_ok = ('a' <= c && c <= 'z') || ('A' <= c && c <= 'Z') || ('0' <= c && c <= '9')
            || c == '.' || c == ':' || c == '-' || c == '[' || c == ']';
        let ok = ascii_ok || ((c as u32) >= 0x80 && is_alphanumeric(c));
        if !ok {
            proof {
                reveal_strlit("localhost");
                assert(!is_plain_host_char(host@[i as int]));
            }
            return owned("localhost");
        }
        i = i + 1;
    }
    owned(host)
}

/// Sanitizing a host twice changes nothing: what `sanitize_host` gives
/// back is kept as it is.
pub proof fn sanitize_host_is_idempotent(host: Seq<char>)
    ensures
        sanitized_host(sanitized_host(host)) == sanitized_host(host),
{
    reveal_strlit("localhost");
    let l = localhost();
    assert forall|i: int| 0 <= i < l.len() implies is_host_char(#[trigger] l[i]) by {
        assert(is_ascii_alphanumeric(l[i]));
    }
}

/// The host part of the Content-Security-Policy: the sanitized Host
/// header, or `self` when there is none.
pub open spec fn csp_host(host_header: Option<Seq<char>>) -> Seq<char> {
    match host_header {
        Some(h) => sanitized_host(h),
        None => "self"@,
    }
}

/// The `connect-src` directive for a host.
pub open spec fn connect_src(host: Seq<char>) -> Seq<char> {
    if host == "self"@ {
        "connect-src 'self';"@
    } else {
        "connect-src 'self' ws://"@ + host + " wss://"@ + host + ";"@
    }
}

/// The Content-Security-Policy for a response, given the request's Host
/// header: only this origin for scripts, styles from this origin and the
/// jsDelivr CDN, WebSocket connections only to the host the page came from.
pub open spec fn csp_text(host_header: Option<Seq<char>>) -> Seq<char> {
    "default-src 'self'; style-src 'self' https://cdn.jsdelivr.net; font-src https://cdn.jsdelivr.net; script-src 'self'; "@
        + connect_src(csp_host(host_header)) + " img-src 'self' data:;"@
}

/// For a Host of ASCII letters, digits and `.:-[]` (other than `self`),
/// the policy lets the page open WebSockets to exactly that host.
pub proof fn csp_allows_plain_host(host: Seq<char>)
    requires
        forall|i: int| 0 <= i < host.len() ==> #[trigger] is_plain_host_char(host[i]),
        host != "self"@,
    ensures
        csp_text(Some(host)) == "default-src 'self'; style-src 'self' https://cdn.jsdelivr.net; font-src https://cdn.jsdelivr.net; script-src 'self'; "@
            + ("connect-src 'self' ws://"@ + host + " wss://"@ + host + ";"@) + " img-src 'self' data:;"@,
{
    ascii_hosts_are_kept(host);
}

/// Build the Content-Security-Policy for a response, given the request's
/// Host header (when it is readable text).
pub fn content_security_policy(host_header: Option<&str>) -> (r: String)
    ensures
        r@ == csp_text(
            match host_header {
                Some(h) => Some(h@),
                None => None,
            },
        ),
{
    let host = match host_header {
        Some(h) => sanitize_host(h),
        None => owned("self"),
    };
    let self_word = owned("self");
    let mut r = owned(
        "default-src 'self'; style-src 'self' https://cdn.jsdelivr.net; font-src https://cdn.jsdelivr.net; script-src 'self'; ",
    );
    if host == self_word {
        push_str(&mut r, "connect-src 'self';");
    } else {
        push_str(&mut r, "connect-src 'self' ws://");
        push_str(&mut r, host.as_str());
        push_str(&mut r, " wss://");
        push_str(&mut r, host.as_str());
        push_str(&mut r, ";");
    }
    push_str(&mut r, " img-src 'self' data:;");
    r
}

/// The share URL: `http://<ip>:<port>/<token>`.
pub open spec fn share_url_text(ip: Seq<char>, port: u16, token: Seq<char>) -> Seq<char> {
    "http://"@ + ip + ":"@ + decimal(port as nat) + "/"@ + token
}

/// The URL under which the share page is served.
pub fn share_url(ip: &str, port: u16, token: &str) -> (r: String)
    ensures
        r@ == share_url_text(ip@, port, token@),
{
    let mut r = owned("http://");
    push_str(&mut r, ip);
    push_str(&mut r, ":");
    let p = decimal_string(port as u64);
    push_str(&mut r, p.as_str());
    push_str(&mut r, "/");
    push_str(&mut r, token);
    r
}

/// The public URL of a tunnel: `http://bore.pub:<remote_port>/<token>`.
pub fn tunnel_public_url(remote_port: u16, session_token: &str) -> (r: String)
    ensures
        r@ == share_url_text(BORE_SERVER@, remote_port, session_token@),
{
    share_url(BORE_SERVER, remote_port, session_token)
}

/// A local network address as the machine reports it.
#[derive(Debug)]
pub struct IpCandidate {
    pub address: String,
    pub is_loopback: bool,
    pub is_ipv4: bool,
}

/// `s` starts with `p`.
pub open spec fn has_prefix(s: Seq<char>, p: Seq<char>) -> bool {
    s.len() >= p.len() && s.take(p.len() as int) == p
}

/// An address worth sharing: IPv4 and not loopback.
pub open spec fn is_eligible(c: IpCandidate) -> bool {
    c.is_ipv4 && !c.is_loopback
}

/// How much an address is preferred for the share URL (lower first): home
/// networks `192.168.`, then `10.`, then `172.16.`, then any other IPv4
/// address that is not loopback; 4 for an address that does not count.
pub open spec fn ip_rank(c: IpCandidate) -> int {
    if !is_eligible(c) {
        4
    } else if has_prefix(c.address@, "192.168."@) {
        0
    } else if has_prefix(c.address@, "10."@) {
        1
    } else if has_prefix(c.address@, "172.16."@) {
        2
    } else {
        3
    }
}

/// Index of the first address of rank `k` (`cs.len()` if none).
pub open spec fn first_with_rank(cs: Seq<IpCandidate>, k: int) -> int
    decreases cs.len(),
{
    if cs.len() == 0 {
        0
    } else if first_with_rank(cs.drop_last(), k) < cs.len() - 1 {
        first_with_rank(cs.drop_last(), k)
    } else if ip_rank(cs.last()) == k {
        cs.len() - 1
    } else {
        cs.len() as int
    }
}

/// Index of the last address of rank `k` (-1 if none).
pub open spec fn last_with_rank(cs: Seq<IpCandidate>, k: int) -> int
    decreases cs.len(),
{
    if cs.len() == 0 {
        -1
    } else if ip_rank(cs.last()) == k {
        cs.len() - 1
    } else {
        last_with_rank(cs.drop_last(), k)
    }
}

/// The address to put in the share URL, from the machine's addresses in
/// the order it lists them: the first `192.168.` address; else the last
/// `10.` address; else the first `172.16.` address; else the first other
/// IPv4 address that is not loopback; else `127.0.0.1`.
pub open spec fn chosen_ip(cs: Seq<IpCandidate>) -> Seq<char> {
    if first_with_rank(cs, 0) < cs.len() {
        cs[first_with_rank(cs, 0)].address@
    } else if last_with_rank(cs, 1) >= 0 {
        cs[last_with_rank(cs, 1)].address@
    } else if first_with_rank(cs, 2) < cs.len() {
        cs[first_with_rank(cs, 2)].address@
    } else if first_with_rank(cs, 3) < cs.len() {
        cs[first_with_rank(cs, 3)].address@
    } else {
        "127.0.0.1"@
    }
}

proof fn lemma_last_with_rank(s: Seq<IpCandidate>, k: int)
    ensures
        -1 <= last_with_rank(s, k) < s.len(),
        last_with_rank(s, k) >= 0 ==> ip_rank(s[last_with_rank(s, k)]) == k,
    decreases s.len(),
{
    if s.len() > 0 && ip_rank(s.last()) != k {
        lemma_last_with_rank(s.drop_last(), k);
    }
}

proof fn lemma_first_with_rank(s: Seq<IpCandidate>, k: int)
    ensures
        0 <= first_with_rank(s, k) <= s.len(),
        first_with_rank(s, k) < s.len() ==> ip_rank(s[first_with_rank(s, k)]) == k,
    decreases s.len(),
{
    if s.len() > 0 {
        lemma_first_with_rank(s.drop_last(), k);
    }
}

fn starts_with_text(s: &String, p: &str) -> (r: bool)
    ensures
        r == has_prefix(s@, p@),
{
    let sv = chars_of(s.as_str());
    let pv = chars_of(p);
    if sv.len() < pv.len() {
        return false;
    }
    let mut i: usize = 0;
    while i < pv.len()
        invariant
            i <= pv.len(),
            pv.len() <= sv.len(),
            sv@ == s@,
            pv@ == p@,
            forall|k: int| 0 <= k < i ==> sv@[k] == pv@[k],
        decreases pv.len() - i,
    {
        if sv[i] != pv[i] {
            assert(s@.take(p@.len() as int)[i as int] != p@[i as int]);
            return false;
        }
        i = i + 1;
    }
    assert(s@.take(p@.len() as int) =~= p@);
    true
}

proof fn lemma_first_with_rank_le(s: Seq<IpCandidate>, k: int, i: int)
    requires
        0 <= i < s.len(),
        ip_rank(s[i]) == k,
    ensures
        first_with_rank(s, k) <= i,
    decreases s.len(),
{
    if i < s.len() - 1 {
        lemma_first_with_rank_le(s.drop_last(), k, i);
    }
}

proof fn lemma_last_with_rank_ge(s: Seq<IpCandidate>, k: int, i: int)
    requires
        0 <= i < s.len(),
        ip_rank(s[i]) == k,
    ensures
        last_with_rank(s, k) >= i,
    decreases s.len(),
{
    if i < s.len() - 1 && ip_rank(s.last()) != k {
        lemma_last_with_rank_ge(s.drop_last(), k, i);
    }
}

/// The share URL names a usable address whenever there is one: if some
/// candidate is IPv4 and not loopback, the chosen address is the address
/// of such a candidate (never one of a loopback or IPv6 interface); with no
/// such candidate it is `127.0.0.1`. A `192.168.` candidate, when there is
/// one, wins.
pub proof fn share_address_is_usable(cs: Seq<IpCandidate>)
    ensures
        (exists|i: int| 0 <= i < cs.len() && #[trigger] cs[i].is_ipv4 && !cs[i].is_loopback) ==> (exists|j: int|
            0 <= j < cs.len() && #[trigger] cs[j].is_ipv4 && !cs[j].is_loopback && chosen_ip(cs)
                == cs[j].address@),
        !(exists|i: int| 0 <= i < cs.len() && #[trigger] cs[i].is_ipv4 && !cs[i].is_loopback)
            ==> chosen_ip(cs) == "127.0.0.1"@,
        (exists|i: int|
            0 <= i < cs.len() && #[trigger] cs[i].is_ipv4 && !cs[i].is_loopback && has_prefix(
                cs[i].address@,
                "192.168."@,
            )) ==> has_prefix(chosen_ip(cs), "192.168."@),
{
    lemma_first_with_rank(cs, 0);
    lemma_last_with_rank(cs, 1);
    lemma_first_with_rank(cs, 2);
    lemma_first_with_rank(cs, 3);
    if exists|i: int| 0 <= i < cs.len() && #[trigger] cs[i].is_ipv4 && !cs[i].is_loopback {
        let i = choose|i: int| 0 <= i < cs.len() && #[trigger] cs[i].is_ipv4 && !cs[i].is_loopback;
        let k = ip_rank(cs[i]);
        if k == 1 {
            lemma_last_with_rank_ge(cs, 1, i);
        } else {
            lemma_first_with_rank_le(cs, k, i);
        }
        let j = if first_with_rank(cs, 0) < cs.len() {
            first_with_rank(cs, 0)
        } else if last_with_rank(cs, 1) >= 0 {
            last_with_rank(cs, 1)
        } else if first_with_rank(cs, 2) < cs.len() {
            first_with_rank(cs, 2)
        } else {
            first_with_rank(cs, 3)
        };
        assert(0 <= j < cs.len() && cs[j].is_ipv4 && !cs[j].is_loopback && chosen_ip(cs)
            == cs[j].address@);
    } else {
        assert forall|k: int| 0 <= k < 4 implies #[trigger] first_with_rank(cs, k) == cs.len() by {
            lemma_first_with_rank(cs, k);
            if first_with_rank(cs, k) < cs.len() {
                assert(cs[first_with_rank(cs, k)].is_ipv4);
            }
        }
        if last_with_rank(cs, 1) >= 0 {
            assert(cs[last_with_rank(cs, 1)].is_ipv4);
        }
    }
    if exists|i: int|
        0 <= i < cs.len() && #[trigger] cs[i].is_ipv4 && !cs[i].is_loopback && has_prefix(
            cs[i].address@,
            "192.168."@,
        ) {
        let i = choose|i: int|
            0 <= i < cs.len() && #[trigger] cs[i].is_ipv4 && !cs[i].is_loopback && has_prefix(
                cs[i].address@,
                "192.168."@,
            );
        lemma_first_with_rank_le(cs, 0, i);
    }
}

/// The preference rank of an address (see `ip_rank`).
fn rank_of(c: &IpCandidate) -> (r: u8)
    ensures
        r as int == ip_rank(*c),
{
    if c.is_loopback || !c.is_ipv4 {
        4
    } else if starts_with_text(&c.address, "192.168.") {
        0
    } else if starts_with_text(&c.address, "10.") {
        1
    } else if starts_with_text(&c.address, "172.16.") {
        2
    } else {
        3
    }
}

/// Pick the address for the share URL among the machine's addresses.
pub fn select_local_ip(cs: &Vec<IpCandidate>) -> (r: String)
    ensures
        r@ == chosen_ip(cs@),
        (exists|i: int| 0 <= i < cs@.len() && #[trigger] cs@[i].is_ipv4 && !cs@[i].is_loopback) ==> (exists|j: int|
            0 <= j < cs@.len() && #[trigger] cs@[j].is_ipv4 && !cs@[j].is_loopback && r@
                == cs@[j].address@),
        !(exists|i: int| 0 <= i < cs@.len() && #[trigger] cs@[i].is_ipv4 && !cs@[i].is_loopback)
            ==> r@ == "127.0.0.1"@,
        (exists|i: int|
            0 <= i < cs@.len() && #[trigger] cs@[i].is_ipv4 && !cs@[i].is_loopback && has_prefix(
                cs@[i].address@,
                "192.168."@,
            )) ==> has_prefix(r@, "192.168."@),
{
    proof {
        share_address_is_usable(cs@);
    }
    let mut best: Option<(usize, u8)> = None;
    let mut i: usize = 0;
    while i < cs.len()
        invariant
            i <= cs@.len(),
            best is None ==> forall|k: int| 0 <= k < 4 ==> #[trigger] first_with_rank(cs@.take(i as int), k) == i,
            best is None ==> last_with_rank(cs@.take(i as int), 1) == -1,
            best matches Some((b, br)) ==> {
                &&& b < i
                &&& br < 4
                &&& ip_rank(cs@[b as int]) == br
                &&& br != 1 ==> first_with_rank(cs@.take(i as int), br as int) == b
                &&& br == 1 ==> last_with_rank(cs@.take(i as int), 1) == b
                &&& forall|k: int| 0 <= k < br ==> #[trigger] first_with_rank(cs@.take(i as int), k) == i
                &&& br > 1 ==> last_with_rank(cs@.take(i as int), 1) == -1
            },
        decreases cs@.len() - i,
    {
        let ghost p = cs@.take(i as int);
        let ghost q = cs@.take(i as int + 1);
        proof {
            assert(q.drop_last() =~= p);
            assert(q.last() == cs@[i as int]);
            assert forall|k: int| 0 <= k < 4 implies #[trigger] first_with_rank(q, k) == (if first_with_rank(p, k) < i {
                first_with_rank(p, k)
            } else if ip_rank(cs@[i as int]) == k {
                i as int
            } else {
                i + 1
            }) by {
                lemma_first_with_rank(p, k);
            }
            assert(last_with_rank(q, 1) == (if ip_rank(cs@[i as int]) == 1 {
                i as int
            } else {
                last_with_rank(p, 1)
            }));
        }
        let rk = rank_of(&cs[i]);
        let better = match best {
            None => rk < 4,
            Some((_, br)) => rk < br || (rk == 1 && br == 1),
        };
        if better {
            best = Some((i, rk));
        }
        i = i + 1;
    }
    proof {
        assert(cs@.take(cs@.len() as int) =~= cs@);
        lemma_first_with_rank(cs@, 0);
        lemma_last_with_rank(cs@, 1);
        lemma_first_with_rank(cs@, 2);
        lemma_first_with_rank(cs@, 3);
    }
    match best {
        Some((b, _)) => cs[b].address.clone(),
        None => owned("127.0.0.1"),
    }
}

} // verus!
