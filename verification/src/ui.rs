//! State of the desktop user interface that does not depend on drawing:
//! which windows are open, the pairing dialogs, the upload confirmation,
//! the WAN connect form, and how log lines and peer entries are read.

use vstd::prelude::*;
use crate::text::{chars_of, lemma_trim_push_space, owned, push_str, string_of, trim, trim_chars};

verus! {

/// Which windows are open.
pub struct AppUIState {
    pub show_devices: bool,
    pub show_files: bool,
    pub show_qrcode: bool,
    pub show_wan_connect: bool,
}

impl Default for AppUIState {
    /// All windows closed.
    fn default() -> (r: AppUIState)
        ensures
            !r.show_devices && !r.show_files && !r.show_qrcode && !r.show_wan_connect,
    {
        AppUIState { show_devices: false, show_files: false, show_qrcode: false, show_wan_connect: false }
    }
}

/// Which share mode tab is selected.
#[derive(Debug, Clone, Copy, PartialEq, Eq, Structural)]
pub enum ShareTab {
    Lan,
    Wan,
}

impl Default for ShareTab {
    /// The LAN tab.
    fn default() -> (r: ShareTab)
        ensures
            r == ShareTab::Lan,
    {
        ShareTab::Lan
    }
}

/// The pairing dialogs.
#[derive(Debug)]
pub enum VerificationState {
    /// No dialog.
    Idle,
    /// Receiver: show the code to the user.
    ShowingCode { code: String, from_ip: String, from_name: String },
    /// Sender: ask the user for the code shown on the other device.
    InputtingCode { target_ip: String, code_input: String, error_msg: Option<String> },
}

impl Default for VerificationState {
    /// No dialog.
    fn default() -> (r: VerificationState)
        ensures
            r is Idle,
    {
        VerificationState::Idle
    }
}

impl VerificationState {
    /// The receiver was asked for a pairing: show the code.
    pub fn show_code(code: String, from_ip: String, from_name: String) -> (r: VerificationState)
        ensures
            r matches VerificationState::ShowingCode { code: c, from_ip: f, from_name: n } && c@
                == code@ && f@ == from_ip@ && n@ == from_name@,
    {
        VerificationState::ShowingCode { code, from_ip, from_name }
    }

    /// The sender must type the code shown on `target_ip`: an empty field,
    /// no error.
    pub fn ask_code(target_ip: String) -> (r: VerificationState)
        ensures
            r matches VerificationState::InputtingCode { target_ip: t, code_input, error_msg } && t@
                == target_ip@ && code_input@.len() == 0 && error_msg is None,
    {
        VerificationState::InputtingCode { target_ip, code_input: String::new(), error_msg: None }
    }

    /// The outcome of a pairing: a failure while the user is typing a code
    /// keeps the dialog open with the message; anything else closes it.
    pub fn on_pairing_result(&mut self, success: bool, message: String)
        ensures
            (!success && (*old(self)) is InputtingCode) ==> {
                &&& (*final(self)) is InputtingCode
                &&& (*final(self))->target_ip == (*old(self))->target_ip
                &&& (*final(self))->code_input == (*old(self))->code_input
                &&& (*final(self))->error_msg == Some(message)
            },
            (success || !((*old(self)) is InputtingCode)) ==> (*final(self)) is Idle,
    {
        if !success {
            if let VerificationState::InputtingCode { error_msg, .. } = self {
                *error_msg = Some(message);
                return;
            }
        }
        *self = VerificationState::Idle;
    }
}

/// A typed code is sent only when it is four bytes long.
pub fn code_ready_to_submit(code: &str) -> (r: bool)
    ensures
        r == (code.len() == 4),
{
    code.len() == 4
}

/// An upload request from the web page, as shown to the user.
#[derive(Debug)]
pub struct PendingUpload {
    pub request_id: String,
    pub file_name: String,
    pub file_size: u64,
    pub from_ip: String,
}

/// The upload confirmation dialog.
#[derive(Debug)]
pub enum UploadConfirmState {
    /// No dialog.
    Idle,
    /// An upload request waits for the user's answer.
    Pending(PendingUpload),
}

impl Default for UploadConfirmState {
    /// No dialog.
    fn default() -> (r: UploadConfirmState)
        ensures
            r is Idle,
    {
        UploadConfirmState::Idle
    }
}

impl UploadConfirmState {
    /// A request was cancelled: close the dialog if it shows that request.
    /// Returns whether it did.
    pub fn on_cancelled(&mut self, request_id: &str) -> (closed: bool)
        ensures
            closed == ((*old(self)) matches UploadConfirmState::Pending(u) && u.request_id@ == request_id@),
            closed ==> (*final(self)) is Idle,
            !closed ==> *final(self) == *old(self),
    {
        let matches_request = match self {
            UploadConfirmState::Pending(u) => u.request_id == owned(request_id),
            UploadConfirmState::Idle => false,
        };
        if matches_request {
            *self = UploadConfirmState::Idle;
        }
        matches_request
    }
}

/// The WAN connect form.
#[derive(Debug)]
pub struct WanConnectState {
    pub target_endpoint_id: String,
    pub my_endpoint_id: String,
    pub connection_status: String,
}

/// The status line shown while connecting to `id`.
pub open spec fn connecting_text(id: Seq<char>) -> Seq<char> {
    "Connecting to "@ + id + "..."@
}

impl WanConnectState {
    /// An empty form for a node whose endpoint id is `my_endpoint_id`.
    pub fn new(my_endpoint_id: String) -> (r: WanConnectState)
        ensures
            r.my_endpoint_id@ == my_endpoint_id@,
            r.target_endpoint_id@.len() == 0,
            r.connection_status@.len() == 0,
    {
        WanConnectState { target_endpoint_id: String::new(), my_endpoint_id, connection_status: String::new() }
    }

    /// The id to connect to: what was typed, without surrounding white
    /// space, unless that leaves nothing (the button is then disabled).
    pub fn connect_target(&self) -> (r: Option<String>)
        ensures
            trim(self.target_endpoint_id@).len() > 0 ==> (r matches Some(t) && t@ == trim(self.target_endpoint_id@)),
            trim(self.target_endpoint_id@).len() == 0 ==> r is None,
    {
        let v = chars_of(self.target_endpoint_id.as_str());
        let t = trim_chars(&v);
        if t.len() == 0 {
            None
        } else {
            Some(string_of(&t))
        }
    }

    /// Start connecting: returns the id to connect to and shows the
    /// connecting status, or does nothing when no id was typed.
    pub fn start_connecting(&mut self) -> (r: Option<String>)
        ensures
            final(self).target_endpoint_id == old(self).target_endpoint_id,
            final(self).my_endpoint_id == old(self).my_endpoint_id,
            trim(old(self).target_endpoint_id@).len() > 0 ==> (r matches Some(t) && t@ == trim(old(self).target_endpoint_id@)
                && final(self).connection_status@ == connecting_text(t@)),
            trim(old(self).target_endpoint_id@).len() == 0 ==> r is None && final(self).connection_status == old(self).connection_status,
    {
        match self.connect_target() {
            Some(t) => {
                let mut status = owned("Connecting to ");
                push_str(&mut status, t.as_str());
                push_str(&mut status, "...");
                self.connection_status = status;
                Some(t)
            },
            None => None,
        }
    }
}

/// The colour class of a log line.
#[derive(Debug, Clone, Copy, PartialEq, Eq, Structural)]
pub enum LogType {
    Info,
    Success,
    Error,
    Warning,
}

/// `t` stands in `s` from position `i` on.
pub open spec fn occurs_at(s: Seq<char>, t: Seq<char>, i: int) -> bool {
    0 <= i && i + t.len() <= s.len() && s.subrange(i, i + t.len()) == t
}

/// `t` occurs in `s`.
pub open spec fn contains_text(s: Seq<char>, t: Seq<char>) -> bool {
    exists|i: int| #[trigger] occurs_at(s, t, i)
}

fn contains_chars(s: &Vec<char>, t: &Vec<char>) -> (r: bool)
    ensures
        r == contains_text(s@, t@),
{
    if t.len() > s.len() {
        return false;
    }
    if t.len() == 0 {
        assert(s@.subrange(0, 0) =~= t@);
        assert(occurs_at(s@, t@, 0));
        return true;
    }
    let last = s.len() - t.len();
    let mut i: usize = 0;
    while i <= last
        invariant
            last == s@.len() - t@.len(),
            t@.len() > 0,
            s@.len() <= usize::MAX,
            i <= last + 1,
            forall|k: int| 0 <= k < i ==> !#[trigger] occurs_at(s@, t@, k),
        decreases last + 1 - i,
    {
        let mut j: usize = 0;
        let mut same = true;
        while j < t.len()
            invariant
                j <= t@.len(),
                i <= last,
                last == s@.len() - t@.len(),
                t@.len() > 0,
                s@.len() <= usize::MAX,
                same ==> forall|k: int| 0 <= k < j ==> s@[i + k] == t@[k],
                !same ==> s@.subrange(i as int, i + t@.len()) != t@,
            decreases t@.len() - j,
        {
            if s[i + j] != t[j] {
                assert(s@.subrange(i as int, i + t@.len())[j as int] != t@[j as int]);
                same = false;
            }
            j = j + 1;
        }
        if same {
            assert(s@.subrange(i as int, i + t@.len()) =~= t@);
            assert(occurs_at(s@, t@, i as int));
            return true;
        }
        i = i + 1;
    }
    proof {
        assert forall|k: int| !#[trigger] occurs_at(s@, t@, k) by {
            if 0 <= k && k + t@.len() <= s@.len() {
                assert(k < i);
            }
        }
    }
    false
}

/// How a status message is coloured: errors first, then successes, then
/// warnings; anything else is plain information.
pub open spec fn status_log_type(m: Seq<char>) -> LogType {
    if contains_text(m, "error"@) || contains_text(m, "Error"@) || contains_text(m, "ERROR"@) {
        LogType::Error
    } else if contains_text(m, "Complete"@) || contains_text(m, "success"@) || contains_text(m, "Verified"@) {
        LogType::Success
    } else if contains_text(m, "Connecting"@) || contains_text(m, "Starting"@) {
        LogType::Warning
    } else {
        LogType::Info
    }
}

fn has_text(s: &Vec<char>, t: &str) -> (r: bool)
    ensures
        r == contains_text(s@, t@),
{
    let tv = chars_of(t);
    contains_chars(s, &tv)
}

/// Colour a status message by the words it contains.
pub fn classify_status(msg: &str) -> (r: LogType)
    ensures
        r == status_log_type(msg@),
{
    let m = chars_of(msg);
    if has_text(&m, "error") || has_text(&m, "Error") || has_text(&m, "ERROR") {
        LogType::Error
    } else if has_text(&m, "Complete") || has_text(&m, "success") || has_text(&m, "Verified") {
        LogType::Success
    } else if has_text(&m, "Connecting") || has_text(&m, "Starting") {
        LogType::Warning
    } else {
        LogType::Info
    }
}

/// How a peer is listed: `hostname (ip)`.
pub open spec fn peer_label_text(hostname: Seq<char>, ip: Seq<char>) -> Seq<char> {
    hostname + " ("@ + ip + ")"@
}

/// The entry for a peer in the device list.
pub fn peer_label(hostname: &str, ip: &str) -> (r: String)
    ensures
        r@ == peer_label_text(hostname@, ip@),
{
    let mut r = owned(hostname);
    push_str(&mut r, " (");
    push_str(&mut r, ip);
    push_str(&mut r, ")");
    r
}

/// Index of the last `c` in `s` (-1 if none).
pub open spec fn last_index_of(s: Seq<char>, c: char) -> int
    decreases s.len(),
{
    if s.len() == 0 {
        -1
    } else if s.last() == c {
        s.len() - 1
    } else {
        last_index_of(s.drop_last(), c)
    }
}

/// The `(ip, name)` in an entry `name (ip)`: the text between the last `(`
/// and the last `)`, and the trimmed text before that `(`; nothing when
/// the entry has no such pair.
pub open spec fn parsed_peer_label(s: Seq<char>) -> Option<(Seq<char>, Seq<char>)> {
    let a = last_index_of(s, '(');
    let b = last_index_of(s, ')');
    if 0 <= a && a < b {
        Some((s.subrange(a + 1, b), trim(s.take(a))))
    } else {
        None
    }
}

proof fn lemma_last_index_bound(s: Seq<char>, c: char)
    ensures
        -1 <= last_index_of(s, c) < s.len(),
        last_index_of(s, c) >= 0 ==> s[last_index_of(s, c)] == c,
    decreases s.len(),
{
    if s.len() > 0 && s.last() != c {
        lemma_last_index_bound(s.drop_last(), c);
    }
}

/// The last `c` of a sequence that has `c` at `k` and none after it is at `k`.
proof fn lemma_last_index_at(s: Seq<char>, c: char, k: int)
    requires
        0 <= k < s.len(),
        s[k] == c,
        forall|i: int| k < i < s.len() ==> s[i] != c,
    ensures
        last_index_of(s, c) == k,
    decreases s.len(),
{
    if s.len() - 1 != k {
        lemma_last_index_at(s.drop_last(), c, k);
    }
}

/// A device entry reads back as what it was made of: the entry that
/// `peer_label` writes for `hostname` and an address without parentheses
/// is read by `parse_peer_label` as that address and the trimmed hostname.
pub proof fn peer_label_roundtrip(hostname: Seq<char>, ip: Seq<char>)
    requires
        forall|i: int| 0 <= i < ip.len() ==> ip[i] != '(' && ip[i] != ')',
    ensures
        parsed_peer_label(peer_label_text(hostname, ip)) == Some((ip, trim(hostname))),
{
    let s = peer_label_text(hostname, ip);
    reveal_strlit(" (");
    reveal_strlit(")");
    let a: int = hostname.len() as int + 1;
    let b: int = s.len() - 1;
    assert(s[a] == '(');
    assert(s[b] == ')');
    assert forall|i: int| a < i < s.len() implies s[i] != '(' by {
        if i < b {
            assert(s[i] == ip[i - a - 1]);
        }
    }
    assert forall|i: int| b < i < s.len() implies s[i] != ')' by {}
    lemma_last_index_at(s, '(', a);
    lemma_last_index_at(s, ')', b);
    assert(s.subrange(a + 1, b) =~= ip);
    assert(s.take(a) =~= hostname.push(' '));
    lemma_trim_push_space(hostname, ' ');
}

fn last_index(v: &Vec<char>, c: char) -> (r: Option<usize>)
    ensures
        match r {
            Some(i) => i == last_index_of(v@, c),
            None => last_index_of(v@, c) == -1,
        },
{
    let mut found: Option<usize> = None;
    let mut i: usize = 0;
    while i < v.len()
        invariant
            i <= v@.len(),
            match found {
                Some(k) => k == last_index_of(v@.take(i as int), c),
                None => last_index_of(v@.take(i as int), c) == -1,
            },
        decreases v@.len() - i,
    {
        assert(v@.take(i as int + 1).drop_last() =~= v@.take(i as int));
        if v[i] == c {
            found = Some(i);
        }
        i = i + 1;
    }
    assert(v@.take(v@.len() as int) =~= v@);
    found
}

fn sub_chars(v: &Vec<char>, from: usize, to: usize) -> (r: Vec<char>)
    requires
        from <= to <= v@.len(),
    ensures
        r@ == v@.subrange(from as int, to as int),
{
    let mut r: Vec<char> = Vec::new();
    let mut k: usize = from;
    while k < to
        invariant
            from <= k <= to,
            to <= v@.len(),
            r@ == v@.subrange(from as int, k as int),
        decreases to - k,
    {
        r.push(v[k]);
        assert(v@.subrange(from as int, k as int + 1) =~= v@.subrange(from as int, k as int).push(v@[k as int]));
        k = k + 1;
    }
    r
}

/// Read a device-list entry back into `(ip, name)`, as the send button
/// does before asking for files.
pub fn parse_peer_label(label: &str) -> (r: Option<(String, String)>)
    ensures
        match (r, parsed_peer_label(label@)) {
            (Some((ip, name)), Some((sip, sname))) => ip@ == sip && name@ == sname,
            (None, None) => true,
            _ => false,
        },
{
    let v = chars_of(label);
    let a = last_index(&v, '(');
    let b = last_index(&v, ')');
    proof {
        lemma_last_index_bound(v@, '(');
        lemma_last_index_bound(v@, ')');
    }
    match (a, b) {
        (Some(start), Some(end)) => {
            if start < end {
                let ip = sub_chars(&v, start + 1, end);
                let before = sub_chars(&v, 0, start);
                assert(before@ =~= v@.take(start as int));
                let name = trim_chars(&before);
                Some((string_of(&ip), string_of(&name)))
            } else {
                None
            }
        },
        _ => None,
    }
}

} // verus!
