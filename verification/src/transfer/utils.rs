//! Checks and clean-ups applied to what a peer announces about a file.

use vstd::prelude::*;
use crate::transfer::constants::{MAX_FILENAME_LENGTH, MAX_FILE_SIZE};
use crate::text::{
    ascii_upper, ascii_upper_chars, chars_of, is_control, is_control_char, is_white_space_char,
    lemma_trim, lemma_trim_of_trimmed, string_of, trim, trim_chars, decimal, decimal_string,
    owned, push_str,
};

verus! {

/// Bytes in a GiB, the unit of the size limit in messages.
pub const GIB: u64 = 1024 * 1024 * 1024;

/// Why a peer's announced file is refused before any data is read.
#[derive(Debug, Clone, PartialEq, Eq)]
pub enum TransferRejection {
    /// The announced size is above `MAX_FILE_SIZE`.
    FileTooLarge { file_name: String, file_size: u64 },
    /// The announced name is longer than `MAX_FILENAME_LENGTH` bytes.
    FileNameTooLong { name_length: usize },
}

/// The text of the message for an oversized file.
pub open spec fn too_large_message(file_name: Seq<char>, file_size: u64) -> Seq<char> {
    "File rejected: "@ + file_name + " ("@ + decimal((file_size / GIB) as nat)
        + " GB) exceeds maximum allowed size of "@ + decimal((MAX_FILE_SIZE / GIB) as nat)
        + " GB"@
}

/// The text of the message for an overlong name.
pub open spec fn name_too_long_message(name_length: usize) -> Seq<char> {
    "File rejected: Filename too long ("@ + decimal(name_length as nat) + " chars, max "@
        + decimal(MAX_FILENAME_LENGTH as nat) + ")"@
}

impl TransferRejection {
    /// The message shown to the user for this rejection.
    pub open spec fn spec_message(&self) -> Seq<char> {
        match self {
            TransferRejection::FileTooLarge { file_name, file_size } => too_large_message(
                file_name@,
                *file_size,
            ),
            TransferRejection::FileNameTooLong { name_length } => name_too_long_message(
                *name_length,
            ),
        }
    }

    /// The message shown to the user for this rejection.
    pub fn message(&self) -> (m: String)
        ensures
            m@ == self.spec_message(),
    {
        match self {
            TransferRejection::FileTooLarge { file_name, file_size } => {
                let mut m = owned("File rejected: ");
                push_str(&mut m, file_name.as_str());
                push_str(&mut m, " (");
                let gb = decimal_string(*file_size / GIB);
                push_str(&mut m, gb.as_str());
                push_str(&mut m, " GB) exceeds maximum allowed size of ");
                let max = decimal_string(MAX_FILE_SIZE / GIB);
                push_str(&mut m, max.as_str());
                push_str(&mut m, " GB");
                m
            },
            TransferRejection::FileNameTooLong { name_length } => {
                let mut m = owned("File rejected: Filename too long (");
                let n = decimal_string(*name_length as u64);
                push_str(&mut m, n.as_str());
                push_str(&mut m, " chars, max ");
                let max = decimal_string(MAX_FILENAME_LENGTH as u64);
                push_str(&mut m, max.as_str());
                push_str(&mut m, ")");
                m
            },
        }
    }
}

/// Check an announced file against the size limit, then the name limit.
///
/// The size comes first: a file both too large and badly named is refused
/// as too large. The name's length is counted in UTF-8 bytes.
pub fn validate_transfer_info(file_name: &str, file_size: u64) -> (r: Result<(), TransferRejection>)
    ensures
        file_size > MAX_FILE_SIZE ==> (r matches Err(
            TransferRejection::FileTooLarge { file_name: n, file_size: z },
        ) && n@ == file_name@ && z == file_size),
        file_size <= MAX_FILE_SIZE && file_name.len() > MAX_FILENAME_LENGTH ==> (
        r matches Err(TransferRejection::FileNameTooLong { name_length: k }) && k
            == file_name.len()),
        file_size <= MAX_FILE_SIZE && file_name.len() <= MAX_FILENAME_LENGTH ==> r
            is Ok,
{
    if file_size > MAX_FILE_SIZE {
        return Err(TransferRejection::FileTooLarge { file_name: owned(file_name), file_size });
    }
    let n = file_name.len();
    if n > MAX_FILENAME_LENGTH {
        return Err(TransferRejection::FileNameTooLong { name_length: n });
    }
    Ok(())
}

/// `/` and `\`: the path separators of Unix and Windows.
pub open spec fn is_separator(c: char) -> bool {
    c == '/' || c == '\\'
}

/// The part of `s` after its last separator (all of `s` when it has none).
pub open spec fn last_segment(s: Seq<char>) -> Seq<char>
    decreases s.len(),
{
    if s.len() == 0 {
        s
    } else if is_separator(s.last()) {
        Seq::empty()
    } else {
        last_segment(s.drop_last()).push(s.last())
    }
}

/// The characters a file name may keep: no control character, no separator.
pub open spec fn is_kept_char(c: char) -> bool {
    !is_control_char(c) && !is_separator(c)
}

/// `s` with every control character and separator removed.
pub open spec fn drop_unsafe_chars(s: Seq<char>) -> Seq<char>
    decreases s.len(),
{
    if s.len() == 0 {
        s
    } else if is_kept_char(s.last()) {
        drop_unsafe_chars(s.drop_last()).push(s.last())
    } else {
        drop_unsafe_chars(s.drop_last())
    }
}

/// Index of the last `.` in `t`, or -1 when there is none.
pub open spec fn last_dot(t: Seq<char>) -> int
    decreases t.len(),
{
    if t.len() == 0 {
        -1
    } else if t.last() == '.' {
        t.len() - 1
    } else {
        last_dot(t.drop_last())
    }
}

/// `last_dot` is -1 or an index of `t`.
proof fn lemma_last_dot_bound(t: Seq<char>)
    ensures
        -1 <= last_dot(t) < t.len(),
    decreases t.len(),
{
    if t.len() > 0 {
        lemma_last_dot_bound(t.drop_last());
    }
}

/// The empty name, `.` and `..`: names that denote no file of their own.
pub open spec fn is_dot_name(t: Seq<char>) -> bool {
    t.len() == 0 || t == seq!['.'] || t == seq!['.', '.']
}

/// The stem of a single-component path, as `Path::file_stem` defines it:
/// nothing when there is no file name; the whole name when it has no `.`
/// or only a leading one; otherwise the part before the last `.`.
pub open spec fn file_stem(t: Seq<char>) -> Seq<char> {
    if is_dot_name(t) {
        Seq::empty()
    } else if last_dot(t) <= 0 {
        t
    } else {
        t.take(last_dot(t))
    }
}

/// Device names that Windows reserves: CON, PRN, AUX, NUL, COM1-9, LPT1-9.
pub open spec fn is_reserved_device_name(u: Seq<char>) -> bool {
    ||| u == seq!['C', 'O', 'N']
    ||| u == seq!['P', 'R', 'N']
    ||| u == seq!['A', 'U', 'X']
    ||| u == seq!['N', 'U', 'L']
    ||| (u.len() == 4 && (u.take(3) == seq!['C', 'O', 'M'] || u.take(3) == seq!['L', 'P', 'T'])
        && '1' <= u[3] && u[3] <= '9')
}

/// The name given to a file whose announced name leaves nothing usable.
pub open spec fn unknown_file_name() -> Seq<char> {
    seq!['u', 'n', 'k', 'n', 'o', 'w', 'n', '_', 'f', 'i', 'l', 'e', '.', 'b', 'i', 'n']
}

/// The trimmed, cleaned last component of an announced file name.
pub open spec fn cleaned_name(s: Seq<char>) -> Seq<char> {
    trim(drop_unsafe_chars(last_segment(s)))
}

/// What `sanitize_file_name` makes of a name: its cleaned last component,
/// prefixed with `_` when it (or its stem) is a reserved device name, and
/// replaced by `unknown_file.bin` when it is empty, `.` or `..`.
pub open spec fn sanitized_file_name(s: Seq<char>) -> Seq<char> {
    let t = cleaned_name(s);
    if is_reserved_device_name(ascii_upper(file_stem(t))) || is_reserved_device_name(
        ascii_upper(t),
    ) {
        seq!['_'] + t
    } else if is_dot_name(t) {
        unknown_file_name()
    } else {
        t
    }
}

/// A sequence without separators is its own last segment.
proof fn lemma_last_segment_of_plain(s: Seq<char>)
    requires
        forall|i: int| 0 <= i < s.len() ==> !is_separator(#[trigger] s[i]),
    ensures
        last_segment(s) == s,
    decreases s.len(),
{
    if s.len() > 0 {
        lemma_last_segment_of_plain(s.drop_last());
        assert(s.drop_last().push(s.last()) =~= s);
    }
}

/// Every character left by `drop_unsafe_chars` is a kept character.
proof fn lemma_drop_unsafe_keeps(s: Seq<char>)
    ensures
        forall|i: int|
            0 <= i < drop_unsafe_chars(s).len() ==> is_kept_char(#[trigger] drop_unsafe_chars(s)[i]),
    decreases s.len(),
{
    if s.len() > 0 {
        lemma_drop_unsafe_keeps(s.drop_last());
        let p = drop_unsafe_chars(s.drop_last());
        if is_kept_char(s.last()) {
            assert forall|i: int| 0 <= i < p.push(s.last()).len() implies is_kept_char(
                #[trigger] p.push(s.last())[i],
            ) by {
                if i < p.len() {
                    assert(p.push(s.last())[i] == p[i]);
                }
            }
        }
    }
}

/// A sequence of kept characters passes `drop_unsafe_chars` unchanged.
proof fn lemma_drop_unsafe_of_plain(s: Seq<char>)
    requires
        forall|i: int| 0 <= i < s.len() ==> is_kept_char(#[trigger] s[i]),
    ensures
        drop_unsafe_chars(s) == s,
    decreases s.len(),
{
    if s.len() > 0 {
        lemma_drop_unsafe_of_plain(s.drop_last());
        assert(s.drop_last().push(s.last()) =~= s);
    }
}

/// The cleaned name holds only kept characters and has no white space at
/// either end.
proof fn lemma_cleaned_name(s: Seq<char>)
    ensures
        forall|i: int|
            0 <= i < cleaned_name(s).len() ==> is_kept_char(#[trigger] cleaned_name(s)[i]),
        cleaned_name(s).len() > 0 ==> !is_white_space_char(cleaned_name(s)[0])
            && !is_white_space_char(cleaned_name(s).last()),
{
    let d = drop_unsafe_chars(last_segment(s));
    lemma_drop_unsafe_keeps(last_segment(s));
    lemma_trim(d);
    let (i, j) = choose|i: int, j: int| 0 <= i <= j <= d.len() && trim(d) == d.subrange(i, j);
    assert forall|k: int| 0 <= k < cleaned_name(s).len() implies is_kept_char(
        #[trigger] cleaned_name(s)[k],
    ) by {
        assert(cleaned_name(s)[k] == d[i + k]);
    }
}

/// A name of kept characters, with no white space at either end, is its
/// own cleaned name.
proof fn lemma_cleaned_name_of_plain(s: Seq<char>)
    requires
        s.len() > 0,
        forall|i: int| 0 <= i < s.len() ==> is_kept_char(#[trigger] s[i]),
        !is_white_space_char(s[0]),
        !is_white_space_char(s.last()),
    ensures
        cleaned_name(s) == s,
{
    lemma_last_segment_of_plain(s);
    lemma_drop_unsafe_of_plain(s);
    lemma_trim_of_trimmed(s);
}

/// A reserved device name starts with an upper-case ASCII letter.
proof fn lemma_reserved_starts_with_letter(u: Seq<char>)
    requires
        is_reserved_device_name(u),
    ensures
        u.len() > 0,
        'A' <= u[0] && u[0] <= 'Z',
{
    if u.len() == 4 {
        assert(u[0] == u.take(3)[0]);
    }
}

/// A name that starts with `_` is neither reserved nor, upper-cased or cut
/// to its stem, a reserved device name.
proof fn lemma_underscore_not_reserved(r: Seq<char>)
    requires
        r.len() > 0,
        r[0] == '_',
    ensures
        !is_reserved_device_name(ascii_upper(r)),
        !is_reserved_device_name(ascii_upper(file_stem(r))),
        !is_dot_name(r),
{
    assert(!is_dot_name(r)) by {
        if r == seq!['.'] || r == seq!['.', '.'] {
            assert(r[0] == '.');
        }
    }
    if is_reserved_device_name(ascii_upper(r)) {
        lemma_reserved_starts_with_letter(ascii_upper(r));
    }
    let st = file_stem(r);
    if is_reserved_device_name(ascii_upper(st)) {
        lemma_reserved_starts_with_letter(ascii_upper(st));
        assert(!is_dot_name(r)) by {
            if r == seq!['.'] || r == seq!['.', '.'] {
                assert(r[0] == '.');
            }
        }
        lemma_last_dot_bound(r);
        if last_dot(r) > 0 {
            assert(st == r.take(last_dot(r)));
            assert(st[0] == r[0]);
        } else {
            assert(st == r);
        }
    }
}

/// A sanitized name is a plain file name: it is not empty, it is neither
/// `.` nor `..`, and it holds no path separator and no control character.
/// Joined to the download folder, it names a file directly in that folder.
pub proof fn sanitized_name_is_plain(s: Seq<char>)
    ensures
        sanitized_file_name(s).len() > 0,
        !is_dot_name(sanitized_file_name(s)),
        forall|i: int|
            0 <= i < sanitized_file_name(s).len() ==> is_kept_char(
                #[trigger] sanitized_file_name(s)[i],
            ),
{
    let t = cleaned_name(s);
    lemma_cleaned_name(s);
    let r = sanitized_file_name(s);
    if is_reserved_device_name(ascii_upper(file_stem(t))) || is_reserved_device_name(
        ascii_upper(t),
    ) {
        assert(r[0] == '_');
        lemma_underscore_not_reserved(r);
        assert forall|i: int| 0 <= i < r.len() implies is_kept_char(#[trigger] r[i]) by {
            if i > 0 {
                assert(r[i] == t[i - 1]);
            }
        }
    } else if is_dot_name(t) {
        assert(r =~= unknown_file_name());
    }
}

/// Sanitizing a sanitized name changes nothing.
pub proof fn sanitize_is_idempotent(s: Seq<char>)
    ensures
        sanitized_file_name(sanitized_file_name(s)) == sanitized_file_name(s),
{
    let t = cleaned_name(s);
    let r = sanitized_file_name(s);
    lemma_cleaned_name(s);
    sanitized_name_is_plain(s);
    if is_reserved_device_name(ascii_upper(file_stem(t))) || is_reserved_device_name(
        ascii_upper(t),
    ) {
        if is_reserved_device_name(ascii_upper(t)) {
            lemma_reserved_starts_with_letter(ascii_upper(t));
        } else {
            lemma_reserved_starts_with_letter(ascii_upper(file_stem(t)));
        }
        assert(t.len() > 0);
        assert(r.last() == t.last());
        lemma_cleaned_name_of_plain(r);
        lemma_underscore_not_reserved(r);
    } else if is_dot_name(t) {
        let u = unknown_file_name();
        assert(r == u);
        lemma_cleaned_name_of_plain(u);
        assert(last_dot(u) == 12) by {
            reveal_with_fuel(last_dot, 5);
        }
        assert(file_stem(u) =~= u.take(12));
        assert(!is_reserved_device_name(ascii_upper(u)));
        assert(!is_reserved_device_name(ascii_upper(file_stem(u))));
    } else {
        lemma_cleaned_name_of_plain(t);
    }
}

/// A name that is already plain (kept characters only, no white space at
/// either end, not `.` or `..`, no reserved device name) passes unchanged.
pub proof fn plain_names_pass_unchanged(s: Seq<char>)
    requires
        s.len() > 0,
        forall|i: int| 0 <= i < s.len() ==> is_kept_char(#[trigger] s[i]),
        !is_white_space_char(s[0]),
        !is_white_space_char(s.last()),
        !is_dot_name(s),
        !is_reserved_device_name(ascii_upper(s)),
        !is_reserved_device_name(ascii_upper(file_stem(s))),
    ensures
        sanitized_file_name(s) == s,
{
    lemma_cleaned_name_of_plain(s);
}

fn last_segment_chars(v: &Vec<char>) -> (r: Vec<char>)
    ensures
        r@ == last_segment(v@),
{
    let mut cur: Vec<char> = Vec::new();
    let mut i: usize = 0;
    while i < v.len()
        invariant
            i <= v.len(),
            cur@ == last_segment(v@.take(i as int)),
        decreases v.len() - i,
    {
        let c = v[i];
        assert(v@.take(i as int + 1).drop_last() =~= v@.take(i as int));
        if c == '/' || c == '\\' {
            cur = Vec::new();
        } else {
            cur.push(c);
        }
        i = i + 1;
    }
    assert(v@.take(v.len() as int) =~= v@);
    cur
}

fn drop_unsafe(v: &Vec<char>) -> (r: Vec<char>)
    ensures
        r@ == drop_unsafe_chars(v@),
{
    let mut r: Vec<char> = Vec::new();
    let mut i: usize = 0;
    while i < v.len()
        invariant
            i <= v.len(),
            r@ == drop_unsafe_chars(v@.take(i as int)),
        decreases v.len() - i,
    {
        let c = v[i];
        assert(v@.take(i as int + 1).drop_last() =~= v@.take(i as int));
        if !is_control(c) && c != '/' && c != '\\' {
            r.push(c);
        }
        i = i + 1;
    }
    assert(v@.take(v.len() as int) =~= v@);
    r
}

fn is_dot(t: &Vec<char>) -> (r: bool)
    ensures
        r == is_dot_name(t@),
{
    if t.len() == 0 {
        true
    } else if t.len() == 1 {
        assert(t[0] == '.' ==> t@ =~= seq!['.']);
        t[0] == '.'
    } else if t.len() == 2 {
        assert(t[0] == '.' && t[1] == '.' ==> t@ =~= seq!['.', '.']);
        t[0] == '.' && t[1] == '.'
    } else {
        false
    }
}

fn file_stem_chars(t: &Vec<char>) -> (r: Vec<char>)
    ensures
        r@ == file_stem(t@),
{
    if is_dot(t) {
        return Vec::new();
    }
    let mut dot: Option<usize> = None;
    let mut i: usize = 0;
    while i < t.len()
        invariant
            i <= t.len(),
            match dot {
                Some(d) => d as int == last_dot(t@.take(i as int)) && d < i,
                None => last_dot(t@.take(i as int)) == -1,
            },
        decreases t.len() - i,
    {
        assert(t@.take(i as int + 1).drop_last() =~= t@.take(i as int));
        if t[i] == '.' {
            dot = Some(i);
        }
        i = i + 1;
    }
    assert(t@.take(t.len() as int) =~= t@);
    match dot {
        Some(d) if d > 0 => {
            let mut r: Vec<char> = Vec::new();
            let mut k: usize = 0;
            while k < d
                invariant
                    k <= d,
                    d < t.len(),
                    r@ == t@.take(k as int),
                decreases d - k,
            {
                r.push(t[k]);
                assert(t@.take(k as int + 1) =~= t@.take(k as int).push(t@[k as int]));
                k = k + 1;
            }
            r
        },
        _ => t.clone(),
    }
}

fn is_reserved_name(u: &Vec<char>) -> (r: bool)
    ensures
        r == is_reserved_device_name(u@),
{
    if u.len() == 3 {
        let a = u[0];
        let b = u[1];
        let c = u[2];
        let r = (a == 'C' && b == 'O' && c == 'N') || (a == 'P' && b == 'R' && c == 'N') || (a
            == 'A' && b == 'U' && c == 'X') || (a == 'N' && b == 'U' && c == 'L');
        assert(r ==> (u@ =~= seq![a, b, c]));
        r
    } else if u.len() == 4 {
        let a = u[0];
        let b = u[1];
        let c = u[2];
        let d = u[3];
        assert(u@.take(3) =~= seq![a, b, c]);
        ((a == 'C' && b == 'O' && c == 'M') || (a == 'L' && b == 'P' && c == 'T')) && '1' <= d
            && d <= '9'
    } else {
        false
    }
}

fn append_chars(out: &mut Vec<char>, t: &Vec<char>)
    ensures
        final(out)@ == old(out)@ + t@,
{
    let mut i: usize = 0;
    let ghost start = out@;
    while i < t.len()
        invariant
            i <= t.len(),
            out@ == start + t@.take(i as int),
        decreases t.len() - i,
    {
        out.push(t[i]);
        assert(start + t@.take(i as int + 1) =~= (start + t@.take(i as int)).push(t@[i as int]));
        i = i + 1;
    }
    assert(t@.take(t.len() as int) =~= t@);
}

/// Reduce an announced file name to a safe name for the download folder.
///
/// Keeps only the last path component (splitting at both `/` and `\`),
/// drops control characters, trims white space, prefixes Windows device
/// names (`CON`, `con.txt`, `LPT1`, ...) with `_`, and maps an empty, `.`
/// or `..` result to `unknown_file.bin`.
pub fn sanitize_file_name(file_name: &str) -> (r: String)
    ensures
        r@ == sanitized_file_name(file_name@),
{
    let v = chars_of(file_name);
    let seg = last_segment_chars(&v);
    let kept = drop_unsafe(&seg);
    let t = trim_chars(&kept);
    let stem = file_stem_chars(&t);
    let upper_stem = ascii_upper_chars(&stem);
    let upper = ascii_upper_chars(&t);
    if is_reserved_name(&upper_stem) || is_reserved_name(&upper) {
        let mut out: Vec<char> = vec!['_'];
        append_chars(&mut out, &t);
        assert(out@ =~= seq!['_'] + t@);
        return string_of(&out);
    }
    if is_dot(&t) {
        let unknown: Vec<char> = vec![
            'u',
            'n',
            'k',
            'n',
            'o',
            'w',
            'n',
            '_',
            'f',
            'i',
            'l',
            'e',
            '.',
            'b',
            'i',
            'n',
        ];
        assert(unknown@ =~= unknown_file_name());
        return string_of(&unknown);
    }
    string_of(&t)
}

} // verus!
