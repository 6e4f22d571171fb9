//! The receiver's decisions while it stores a file: where to resume, how
//! much to read next, when to report progress, and whether the data
//! matches the announced hash.

use vstd::prelude::*;
use crate::paths::{join_path, joined_path};
use crate::text::{decimal, decimal_string, owned, push_str};
use crate::transfer::constants::{BUFFER_SIZE, MAX_FILE_SIZE, MAX_FILENAME_LENGTH};
use crate::transfer::utils::{
    sanitize_file_name, sanitized_file_name, validate_transfer_info, TransferRejection,
};

verus! {

/// Where to resume: the size of the partial file already on disk when it
/// is smaller than the announced size, else from the start.
pub open spec fn spec_resume_offset(existing_size: Option<u64>, file_size: u64) -> u64 {
    match existing_size {
        Some(s) => if s < file_size { s } else { 0 },
        None => 0,
    }
}

/// Where to resume receiving a file of `file_size` bytes, given the size of
/// the file already at the target path (`None` when there is none).
pub fn resume_offset(existing_size: Option<u64>, file_size: u64) -> (r: u64)
    ensures
        r == spec_resume_offset(existing_size, file_size),
        r <= file_size,
        r < file_size || r == 0,
{
    match existing_size {
        Some(s) => if s < file_size { s } else { 0 },
        None => 0,
    }
}

/// How many bytes to read next: the rest of the file, at most one buffer.
pub fn next_read_len(received: u64, total: u64) -> (r: usize)
    requires
        received < total,
    ensures
        r as int == if total - received < BUFFER_SIZE { total - received } else { BUFFER_SIZE as int },
        0 < r <= BUFFER_SIZE,
{
    let left = total - received;
    if left < BUFFER_SIZE as u64 {
        left as usize
    } else {
        BUFFER_SIZE
    }
}

/// Whether to report progress: at the end, or once a buffer's worth more
/// has arrived since the last report.
pub fn should_report_progress(done: u64, total: u64, last_reported: u64) -> (r: bool)
    requires
        last_reported <= done,
    ensures
        r == (done == total || done - last_reported >= BUFFER_SIZE),
{
    done == total || done - last_reported >= BUFFER_SIZE as u64
}

/// Whether the received data is intact: its digest equals the one the
/// sender announced.
pub fn hash_matches(computed: &String, expected: &String) -> (r: bool)
    ensures
        r == (computed@ == expected@),
{
    *computed == *expected
}

/// Where an announced file is stored. It is checked first (size, then
/// name length, as `validate_transfer_info` does); an accepted file keeps
/// only its sanitized name, placed directly in `download_dir`.
pub fn prepare_incoming(file_name: &str, file_size: u64, download_dir: &std::path::PathBuf) -> (r:
    Result<(String, std::path::PathBuf), TransferRejection>)
    ensures
        file_size > MAX_FILE_SIZE ==> (r matches Err(
            TransferRejection::FileTooLarge { file_name: n, file_size: z },
        ) && n@ == file_name@ && z == file_size),
        file_size <= MAX_FILE_SIZE && file_name.len() > MAX_FILENAME_LENGTH ==> (
        r matches Err(TransferRejection::FileNameTooLong { name_length: k }) && k
            == file_name.len()),
        file_size <= MAX_FILE_SIZE && file_name.len() <= MAX_FILENAME_LENGTH ==> (r matches Ok(
            (name, path),
        ) && name@ == sanitized_file_name(file_name@) && path == joined_path(*download_dir, name@)),
{
    match validate_transfer_info(file_name, file_size) {
        Err(e) => Err(e),
        Ok(()) => {
            let name = sanitize_file_name(file_name);
            let path = join_path(download_dir, name.as_str());
            Ok((name, path))
        },
    }
}

/// A status line about a file: `verb: name (size bytes)`.
pub open spec fn file_status_text(verb: Seq<char>, file_name: Seq<char>, file_size: u64) -> Seq<char> {
    verb + ": "@ + file_name + " ("@ + decimal(file_size as nat) + " bytes)"@
}

/// The status line shown when a file starts arriving.
pub fn receiving_status(file_name: &str, file_size: u64) -> (r: String)
    ensures
        r@ == file_status_text("Receiving"@, file_name@, file_size),
{
    let mut r = owned("Receiving: ");
    push_str(&mut r, file_name);
    push_str(&mut r, " (");
    let n = decimal_string(file_size);
    push_str(&mut r, n.as_str());
    push_str(&mut r, " bytes)");
    proof {
        reveal_strlit("Receiving");
        reveal_strlit("Receiving: ");
        reveal_strlit(": ");
    }
    r
}

} // verus!
