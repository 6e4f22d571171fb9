//! Checks applied to what a browser announces.

use vstd::prelude::*;
use crate::text::{decimal, decimal_string, owned, push_str};
use crate::transfer::constants::{MAX_FILENAME_LENGTH, MAX_FILE_SIZE};
use crate::transfer::utils::GIB;
pub use crate::http_share::websocket::state::cleanup_pending;

verus! {

/// The refusal for an overlong name.
pub open spec fn name_too_long_text() -> Seq<char> {
    "Filename too long (max "@ + decimal(MAX_FILENAME_LENGTH as nat) + " characters)"@
}

/// The refusal for an oversized file.
pub open spec fn file_too_large_text() -> Seq<char> {
    "File too large (max "@ + decimal((MAX_FILE_SIZE / GIB) as nat) + " GB)"@
}

/// Check what a browser announces: first the name's length (in UTF-8
/// bytes), then the size.
pub fn validate_file_info(file_name: &str, file_size: u64) -> (r: Result<(), String>)
    ensures
        file_name.len() > MAX_FILENAME_LENGTH ==> (r matches Err(m) && m@ == name_too_long_text()),
        file_name.len() <= MAX_FILENAME_LENGTH && file_size > MAX_FILE_SIZE ==> (r matches Err(m)
            && m@ == file_too_large_text()),
        file_name.len() <= MAX_FILENAME_LENGTH && file_size <= MAX_FILE_SIZE ==> r is Ok,
{
    if file_name.len() > MAX_FILENAME_LENGTH {
        let mut m = owned("Filename too long (max ");
        let n = decimal_string(MAX_FILENAME_LENGTH as u64);
        push_str(&mut m, n.as_str());
        push_str(&mut m, " characters)");
        return Err(m);
    }
    if file_size > MAX_FILE_SIZE {
        let mut m = owned("File too large (max ");
        let n = decimal_string(MAX_FILE_SIZE / GIB);
        push_str(&mut m, n.as_str());
        push_str(&mut m, " GB)");
        return Err(m);
    }
    Ok(())
}

} // verus!
