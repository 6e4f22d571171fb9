//! The persisted configuration: the table of paired devices and the
//! download folder. Reading and writing the file is left to the caller.

use vstd::prelude::*;
use crate::keyed::KeyedList;

verus! {

/// A device that the user has paired with.
pub struct PairedDevice {
    pub endpoint_id: String,
    pub peer_name: String,
    /// Unix timestamp (seconds) when the pairing was established.
    pub paired_at: u64,
}

/// The configuration kept on disk.
pub struct AppConfig {
    /// Paired devices, keyed by endpoint id.
    pub pairing: KeyedList<PairedDevice>,
    pub download_path: std::path::PathBuf,
}

impl AppConfig {
    /// A configuration with no pairing, saving into `download_path`.
    pub fn new(download_path: std::path::PathBuf) -> (r: AppConfig)
        ensures
            r.pairing.wf(),
            r.pairing@ == Map::<Seq<char>, PairedDevice>::empty(),
            r.download_path == download_path,
    {
        AppConfig { pairing: KeyedList::new(), download_path }
    }
}

/// The endpoint id read from disk, if it is usable: the stored text without
/// surrounding white space, unless that leaves nothing.
pub open spec fn stored_endpoint_id(stored: Seq<char>) -> Option<Seq<char>> {
    let t = crate::text::trim(stored);
    if t.len() > 0 {
        Some(t)
    } else {
        None
    }
}

/// The endpoint id to use given what was read from disk (if anything) and a
/// freshly generated one: the stored id, trimmed, when it is not blank;
/// otherwise the fresh one, which the caller then saves.
pub fn choose_endpoint_id(stored: Option<&str>, fresh: String) -> (r: (String, bool))
    ensures
        match stored {
            Some(s) => match stored_endpoint_id(s@) {
                Some(t) => r.0@ == t && !r.1,
                None => r.0@ == fresh@ && r.1,
            },
            None => r.0@ == fresh@ && r.1,
        },
{
    if let Some(s) = stored {
        let v = crate::text::chars_of(s);
        let t = crate::text::trim_chars(&v);
        if t.len() > 0 {
            return (crate::text::string_of(&t), false);
        }
    }
    (fresh, true)
}

} // verus!
