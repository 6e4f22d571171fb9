//! Where this node's secret key lives, and the checks applied to the key
//! file. Reading, writing and generating the key are left to the caller.

use vstd::prelude::*;
use crate::paths::{join_path, joined_path};

verus! {

/// Name of the key file inside the configuration folder.
pub const KEY_FILE_NAME: &'static str = "node_secret.key";

/// Length of a secret key, in bytes.
pub const SECRET_KEY_LEN: usize = 32;

/// Locates this node's secret key, which keeps its node id stable.
pub struct IdentityManager {
    config_dir: std::path::PathBuf,
}

impl IdentityManager {
    /// The folder holding the key file.
    pub closed spec fn spec_config_dir(&self) -> std::path::PathBuf {
        self.config_dir
    }

    /// A manager for the key file in `config_dir`.
    pub fn new(config_dir: std::path::PathBuf) -> (r: IdentityManager)
        ensures
            r.spec_config_dir() == config_dir,
    {
        IdentityManager { config_dir }
    }

    /// The path of the key file: `node_secret.key` in the configuration
    /// folder.
    pub fn get_key_path(&self) -> (r: std::path::PathBuf)
        ensures
            r == joined_path(self.spec_config_dir(), KEY_FILE_NAME@),
    {
        join_path(&self.config_dir, KEY_FILE_NAME)
    }
}

/// Why a key file cannot be used.
#[derive(Debug)]
pub enum IdentityError {
    /// The file does not hold exactly 32 bytes.
    InvalidKeyLength { len: usize },
}

impl IdentityError {
    /// The message for this error.
    pub fn message(&self) -> (m: String)
        ensures
            m@ == "Invalid secret key length in file"@,
    {
        crate::text::owned("Invalid secret key length in file")
    }
}

/// The 32 key bytes of a key file, or an error when it holds another
/// number of bytes.
pub fn secret_key_bytes(bytes: &Vec<u8>) -> (r: Result<[u8; 32], IdentityError>)
    ensures
        bytes@.len() == SECRET_KEY_LEN ==> (r matches Ok(a) && a@ == bytes@),
        bytes@.len() != SECRET_KEY_LEN ==> (r matches Err(IdentityError::InvalidKeyLength { len })
            && len == bytes@.len()),
{
    if bytes.len() != SECRET_KEY_LEN {
        return Err(IdentityError::InvalidKeyLength { len: bytes.len() });
    }
    let mut a: [u8; 32] = [0u8; 32];
    let mut i: usize = 0;
    while i < 32
        invariant
            i <= 32,
            bytes@.len() == 32,
            forall|k: int| 0 <= k < i ==> a@[k] == bytes@[k],
        decreases 32 - i,
    {
        a.set(i, bytes[i]);
        i = i + 1;
    }
    assert(a@ =~= bytes@);
    Ok(a)
}

/// The permission bits a key file must have: read and write for the owner
/// only.
pub const KEY_FILE_MODE: u32 = 0o600;

/// Whether a file with Unix mode `mode` must have its permissions reset to
/// `0o600` (any other permission bits set or missing).
pub fn needs_permission_fix(mode: u32) -> (r: bool)
    ensures
        r == ((mode & 0o777u32) != KEY_FILE_MODE),
{
    (mode & 0o777u32) != KEY_FILE_MODE
}

} // verus!
