//! What is decided about the key file before the key is read from it.

use vstd::prelude::*;

verus! {

/// How a key file holds the key.
#[derive(Clone, Copy, Debug, PartialEq, Eq, Structural)]
pub enum KeyFormat {
    /// A JSON object whose `secretKey` lists the bytes of the key.
    Json,
    /// The bytes of the key themselves.
    Raw,
}

/// A file that begins with an opening brace holds JSON; any other holds the
/// bytes of the key.
pub open spec fn key_format_spec(key_bytes: Seq<u8>) -> KeyFormat {
    if key_bytes[0] == 0x7b {
        KeyFormat::Json
    } else {
        KeyFormat::Raw
    }
}

/// Tells how a key file holds the key. The file must not be empty.
pub fn key_format(key_bytes: &[u8]) -> (r: KeyFormat)
    requires
        key_bytes@.len() > 0,
    ensures
        r == key_format_spec(key_bytes@),
{
    if key_bytes[0] == 0x7b {
        KeyFormat::Json
    } else {
        KeyFormat::Raw
    }
}

/// Whether the mode of a key file lets anybody but its owner at it.
pub fn permissions_too_open(mode: u32) -> (r: bool)
    ensures
        r == (mode & 0o077 != 0),
{
    mode & 0o077 != 0
}

} // verus!
