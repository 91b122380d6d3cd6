//! Classification of bytes as UTF-8 text, decoding of file contents, and a
//! thin probe for whether a path names a directory.

use vstd::prelude::*;
use vstd::utf8::{decode_utf8, valid_utf8};

verus! {

/// Relies on core::str::from_utf8: it returns `Ok` exactly when the bytes are
/// valid UTF-8, and the slice it yields is their decoding.
#[verifier::external_body]
fn utf8_to_str(bytes: &[u8]) -> (r: Option<&str>)
    ensures
        r is Some <==> valid_utf8(bytes@),
        r matches Some(s) ==> s@ == decode_utf8(bytes@),
{
    core::str::from_utf8(bytes).ok()
}

/// Reports whether the bytes decode as UTF-8. A file counts as text exactly
/// when the bytes read from its start pass this check.
pub fn is_utf8_text(bytes: &[u8]) -> (r: bool)
    ensures
        r == valid_utf8(bytes@),
{
    utf8_to_str(bytes).is_some()
}

/// Decodes the bytes as UTF-8, or reports that they are not text.
pub fn decode_text(bytes: &[u8]) -> (r: Option<String>)
    ensures
        r is Some <==> valid_utf8(bytes@),
        r matches Some(s) ==> s@ == decode_utf8(bytes@),
{
    match utf8_to_str(bytes) {
        Some(s) => Some(s.to_owned()),
        None => None,
    }
}

/// Relies on std::path::Path::is_dir. The answer depends on the filesystem at
/// the moment of the call, so nothing is promised of it.
#[verifier::external_body]
fn path_is_dir(path: &str) -> bool {
    std::path::Path::new(path).is_dir()
}

/// Reports whether `path` names an existing directory on this machine.
pub fn is_dir(path: &str) -> bool {
    path_is_dir(path)
}

} // verus!
